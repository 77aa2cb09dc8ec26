use lunatics::assigner::KeyAssigner;
use lunatics::player::Player;

#[test]
fn new_player_stands_at_start_with_scripted_key() {
    let mut a = KeyAssigner::scripted(vec![0]);
    let p = Player::new(&mut a);
    assert_eq!(p.get_position(), 0);
    assert_eq!(p.get_key(), 'A');
}

#[test]
fn goal_check_is_strictly_greater() {
    let mut a = KeyAssigner::scripted(vec![0]);
    let mut p = Player::new(&mut a);
    for _ in 0..5 {
        p.run();
    }
    assert_eq!(p.get_position(), 5);
    // exactly on the goal line: not a win
    assert!(!p.has_reached_goal(5));
    assert!(!p.has_reached_goal(6));
    // strictly beyond: a win
    assert!(p.has_reached_goal(4));
    assert!(p.has_reached_goal(0));
}

#[test]
fn key_match_compares_the_assigned_key() {
    let mut a = KeyAssigner::scripted(vec![7]);
    let p = Player::new(&mut a);
    assert_eq!(p.get_key(), 'H');
    assert!(p.has_key_pressed('H'));
    assert!(!p.has_key_pressed('A'));
}

#[test]
fn reset_clears_distance_and_redraws_key() {
    let mut a = KeyAssigner::scripted(vec![2, 5]);
    let mut p = Player::new(&mut a);
    assert_eq!(p.get_key(), 'C');
    p.run();
    p.run();
    assert_eq!(p.get_position(), 2);
    p.reset(&mut a);
    assert_eq!(p.get_position(), 0);
    assert_eq!(p.get_key(), 'F');
}

#[test]
fn reset_may_redraw_the_same_key() {
    let mut a = KeyAssigner::scripted(vec![4, 4]);
    let mut p = Player::new(&mut a);
    assert_eq!(p.get_key(), 'E');
    p.run();
    p.reset(&mut a);
    assert_eq!(p.get_key(), 'E');
    assert_eq!(p.get_position(), 0);
}

#[test]
fn scripted_draws_are_reduced_below_the_bound() {
    let mut a = KeyAssigner::scripted(vec![27, 3]);
    // 27 reduced modulo 26, not handed back as it came in
    assert_eq!(a.next_below(26), 1);
    assert_eq!(a.next_below(26), 3);
    // an exhausted script answers zero
    assert_eq!(a.next_below(26), 0);
}

#[test]
fn system_draws_stay_below_the_bound() {
    let mut a = KeyAssigner::system();
    for _ in 0..200 {
        assert!(a.next_below(10) < 10);
        assert_eq!(a.next_below(1), 0);
    }
}

#[test]
fn system_keys_come_from_the_alphabet() {
    let mut a = KeyAssigner::system();
    for _ in 0..200 {
        let k = a.random_key();
        assert!(('A'..='Z').contains(&k));
    }
}
