use lunatics::assigner::KeyAssigner;
use lunatics::config::Config;
use lunatics::engine::{GameEngine, UiState};
use lunatics::events::{Key, KeyEvent};

fn press(c: char) -> KeyEvent {
    KeyEvent { key: Key::Character(c), repeat: false }
}

fn repeat(c: char) -> KeyEvent {
    KeyEvent { key: Key::Character(c), repeat: true }
}

fn config(goal_distance: usize, change_probability: u64) -> Config {
    Config { goal_distance, countdown_from: 3, change_frequency: 2, change_probability }
}

#[test]
fn starts_on_the_select_screen() {
    let e = GameEngine::new(Config::standard());
    let s = e.snapshot();
    assert!(matches!(s.ui, UiState::Select));
    assert_eq!(s.players.len(), 0);
    assert_eq!(s.winner, None);
    assert_eq!(s.countdown, None);
    assert_eq!(s.goal_distance, 160);
}

#[test]
fn a_digit_starts_a_round_with_that_many_players() {
    let mut e = GameEngine::new(Config::standard());
    let mut a = KeyAssigner::scripted(vec![0, 1]);
    e.key_down(press('2'), 500, &mut a);
    let s = e.snapshot();
    assert!(matches!(s.ui, UiState::Play));
    assert_eq!(s.players.len(), 2);
    assert_eq!(s.players[0].get_key(), 'A');
    assert_eq!(s.players[1].get_key(), 'B');
    assert_eq!(s.players[0].get_position(), 0);
    assert_eq!(s.players[1].get_position(), 0);
    // the round clock starts at the event: countdown shows its full value
    assert_eq!(s.countdown, Some(3));
}

#[test]
fn a_zero_is_rejected_on_the_select_screen() {
    let mut e = GameEngine::new(Config::standard());
    let mut a = KeyAssigner::scripted(vec![0]);
    e.key_down(press('0'), 0, &mut a);
    let s = e.snapshot();
    assert!(matches!(s.ui, UiState::Select));
    assert_eq!(s.players.len(), 0);
}

#[test]
fn other_keys_are_ignored_on_the_select_screen() {
    let mut e = GameEngine::new(Config::standard());
    let mut a = KeyAssigner::scripted(vec![0]);
    e.key_down(press('X'), 0, &mut a);
    e.key_down(KeyEvent { key: Key::Space, repeat: false }, 0, &mut a);
    e.key_down(KeyEvent { key: Key::Other, repeat: false }, 0, &mut a);
    assert!(matches!(e.snapshot().ui, UiState::Select));
}

#[test]
fn ticks_before_selection_change_nothing() {
    let mut e = GameEngine::new(Config::standard());
    let mut a = KeyAssigner::system();
    e.tick(5000, &mut a);
    let s = e.snapshot();
    assert!(matches!(s.ui, UiState::Select));
    assert_eq!(s.players.len(), 0);
}

#[test]
fn countdown_gates_input_until_it_finishes() {
    let mut e = GameEngine::new(config(160, 0));
    let mut a = KeyAssigner::scripted(vec![0, 99]);
    e.key_down(press('1'), 0, &mut a);
    assert_eq!(e.snapshot().players[0].get_key(), 'A');

    // two seconds in: input still locked, a matching press does nothing
    e.tick(2000, &mut a);
    assert_eq!(e.snapshot().countdown, Some(1));
    e.key_down(press('A'), 2000, &mut a);
    assert_eq!(e.snapshot().players[0].get_position(), 0);

    // three seconds in: unlocked, the same press advances by exactly one
    e.tick(3000, &mut a);
    assert_eq!(e.snapshot().countdown, None);
    e.key_down(press('A'), 3000, &mut a);
    assert_eq!(e.snapshot().players[0].get_position(), 1);
}

#[test]
fn repeat_events_never_move_players() {
    let mut e = GameEngine::new(config(160, 0));
    let mut a = KeyAssigner::scripted(vec![0, 99]);
    e.key_down(press('1'), 0, &mut a);
    e.tick(3000, &mut a);
    e.key_down(repeat('A'), 3000, &mut a);
    assert_eq!(e.snapshot().players[0].get_position(), 0);
    e.key_down(press('A'), 3000, &mut a);
    e.key_down(repeat('A'), 3000, &mut a);
    assert_eq!(e.snapshot().players[0].get_position(), 1);
}

#[test]
fn players_sharing_a_key_advance_together() {
    let mut e = GameEngine::new(config(160, 0));
    let mut a = KeyAssigner::scripted(vec![0, 0, 1]);
    e.key_down(press('3'), 0, &mut a);
    e.tick(3000, &mut a);
    e.key_down(press('A'), 3000, &mut a);
    let s = e.snapshot();
    assert_eq!(s.players[0].get_position(), 1);
    assert_eq!(s.players[1].get_position(), 1);
    assert_eq!(s.players[2].get_position(), 0);
}

#[test]
fn ties_go_to_the_lowest_index() {
    let mut e = GameEngine::new(config(200, 0));
    let mut a = KeyAssigner::scripted(vec![0, 1]);
    e.key_down(press('2'), 0, &mut a);
    e.tick(3000, &mut a);
    for _ in 0..201 {
        e.key_down(press('A'), 3000, &mut a);
    }
    for _ in 0..205 {
        e.key_down(press('B'), 3000, &mut a);
    }
    // both are beyond the line when the next tick checks
    e.tick(3500, &mut a);
    let s = e.snapshot();
    assert!(matches!(s.ui, UiState::Win { winner: 0 }));
    assert_eq!(s.winner, Some(0));
    assert_eq!(s.players[0].get_position(), 201);
    assert_eq!(s.players[1].get_position(), 205);
}

#[test]
fn exactly_on_the_goal_line_is_not_a_win() {
    let mut e = GameEngine::new(config(10, 0));
    let mut a = KeyAssigner::scripted(vec![0]);
    e.key_down(press('1'), 0, &mut a);
    e.tick(3000, &mut a);
    for _ in 0..10 {
        e.key_down(press('A'), 3000, &mut a);
    }
    e.tick(3500, &mut a);
    assert!(matches!(e.snapshot().ui, UiState::Play));
    e.key_down(press('A'), 3500, &mut a);
    e.tick(3600, &mut a);
    let s = e.snapshot();
    assert!(matches!(s.ui, UiState::Win { winner: 0 }));
}

#[test]
fn confirm_on_the_win_screen_restarts_the_round() {
    let mut e = GameEngine::new(config(5, 0));
    let mut a = KeyAssigner::scripted(vec![0, 1, 24, 25]);
    e.key_down(press('2'), 0, &mut a);
    e.tick(3000, &mut a);
    for _ in 0..6 {
        e.key_down(press('B'), 3000, &mut a);
    }
    e.tick(3200, &mut a);
    assert_eq!(e.snapshot().winner, Some(1));

    // a non-confirm key is ignored on the win screen
    e.key_down(press('B'), 9000, &mut a);
    assert_eq!(e.snapshot().winner, Some(1));

    // confirm: everyone back at the start with fresh keys, timer at zero
    e.key_down(KeyEvent { key: Key::Space, repeat: false }, 10000, &mut a);
    let s = e.snapshot();
    assert!(matches!(s.ui, UiState::Play));
    assert_eq!(s.winner, None);
    assert_eq!(s.players[0].get_position(), 0);
    assert_eq!(s.players[1].get_position(), 0);
    assert_eq!(s.players[0].get_key(), 'Y');
    assert_eq!(s.players[1].get_key(), 'Z');
    assert_eq!(s.countdown, Some(3));
}

#[test]
fn return_also_confirms_a_restart() {
    let mut e = GameEngine::new(config(1, 0));
    let mut a = KeyAssigner::scripted(vec![0, 3]);
    e.key_down(press('1'), 0, &mut a);
    e.tick(3000, &mut a);
    e.key_down(press('A'), 3000, &mut a);
    e.key_down(press('A'), 3000, &mut a);
    e.tick(3100, &mut a);
    assert_eq!(e.snapshot().winner, Some(0));
    e.key_down(KeyEvent { key: Key::Return, repeat: false }, 8000, &mut a);
    let s = e.snapshot();
    assert!(matches!(s.ui, UiState::Play));
    assert_eq!(s.players[0].get_key(), 'D');
    assert_eq!(s.players[0].get_position(), 0);
}

#[test]
fn zero_probability_never_reassigns() {
    let mut e = GameEngine::new(config(160, 0));
    let mut a = KeyAssigner::scripted(vec![0, 99, 1, 1, 98, 2, 2]);
    e.key_down(press('1'), 0, &mut a);
    // seconds 4, 6, 8 are all eligible windows, yet the key never changes
    e.tick(4000, &mut a);
    assert_eq!(e.snapshot().players[0].get_key(), 'A');
    e.tick(6000, &mut a);
    assert_eq!(e.snapshot().players[0].get_key(), 'A');
    e.tick(8000, &mut a);
    assert_eq!(e.snapshot().players[0].get_key(), 'A');
}

#[test]
fn full_probability_reassigns_once_per_eligible_window() {
    let mut e = GameEngine::new(config(160, 100));
    let mut a = KeyAssigner::scripted(vec![0, 50, 0, 2, 70, 0, 3]);
    e.key_down(press('1'), 0, &mut a);
    assert_eq!(e.snapshot().players[0].get_key(), 'A');

    // second 4: an eligible window; the one reassignment fires
    e.tick(4000, &mut a);
    assert_eq!(e.snapshot().players[0].get_key(), 'C');

    // still second 4: the latch blocks a second reassignment in the window
    e.tick(4100, &mut a);
    assert_eq!(e.snapshot().players[0].get_key(), 'C');
    e.tick(4900, &mut a);
    assert_eq!(e.snapshot().players[0].get_key(), 'C');

    // second 5: not eligible, the latch drops
    e.tick(5000, &mut a);
    assert_eq!(e.snapshot().players[0].get_key(), 'C');

    // second 6: the next eligible window fires exactly once more
    e.tick(6000, &mut a);
    assert_eq!(e.snapshot().players[0].get_key(), 'D');
}

#[test]
fn reassignment_does_not_move_the_player() {
    let mut e = GameEngine::new(config(160, 100));
    let mut a = KeyAssigner::scripted(vec![0, 50, 0, 2]);
    e.key_down(press('1'), 0, &mut a);
    e.tick(3000, &mut a);
    e.key_down(press('A'), 3000, &mut a);
    assert_eq!(e.snapshot().players[0].get_position(), 1);
    e.tick(4000, &mut a);
    let s = e.snapshot();
    assert_eq!(s.players[0].get_key(), 'C');
    assert_eq!(s.players[0].get_position(), 1);
}

#[test]
fn scripted_runs_are_reproducible() {
    let script = vec![3, 1, 4, 1, 5, 9, 2, 6, 5, 3, 5, 8, 9, 7, 9, 3];
    let mut e1 = GameEngine::new(config(20, 70));
    let mut e2 = GameEngine::new(config(20, 70));
    let mut a1 = KeyAssigner::scripted(script.clone());
    let mut a2 = KeyAssigner::scripted(script);

    let times = [0u64, 2000, 3000, 4000, 4500, 5000, 6000, 7000, 8000];
    for engine_and_source in [(&mut e1, &mut a1), (&mut e2, &mut a2)] {
        let (e, a) = engine_and_source;
        e.key_down(press('2'), 0, a);
        for t in times {
            e.tick(t, a);
            e.key_down(press('D'), t, a);
            e.key_down(press('B'), t, a);
        }
    }

    let s1 = e1.snapshot();
    let s2 = e2.snapshot();
    assert_eq!(s1.ui, s2.ui);
    assert_eq!(s1.winner, s2.winner);
    assert_eq!(s1.countdown, s2.countdown);
    assert_eq!(s1.players.len(), s2.players.len());
    for i in 0..s1.players.len() {
        assert_eq!(s1.players[i].get_key(), s2.players[i].get_key());
        assert_eq!(s1.players[i].get_position(), s2.players[i].get_position());
    }
}
