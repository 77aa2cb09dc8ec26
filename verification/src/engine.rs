//! The game engine: the Select → Play → Win state machine, the per-tick win
//! check, the countdown gate on input, and the periodic key-reassignment
//! policy.
//!
//! The whole behaviour is pinned by two specification-level transition
//! functions, `spec_tick` and `spec_key_down`: every tick and every key event
//! leaves the engine at exactly the model those functions describe, for some
//! admissible random choices; under a scripted `KeyAssigner` the choices
//! themselves are pinned, so runs are exactly reproducible.

use vstd::prelude::*;
use crate::assigner::{
    is_letter, key_of_draw, scripted_keys, spec_draw, spec_rest, spec_rest_n, KeyAssigner,
    ALPHABET_SIZE,
};
use crate::config::{Config, CHANCE_SCALE};
use crate::events::{is_confirm, selected_player_count, Key, KeyEvent};
use crate::player::Player;
use crate::timer::Timer;

verus! {

/// The phase the game is in. The winner exists exactly while the game is on
/// the win screen, so it lives in that variant and nowhere else.
#[derive(Clone, Copy, PartialEq, Eq, Structural, Debug)]
pub enum UiState {
    /// Waiting for a player count; no players exist yet.
    Select,
    /// A round is running.
    Play,
    /// Player `winner` (by index) has crossed the goal line.
    Win { winner: usize },
}

/// The mathematical state of the engine: what `GameEngine` holds, with the
/// player list as a sequence.
pub ghost struct EngineModel {
    pub ui: UiState,
    pub players: Seq<Player>,
    pub timer: Timer,
    pub change_mode: bool,
    pub config: Config,
}

impl EngineModel {
    /// Well-formedness: the configuration is sound, every assigned key is a
    /// letter, players exist exactly outside the select screen, and a
    /// recorded winner is a real index.
    pub open spec fn wf(self) -> bool {
        &&& self.config.wf()
        &&& forall|i: int| 0 <= i < self.players.len() ==> (#[trigger] self.players[i]).wf()
        &&& (self.ui is Select <==> self.players.len() == 0)
        &&& (self.ui matches UiState::Win { winner } ==> winner < self.players.len())
    }
}

/// Whether the countdown is over at `secs` elapsed whole seconds: input
/// unlocks once `secs` passes `countdown_from - 1`.
pub open spec fn countdown_finished_at(config: Config, secs: u64) -> bool {
    secs > config.countdown_from - 1
}

/// Whether a tick at `secs` elapsed whole seconds falls into a reassignment
/// window: the countdown is over and `secs` is divisible by the change
/// frequency.
pub open spec fn eligible_at(config: Config, secs: u64) -> bool {
    countdown_finished_at(config, secs) && secs % config.change_frequency == 0
}

/// The first (lowest-index) player strictly beyond the goal line, if any.
pub open spec fn spec_first_winner(players: Seq<Player>, goal_distance: usize) -> Option<int>
    decreases players.len(),
{
    if players.len() == 0 {
        None
    } else if players[0].pos > goal_distance {
        Some(0)
    } else {
        match spec_first_winner(players.drop_first(), goal_distance) {
            Some(i) => Some(i + 1),
            None => None,
        }
    }
}

/// `p` after a press of `key`: one cell forward if it is `p`'s key, in place
/// otherwise.
pub open spec fn spec_moved(p: Player, key: char) -> Player {
    if p.key == key {
        Player { key: p.key, pos: (p.pos + 1) as usize }
    } else {
        p
    }
}

/// The player list after a fresh press of `key`: every player whose assigned
/// key it is advances one cell, all at once; everyone else stands still.
pub open spec fn spec_move_players(players: Seq<Player>, key: char) -> Seq<Player> {
    Seq::new(players.len(), |i: int| spec_moved(players[i], key))
}

/// A player at the start line holding `key`.
pub open spec fn spec_fresh_player(key: char) -> Player {
    Player { key: key, pos: 0usize }
}

/// A row of players at the start line, one per key in `keys`.
pub open spec fn spec_fresh_players(keys: Seq<char>) -> Seq<Player> {
    Seq::new(keys.len(), |i: int| spec_fresh_player(keys[i]))
}

/// The engine model after one tick at clock time `now_ms`, given the random
/// choices a reassignment would use: `chance` is the draw against the change
/// probability, `target` the player to reassign and `new_key` the fresh key.
/// The choices are read only when the policy actually fires.
///
/// The timer always advances. In Play, the win check records the first
/// player beyond the goal, and independently the reassignment policy runs:
/// on the first tick of an eligible window (guarded by the `change_mode`
/// latch) the chance draw is tested against the change probability, and on
/// success one player's key is redrawn; off eligible windows the latch drops.
pub open spec fn spec_tick(
    m: EngineModel,
    now_ms: u64,
    chance: u64,
    target: int,
    new_key: char,
) -> EngineModel
    recommends
        m.wf(),
        chance < CHANCE_SCALE,
        m.players.len() > 0 ==> 0 <= target < m.players.len(),
        is_letter(new_key),
{
    let timer = m.timer.spec_updated(now_ms);
    if !(m.ui is Play) {
        EngineModel { timer, ..m }
    } else {
        let ui = match spec_first_winner(m.players, m.config.goal_distance) {
            Some(w) => UiState::Win { winner: w as usize },
            None => UiState::Play,
        };
        let eligible = eligible_at(m.config, timer.spec_value());
        if eligible && !m.change_mode {
            let players = if chance < m.config.change_probability {
                m.players.update(
                    target,
                    Player { key: new_key, pos: m.players[target].pos },
                )
            } else {
                m.players
            };
            EngineModel { ui, players, timer, change_mode: true, config: m.config }
        } else {
            EngineModel { ui, players: m.players, timer, change_mode: eligible, config: m.config }
        }
    }
}

/// How many raw draws a tick consumes from the assigner, given the chance
/// draw it would read first: none outside a firing window, one for a chance
/// draw that fails, three (chance, target, key) for one that fires.
pub open spec fn tick_draws_used(m: EngineModel, now_ms: u64, chance: u64) -> nat {
    let timer = m.timer.spec_updated(now_ms);
    if m.ui is Play && eligible_at(m.config, timer.spec_value()) && !m.change_mode {
        if chance < m.config.change_probability {
            3
        } else {
            1
        }
    } else {
        0
    }
}

/// The engine model after a key-down event, given the fresh keys `new_keys`
/// that new or reset players would be assigned (read only on the select and
/// win screens).
///
/// On Select, a digit `1`..=`9` starts a round with that many players and
/// restarts the timer; everything else, a zero included, is ignored. In
/// Play, auto-repeat events are ignored, and a character pressed after the
/// countdown advances every player holding that key. On Win, a confirm key
/// resets every player to the start line with a fresh key and begins a new
/// round; every other key is ignored.
pub open spec fn spec_key_down(
    m: EngineModel,
    event: KeyEvent,
    now_ms: u64,
    new_keys: Seq<char>,
) -> EngineModel
    recommends
        m.wf(),
        new_keys.len() == key_down_keys_used(m, event),
        forall|i: int| 0 <= i < new_keys.len() ==> is_letter(#[trigger] new_keys[i]),
{
    match m.ui {
        UiState::Select => {
            match selected_player_count(event.key) {
                Some(_) => EngineModel {
                    ui: UiState::Play,
                    players: spec_fresh_players(new_keys),
                    timer: Timer { started_ms: now_ms, elapsed_ms: 0 },
                    change_mode: m.change_mode,
                    config: m.config,
                },
                None => m,
            }
        },
        UiState::Play => {
            if event.repeat {
                m
            } else {
                match event.key {
                    Key::Character(c) => {
                        if countdown_finished_at(m.config, m.timer.spec_value()) {
                            EngineModel { players: spec_move_players(m.players, c), ..m }
                        } else {
                            m
                        }
                    },
                    _ => m,
                }
            }
        },
        UiState::Win { .. } => {
            if is_confirm(event.key) {
                EngineModel {
                    ui: UiState::Play,
                    players: spec_fresh_players(new_keys),
                    timer: Timer { started_ms: now_ms, elapsed_ms: 0 },
                    change_mode: m.change_mode,
                    config: m.config,
                }
            } else {
                m
            }
        },
    }
}

/// How many fresh keys a key-down event consumes from the assigner: one per
/// new player on the select screen, one per reset player on the win screen,
/// none otherwise.
pub open spec fn key_down_keys_used(m: EngineModel, event: KeyEvent) -> nat {
    match m.ui {
        UiState::Select => {
            match selected_player_count(event.key) {
                Some(n) => n as nat,
                None => 0,
            }
        },
        UiState::Play => 0,
        UiState::Win { .. } => if is_confirm(event.key) {
            m.players.len()
        } else {
            0
        },
    }
}

/// The first winner is a real index of a player beyond the goal, and nobody
/// before it is: ties within one tick go to the lowest index. When it is
/// `None`, nobody is beyond the goal.
pub proof fn lemma_first_winner_is_least(players: Seq<Player>, goal_distance: usize)
    ensures
        match spec_first_winner(players, goal_distance) {
            Some(w) => {
                &&& 0 <= w < players.len()
                &&& players[w].pos > goal_distance
                &&& forall|j: int| 0 <= j < w ==> #[trigger] players[j].pos <= goal_distance
            },
            None => forall|j: int|
                0 <= j < players.len() ==> #[trigger] players[j].pos <= goal_distance,
        },
    decreases players.len(),
{
    if players.len() > 0 && players[0].pos <= goal_distance {
        lemma_first_winner_is_least(players.drop_first(), goal_distance);
        assert forall|j: int| 0 <= j < players.len() && players[j].pos > goal_distance implies
            spec_first_winner(players, goal_distance) is Some by {
            if j > 0 {
                assert(players.drop_first()[j - 1] == players[j]);
            }
        }
        match spec_first_winner(players.drop_first(), goal_distance) {
            Some(w) => {
                assert forall|j: int| 0 <= j < w + 1 implies #[trigger] players[j].pos
                    <= goal_distance by {
                    if j > 0 {
                        assert(players.drop_first()[j - 1] == players[j]);
                    }
                }
            },
            None => {
                assert forall|j: int| 0 <= j < players.len() implies #[trigger] players[j].pos
                    <= goal_distance by {
                    if j > 0 {
                        assert(players.drop_first()[j - 1] == players[j]);
                    }
                }
            },
        }
    }
}

/// `spec_first_winner` answers `Some(i)` exactly when player `i` is beyond
/// the goal and no lower-index player is.
pub proof fn lemma_first_winner_of_witness(players: Seq<Player>, goal_distance: usize, i: int)
    requires
        0 <= i < players.len(),
        players[i].pos > goal_distance,
        forall|j: int| 0 <= j < i ==> #[trigger] players[j].pos <= goal_distance,
    ensures
        spec_first_winner(players, goal_distance) == Some(i),
{
    lemma_first_winner_is_least(players, goal_distance);
    match spec_first_winner(players, goal_distance) {
        Some(w) => {
            if w < i {
                assert(players[w].pos <= goal_distance);
            }
            if i < w {
                assert(players[i].pos <= goal_distance);
            }
        },
        None => {
            assert(players[i].pos <= goal_distance);
        },
    }
}

/// The engine itself. Construct it with `new`, drive it with `tick` once per
/// frame and `key_down` per fresh input event, and read it with `snapshot`.
/// All mutation goes through those methods, and each of them keeps the model
/// well formed.
pub struct GameEngine {
    ui: UiState,
    players: Vec<Player>,
    timer: Timer,
    change_mode: bool,
    config: Config,
}

impl View for GameEngine {
    type V = EngineModel;

    closed spec fn view(&self) -> EngineModel {
        EngineModel {
            ui: self.ui,
            players: self.players@,
            timer: self.timer,
            change_mode: self.change_mode,
            config: self.config,
        }
    }
}

/// The first player (lowest index) strictly beyond the goal, if any.
fn find_first_winner(players: &Vec<Player>, goal_distance: usize) -> (w: Option<usize>)
    ensures
        match w {
            Some(i) => spec_first_winner(players@, goal_distance) == Some(i as int),
            None => spec_first_winner(players@, goal_distance) is None,
        },
{
    let n = players.len();
    let mut i: usize = 0;
    while i < n
        invariant
            i <= n,
            n == players@.len(),
            forall|j: int| 0 <= j < i ==> #[trigger] players@[j].pos <= goal_distance,
        decreases n - i,
    {
        if players[i].has_reached_goal(goal_distance) {
            proof {
                lemma_first_winner_of_witness(players@, goal_distance, i as int);
            }
            return Some(i);
        }
        i += 1;
    }
    proof {
        lemma_first_winner_is_least(players@, goal_distance);
        match spec_first_winner(players@, goal_distance) {
            Some(w) => assert(players@[w].pos <= goal_distance),
            None => (),
        }
    }
    None
}

impl GameEngine {
    /// A fresh engine on the select screen: no players, timer at zero, latch
    /// down.
    pub fn new(config: Config) -> (e: GameEngine)
        requires
            config.wf(),
        ensures
            e@ == (EngineModel {
                ui: UiState::Select,
                players: Seq::<Player>::empty(),
                timer: Timer { started_ms: 0, elapsed_ms: 0 },
                change_mode: false,
                config,
            }),
            e@.wf(),
    {
        let e = GameEngine {
            ui: UiState::Select,
            players: Vec::new(),
            timer: Timer::new(),
            change_mode: false,
            config,
        };
        proof {
            assert(e@.players =~= Seq::<Player>::empty());
        }
        e
    }

    /// One frame tick at clock time `now_ms`. The timer advances; on the
    /// play screen the first player beyond the goal becomes the winner, and
    /// the reassignment policy may redraw one player's key using `assigner`.
    ///
    /// The result is exactly `spec_tick` of the old state for some
    /// admissible random choices; under a scripted assigner the choices are
    /// the script's own next draws, so the outcome is fully determined.
    pub fn tick(&mut self, now_ms: u64, assigner: &mut KeyAssigner)
        requires
            old(self)@.wf(),
            now_ms >= old(self)@.timer.started_ms,
        ensures
            final(self)@.wf(),
            exists|chance: u64, target: int, new_key: char|
                {
                    &&& chance < CHANCE_SCALE
                    &&& (old(self)@.players.len() > 0 ==> 0 <= target < old(
                        self,
                    )@.players.len())
                    &&& is_letter(new_key)
                    &&& final(self)@ == spec_tick(old(self)@, now_ms, chance, target, new_key)
                },
            (*old(assigner)) is Scripted ==> ({
                let d = old(assigner).remaining();
                let chance = spec_draw(d, CHANCE_SCALE);
                &&& *final(assigner) is Scripted
                &&& final(self)@ == spec_tick(
                    old(self)@,
                    now_ms,
                    chance,
                    spec_draw(spec_rest(d), old(self)@.players.len() as u64) as int,
                    key_of_draw(spec_draw(spec_rest_n(d, 2), ALPHABET_SIZE)),
                )
                &&& final(assigner).remaining() == spec_rest_n(
                    d,
                    tick_draws_used(old(self)@, now_ms, chance),
                )
            }),
            (*old(assigner)) is System ==> *final(assigner) == *old(assigner),
    {
        proof {
            assert(spec_rest_n(old(assigner).remaining(), 0) == old(assigner).remaining());
            assert(spec_rest_n(old(assigner).remaining(), 1) == spec_rest(
                old(assigner).remaining(),
            ));
            assert(spec_rest_n(old(assigner).remaining(), 2) == spec_rest(
                spec_rest(old(assigner).remaining()),
            ));
            assert(spec_rest_n(old(assigner).remaining(), 3) == spec_rest(
                spec_rest(spec_rest(old(assigner).remaining())),
            ));
        }
        self.timer.update(now_ms);
        let is_play = match self.ui {
            UiState::Play => true,
            _ => false,
        };
        if !is_play {
            proof {
                assert(self@ == spec_tick(old(self)@, now_ms, 0u64, 0int, 'A'));
                assert(is_letter('A'));
            }
            return ;
        }
        let goal = self.config.goal_distance;
        match find_first_winner(&self.players, goal) {
            Some(i) => {
                proof {
                    lemma_first_winner_is_least(self.players@, goal);
                }
                self.ui = UiState::Win { winner: i };
            },
            None => {},
        }
        let secs = self.timer.get_value();
        let finished = secs > self.config.countdown_from - 1;
        let eligible = finished && secs % self.config.change_frequency == 0;
        if eligible {
            if !self.change_mode {
                self.change_mode = true;
                let chance = assigner.next_below(CHANCE_SCALE);
                if chance < self.config.change_probability {
                    let len64 = self.players.len() as u64;
                    let target = assigner.next_below(len64);
                    let t = target as usize;
                    let mut p = self.players[t];
                    p.assign_random_key(assigner);
                    self.players[t] = p;
                    proof {
                        let m0 = old(self)@;
                        assert(self@.players == m0.players.update(
                            t as int,
                            Player { key: p.key, pos: m0.players[t as int].pos },
                        ));
                        assert(self@ == spec_tick(m0, now_ms, chance, t as int, p.key));
                        assert forall|j: int|
                            0 <= j < self@.players.len() implies (
                        #[trigger] self@.players[j]).wf() by {
                            if j != t {
                                assert(self@.players[j] == m0.players[j]);
                            }
                        }
                    }
                } else {
                    proof {
                        assert(self@ == spec_tick(old(self)@, now_ms, chance, 0int, 'A'));
                    }
                }
            } else {
                proof {
                    assert(self@ == spec_tick(old(self)@, now_ms, 0u64, 0int, 'A'));
                }
            }
        } else {
            self.change_mode = false;
            proof {
                assert(self@ == spec_tick(old(self)@, now_ms, 0u64, 0int, 'A'));
            }
        }
    }

    /// Creates `num` fresh players, each with a key drawn from `assigner`.
    fn init_players(&mut self, num: usize, assigner: &mut KeyAssigner)
        requires
            old(self).players@.len() == 0,
        ensures
            final(self).ui == old(self).ui,
            final(self).timer == old(self).timer,
            final(self).change_mode == old(self).change_mode,
            final(self).config == old(self).config,
            final(self).players@.len() == num,
            exists|ks: Seq<char>|
                {
                    &&& ks.len() == num
                    &&& (forall|i: int| 0 <= i < ks.len() ==> is_letter(#[trigger] ks[i]))
                    &&& final(self).players@ == spec_fresh_players(ks)
                },
            (*old(assigner)) is Scripted ==> ({
                let d = old(assigner).remaining();
                &&& *final(assigner) is Scripted
                &&& final(self).players@ == spec_fresh_players(scripted_keys(d, num as nat))
                &&& final(assigner).remaining() == spec_rest_n(d, num as nat)
            }),
            (*old(assigner)) is System ==> *final(assigner) == *old(assigner),
    {
        let ghost d0 = old(assigner).remaining();
        let ghost mut ks: Seq<char> = Seq::empty();
        let mut j: usize = 0;
        while j < num
            invariant
                j <= num,
                self.ui == old(self).ui,
                self.timer == old(self).timer,
                self.change_mode == old(self).change_mode,
                self.config == old(self).config,
                ks.len() == j,
                forall|i: int| 0 <= i < ks.len() ==> is_letter(#[trigger] ks[i]),
                self.players@ == spec_fresh_players(ks),
                (*old(assigner)) is Scripted ==> {
                    &&& *assigner is Scripted
                    &&& ks =~= scripted_keys(d0, j as nat)
                    &&& assigner.remaining() == spec_rest_n(d0, j as nat)
                },
                (*old(assigner)) is System ==> *assigner == *old(assigner),
            decreases num - j,
        {
            let p = Player::new(assigner);
            self.players.push(p);
            proof {
                ks = ks.push(p.key);
                assert(self.players@ =~= spec_fresh_players(ks));
                if (*old(assigner)) is Scripted {
                    assert(spec_rest_n(d0, (j + 1) as nat) == spec_rest(
                        spec_rest_n(d0, j as nat),
                    ));
                    assert(ks =~= scripted_keys(d0, (j + 1) as nat));
                }
            }
            j += 1;
        }
        proof {
            assert(self.players@ =~= spec_fresh_players(ks));
        }
    }

    /// Starts the round clock at `now_ms` and enters Play.
    fn start_game(&mut self, now_ms: u64)
        ensures
            final(self).ui is Play,
            final(self).timer == (Timer { started_ms: now_ms, elapsed_ms: 0 }),
            final(self).players@ == old(self).players@,
            final(self).change_mode == old(self).change_mode,
            final(self).config == old(self).config,
    {
        self.timer.start(now_ms);
        self.ui = UiState::Play;
    }

    /// Advances every player whose assigned key is `pressed`, unless the
    /// countdown is still running.
    fn move_players(&mut self, pressed: char)
        requires
            old(self).config.countdown_from >= 1,
            forall|i: int|
                0 <= i < old(self).players@.len() ==> (#[trigger] old(self).players@[i]).pos
                    < usize::MAX,
        ensures
            final(self).ui == old(self).ui,
            final(self).timer == old(self).timer,
            final(self).change_mode == old(self).change_mode,
            final(self).config == old(self).config,
            final(self).players@ == if countdown_finished_at(
                old(self).config,
                old(self).timer.spec_value(),
            ) {
                spec_move_players(old(self).players@, pressed)
            } else {
                old(self).players@
            },
    {
        let secs = self.timer.get_value();
        if !(secs > self.config.countdown_from - 1) {
            return ;
        }
        let n = self.players.len();
        let mut i: usize = 0;
        while i < n
            invariant
                i <= n,
                n == self.players@.len(),
                n == old(self).players@.len(),
                self.ui == old(self).ui,
                self.timer == old(self).timer,
                self.change_mode == old(self).change_mode,
                self.config == old(self).config,
                forall|j: int|
                    0 <= j < n ==> (#[trigger] old(self).players@[j]).pos < usize::MAX,
                forall|j: int|
                    0 <= j < i ==> #[trigger] self.players@[j] == spec_move_players(
                        old(self).players@,
                        pressed,
                    )[j],
                forall|j: int| i <= j < n ==> #[trigger] self.players@[j] == old(self).players@[j],
            decreases n - i,
        {
            if self.players[i].has_key_pressed(pressed) {
                let mut p = self.players[i];
                p.run();
                self.players[i] = p;
            }
            proof {
                assert(spec_move_players(old(self).players@, pressed)[i as int] == spec_moved(
                    old(self).players@[i as int],
                    pressed,
                ));
                assert(self.players@[i as int] == spec_moved(
                    old(self).players@[i as int],
                    pressed,
                ));
            }
            i += 1;
        }
        proof {
            assert(self.players@ =~= spec_move_players(old(self).players@, pressed));
        }
    }

    /// Resets every player to the start line with a fresh key, restarts the
    /// clock at `now_ms` and re-enters Play.
    fn restart_game(&mut self, now_ms: u64, assigner: &mut KeyAssigner)
        ensures
            final(self).ui is Play,
            final(self).timer == (Timer { started_ms: now_ms, elapsed_ms: 0 }),
            final(self).change_mode == old(self).change_mode,
            final(self).config == old(self).config,
            final(self).players@.len() == old(self).players@.len(),
            exists|ks: Seq<char>|
                {
                    &&& ks.len() == old(self).players@.len()
                    &&& (forall|i: int| 0 <= i < ks.len() ==> is_letter(#[trigger] ks[i]))
                    &&& final(self).players@ == spec_fresh_players(ks)
                },
            (*old(assigner)) is Scripted ==> ({
                let d = old(assigner).remaining();
                &&& *final(assigner) is Scripted
                &&& final(self).players@ == spec_fresh_players(
                    scripted_keys(d, old(self).players@.len()),
                )
                &&& final(assigner).remaining() == spec_rest_n(d, old(self).players@.len())
            }),
            (*old(assigner)) is System ==> *final(assigner) == *old(assigner),
    {
        let ghost d0 = old(assigner).remaining();
        let ghost mut ks: Seq<char> = Seq::empty();
        let n = self.players.len();
        let mut i: usize = 0;
        while i < n
            invariant
                i <= n,
                n == self.players@.len(),
                self.ui == old(self).ui,
                self.timer == old(self).timer,
                self.change_mode == old(self).change_mode,
                self.config == old(self).config,
                ks.len() == i,
                forall|j: int| 0 <= j < ks.len() ==> is_letter(#[trigger] ks[j]),
                forall|j: int|
                    0 <= j < i ==> #[trigger] self.players@[j] == (Player {
                        key: ks[j],
                        pos: 0usize,
                    }),
                forall|j: int| i <= j < n ==> #[trigger] self.players@[j] == old(self).players@[j],
                (*old(assigner)) is Scripted ==> {
                    &&& *assigner is Scripted
                    &&& ks =~= scripted_keys(d0, i as nat)
                    &&& assigner.remaining() == spec_rest_n(d0, i as nat)
                },
                (*old(assigner)) is System ==> *assigner == *old(assigner),
            decreases n - i,
        {
            let mut p = self.players[i];
            p.reset(assigner);
            self.players[i] = p;
            proof {
                ks = ks.push(p.key);
                if (*old(assigner)) is Scripted {
                    assert(spec_rest_n(d0, (i + 1) as nat) == spec_rest(
                        spec_rest_n(d0, i as nat),
                    ));
                    assert(ks =~= scripted_keys(d0, (i + 1) as nat));
                }
            }
            i += 1;
        }
        self.timer.start(now_ms);
        self.ui = UiState::Play;
        proof {
            assert(self.players@ =~= spec_fresh_players(ks));
        }
    }

    /// One key-down event at clock time `now_ms`. On Select a digit starts a
    /// round with that many players; in Play a fresh character press after
    /// the countdown advances the matching players; on Win a confirm key
    /// restarts the round. Everything else is ignored.
    ///
    /// The result is exactly `spec_key_down` of the old state for some
    /// admissible fresh keys; under a scripted assigner the keys are the
    /// script's own next draws.
    pub fn key_down(&mut self, event: KeyEvent, now_ms: u64, assigner: &mut KeyAssigner)
        requires
            old(self)@.wf(),
            forall|i: int|
                0 <= i < old(self)@.players.len() ==> (#[trigger] old(self)@.players[i]).pos
                    < usize::MAX,
        ensures
            final(self)@.wf(),
            exists|ks: Seq<char>|
                {
                    &&& ks.len() == key_down_keys_used(old(self)@, event)
                    &&& (forall|i: int| 0 <= i < ks.len() ==> is_letter(#[trigger] ks[i]))
                    &&& final(self)@ == spec_key_down(old(self)@, event, now_ms, ks)
                },
            (*old(assigner)) is Scripted ==> ({
                let d = old(assigner).remaining();
                let used = key_down_keys_used(old(self)@, event);
                &&& *final(assigner) is Scripted
                &&& final(self)@ == spec_key_down(
                    old(self)@,
                    event,
                    now_ms,
                    scripted_keys(d, used),
                )
                &&& final(assigner).remaining() == spec_rest_n(d, used)
            }),
            (*old(assigner)) is System ==> *final(assigner) == *old(assigner),
    {
        proof {
            assert(spec_rest_n(old(assigner).remaining(), 0) == old(assigner).remaining());
        }
        let ui = self.ui;
        match ui {
            UiState::Select => {
                let digit = match event.key {
                    Key::Character(c) => {
                        let cu = c as u32;
                        if 49 <= cu && cu <= 57 {
                            Some((cu - 48) as usize)
                        } else {
                            None
                        }
                    },
                    _ => None,
                };
                match digit {
                    Some(num) => {
                        self.init_players(num, assigner);
                        self.start_game(now_ms);
                        proof {
                            let ks = choose|ks: Seq<char>|
                                {
                                    &&& ks.len() == num
                                    &&& (forall|i: int|
                                        0 <= i < ks.len() ==> is_letter(#[trigger] ks[i]))
                                    &&& self.players@ == spec_fresh_players(ks)
                                };
                            assert(self@ == spec_key_down(old(self)@, event, now_ms, ks));
                        }
                    },
                    None => {
                        proof {
                            assert(self@ == spec_key_down(
                                old(self)@,
                                event,
                                now_ms,
                                Seq::<char>::empty(),
                            ));
                        }
                    },
                }
            },
            UiState::Play => {
                let acted = if !event.repeat {
                    match event.key {
                        Key::Character(c) => {
                            self.move_players(c);
                            true
                        },
                        _ => false,
                    }
                } else {
                    false
                };
                proof {
                    if !acted {
                        assert(self@ == old(self)@);
                    }
                    assert(self@ == spec_key_down(
                        old(self)@,
                        event,
                        now_ms,
                        Seq::<char>::empty(),
                    ));
                }
            },
            UiState::Win { .. } => {
                let confirm = match event.key {
                    Key::Space => true,
                    Key::Return => true,
                    _ => false,
                };
                if confirm {
                    self.restart_game(now_ms, assigner);
                    proof {
                        let ks = choose|ks: Seq<char>|
                            {
                                &&& ks.len() == old(self)@.players.len()
                                &&& (forall|i: int|
                                    0 <= i < ks.len() ==> is_letter(#[trigger] ks[i]))
                                &&& self.players@ == spec_fresh_players(ks)
                            };
                        assert(self@ == spec_key_down(old(self)@, event, now_ms, ks));
                    }
                } else {
                    proof {
                        assert(self@ == spec_key_down(
                            old(self)@,
                            event,
                            now_ms,
                            Seq::<char>::empty(),
                        ));
                    }
                }
            },
        }
    }

    /// The immutable view a renderer reads once per frame: the phase, the
    /// number still shown by the countdown (if it is running), every player's
    /// key and distance, the goal distance, and the winner's index on the
    /// win screen.
    pub fn snapshot(&self) -> (s: Snapshot)
        requires
            self@.wf(),
        ensures
            s.ui == self@.ui,
            s.players@ == self@.players,
            s.goal_distance == self@.config.goal_distance,
            s.winner == (match self@.ui {
                UiState::Win { winner } => Some(winner),
                _ => None::<usize>,
            }),
            s.countdown == (if self@.ui is Play && !countdown_finished_at(
                self@.config,
                self@.timer.spec_value(),
            ) {
                Some((self@.config.countdown_from - self@.timer.spec_value()) as u64)
            } else {
                None::<u64>
            }),
    {
        let mut players: Vec<Player> = Vec::new();
        let n = self.players.len();
        let mut i: usize = 0;
        proof {
            assert(players@ =~= self.players@.take(0));
        }
        while i < n
            invariant
                i <= n,
                n == self.players@.len(),
                players@ == self.players@.take(i as int),
            decreases n - i,
        {
            players.push(self.players[i]);
            proof {
                assert(players@ =~= self.players@.take(i + 1));
            }
            i += 1;
        }
        proof {
            assert(players@ =~= self.players@);
        }
        let countdown = match self.ui {
            UiState::Play => {
                let secs = self.timer.get_value();
                if !(secs > self.config.countdown_from - 1) {
                    Some(self.config.countdown_from - secs)
                } else {
                    None
                }
            },
            _ => None,
        };
        let winner = match self.ui {
            UiState::Win { winner } => Some(winner),
            _ => None,
        };
        Snapshot {
            ui: self.ui,
            countdown,
            players,
            goal_distance: self.config.goal_distance,
            winner,
        }
    }
}

/// What a renderer sees of one frame. It carries plain values only, so the
/// drawing side needs nothing of the engine.
pub struct Snapshot {
    /// The phase being shown.
    pub ui: UiState,
    /// The number the countdown display shows, while it is running.
    pub countdown: Option<u64>,
    /// Every player's key and distance, in player order.
    pub players: Vec<Player>,
    /// The distance a player must strictly exceed to win.
    pub goal_distance: usize,
    /// The winning player's index, on the win screen.
    pub winner: Option<usize>,
}

} // verus!



