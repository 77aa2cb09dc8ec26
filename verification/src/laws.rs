//! The laws the engine obeys, stated over the specification-level transition
//! functions and proved once and for all. Together with the exact `ensures`
//! of `GameEngine::tick` and `GameEngine::key_down`, which pin every call to
//! those functions, they hold of every run of the engine.

use vstd::prelude::*;
use crate::assigner::{key_of_draw, spec_draw, spec_rest, spec_rest_n, ALPHABET_SIZE};
use crate::config::CHANCE_SCALE;
use crate::engine::{
    countdown_finished_at, eligible_at, spec_key_down, spec_tick, EngineModel, UiState,
};
use crate::events::{is_confirm, Key, KeyEvent};
use crate::player::Player;
use crate::timer::Timer;

verus! {

/// Ticks and key events are deterministic given the state and the raw draws:
/// two engines in the same state, fed the same scripted draw sequence and the
/// same inputs, end in the same state. The scripted clauses of `tick` and
/// `key_down` give each outcome as exactly this function of state and draws.
pub proof fn lemma_scripted_runs_are_reproducible(
    m1: EngineModel,
    m2: EngineModel,
    d1: Seq<u64>,
    d2: Seq<u64>,
    event: KeyEvent,
    now_ms: u64,
)
    requires
        m1 == m2,
        d1 == d2,
    ensures
        spec_tick(
            m1,
            now_ms,
            spec_draw(d1, CHANCE_SCALE),
            spec_draw(spec_rest(d1), m1.players.len() as u64) as int,
            key_of_draw(spec_draw(spec_rest_n(d1, 2), ALPHABET_SIZE)),
        ) == spec_tick(
            m2,
            now_ms,
            spec_draw(d2, CHANCE_SCALE),
            spec_draw(spec_rest(d2), m2.players.len() as u64) as int,
            key_of_draw(spec_draw(spec_rest_n(d2, 2), ALPHABET_SIZE)),
        ),
        forall|used: nat|
            spec_key_down(m1, event, now_ms, crate::assigner::scripted_keys(d1, used))
                == spec_key_down(m2, event, now_ms, crate::assigner::scripted_keys(d2, used)),
{
}

/// A tick never moves anybody: player count and every distance are exactly
/// preserved; only keys, the phase, the latch and the timer may change.
pub proof fn lemma_tick_preserves_distances(
    m: EngineModel,
    now_ms: u64,
    chance: u64,
    target: int,
    new_key: char,
)
    requires
        m.ui is Play ==> m.players.len() > 0,
        m.players.len() > 0 ==> 0 <= target < m.players.len(),
    ensures
        spec_tick(m, now_ms, chance, target, new_key).players.len() == m.players.len(),
        forall|j: int|
            0 <= j < m.players.len() ==> (#[trigger] spec_tick(
                m,
                now_ms,
                chance,
                target,
                new_key,
            ).players[j]).pos == m.players[j].pos,
{
}

/// In a tick from Play, the recorded winner is the first player strictly
/// beyond the goal line: ties within one tick go to the lowest index, and
/// with nobody beyond the line the round goes on.
pub proof fn lemma_win_check_takes_lowest_index(
    m: EngineModel,
    now_ms: u64,
    chance: u64,
    target: int,
    new_key: char,
)
    requires
        m.ui is Play,
        m.players.len() <= usize::MAX,
    ensures
        match spec_tick(m, now_ms, chance, target, new_key).ui {
            UiState::Win { winner } => {
                &&& winner < m.players.len()
                &&& m.players[winner as int].pos > m.config.goal_distance
                &&& forall|j: int|
                    0 <= j < winner ==> #[trigger] m.players[j].pos <= m.config.goal_distance
            },
            UiState::Play => forall|j: int|
                0 <= j < m.players.len() ==> #[trigger] m.players[j].pos
                    <= m.config.goal_distance,
            UiState::Select => false,
        },
{
    crate::engine::lemma_first_winner_is_least(m.players, m.config.goal_distance);
}

/// The countdown gates input: while it runs, a key press changes nothing at
/// all; once it is over, a fresh press advances exactly the players holding
/// the pressed key, each by exactly one cell.
pub proof fn lemma_countdown_gates_input(
    m: EngineModel,
    event: KeyEvent,
    now_ms: u64,
    new_keys: Seq<char>,
    c: char,
)
    requires
        m.ui is Play,
        !event.repeat,
        event.key == Key::Character(c),
        forall|j: int| 0 <= j < m.players.len() ==> (#[trigger] m.players[j]).pos < usize::MAX,
    ensures
        !countdown_finished_at(m.config, m.timer.spec_value()) ==> spec_key_down(
            m,
            event,
            now_ms,
            new_keys,
        ) == m,
        countdown_finished_at(m.config, m.timer.spec_value()) ==> forall|j: int|
            0 <= j < m.players.len() ==> (#[trigger] spec_key_down(
                m,
                event,
                now_ms,
                new_keys,
            ).players[j]).pos == if m.players[j].key == c {
                m.players[j].pos + 1
            } else {
                m.players[j].pos as int
            },
{
}

/// During Play, distances only ever grow: no key event moves a player
/// backwards, and (`lemma_tick_preserves_distances`) no tick moves anybody
/// at all, so a distance is monotone until a restart resets it.
pub proof fn lemma_play_distances_never_shrink(
    m: EngineModel,
    event: KeyEvent,
    now_ms: u64,
    new_keys: Seq<char>,
)
    requires
        m.ui is Play,
        forall|j: int| 0 <= j < m.players.len() ==> (#[trigger] m.players[j]).pos < usize::MAX,
    ensures
        spec_key_down(m, event, now_ms, new_keys).players.len() == m.players.len(),
        forall|j: int|
            0 <= j < m.players.len() ==> (#[trigger] spec_key_down(
                m,
                event,
                now_ms,
                new_keys,
            ).players[j]).pos >= m.players[j].pos,
{
}

/// An auto-repeat key event during Play is filtered out entirely: no
/// player's distance, key, or anything else changes.
pub proof fn lemma_repeat_events_are_ignored(
    m: EngineModel,
    event: KeyEvent,
    now_ms: u64,
    new_keys: Seq<char>,
)
    requires
        m.ui is Play,
        event.repeat,
    ensures
        spec_key_down(m, event, now_ms, new_keys) == m,
{
}

/// A confirm key on the win screen restarts the round: as many players as
/// before, all back at the start line, the winner gone, and the clock
/// restarted at zero elapsed time.
pub proof fn lemma_restart_resets_round(
    m: EngineModel,
    event: KeyEvent,
    now_ms: u64,
    new_keys: Seq<char>,
)
    requires
        m.ui is Win,
        is_confirm(event.key),
        new_keys.len() == m.players.len(),
    ensures
        ({
            let r = spec_key_down(m, event, now_ms, new_keys);
            &&& r.ui is Play
            &&& r.players.len() == m.players.len()
            &&& forall|j: int| 0 <= j < r.players.len() ==> (#[trigger] r.players[j]).pos == 0
            &&& r.timer == (Timer { started_ms: now_ms, elapsed_ms: 0 })
            &&& r.timer.spec_value() == 0
        }),
{
}

/// With a change probability of zero, the reassignment policy never fires:
/// no tick ever changes any player.
pub proof fn lemma_zero_probability_never_reassigns(
    m: EngineModel,
    now_ms: u64,
    chance: u64,
    target: int,
    new_key: char,
)
    requires
        m.config.change_probability == 0,
    ensures
        spec_tick(m, now_ms, chance, target, new_key).players == m.players,
{
}

/// With a change probability of the full scale, the policy fires on every
/// first tick of an eligible window: exactly the target player's key is
/// redrawn, everyone else is untouched, and the latch rises.
pub proof fn lemma_full_probability_always_reassigns(
    m: EngineModel,
    now_ms: u64,
    chance: u64,
    target: int,
    new_key: char,
)
    requires
        m.config.change_probability == CHANCE_SCALE,
        chance < CHANCE_SCALE,
        m.ui is Play,
        eligible_at(m.config, m.timer.spec_updated(now_ms).spec_value()),
        !m.change_mode,
        0 <= target < m.players.len(),
    ensures
        ({
            let r = spec_tick(m, now_ms, chance, target, new_key);
            &&& r.players == m.players.update(
                target,
                Player { key: new_key, pos: m.players[target].pos },
            )
            &&& r.players[target].key == new_key
            &&& forall|j: int|
                0 <= j < m.players.len() && j != target ==> r.players[j] == m.players[j]
            &&& r.change_mode
        }),
{
}

} // verus!

