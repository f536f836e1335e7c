use vstd::prelude::*;

verus! {

/// Whether the game runs or stands paused.
#[derive(Clone, Copy, Debug, PartialEq, Eq, Structural, Hash, Default)]
pub enum MGameState {
    #[default]
    Running,
    Paused,
}

/// What a press of the pause key does: whether physics runs afterwards, and
/// the state that the game is sent to.
#[derive(Clone, Copy, Debug, PartialEq, Eq, Structural)]
pub struct PauseToggle {
    pub physics_on: bool,
    pub next_state: MGameState,
}

/// The state of the game once the pause flag is set to `is_paused`.
pub open spec fn spec_game_state(is_paused: bool) -> MGameState {
    if is_paused { MGameState::Paused } else { MGameState::Running }
}

/// The state that the other state leads to on a press of the pause key.
pub open spec fn spec_toggled(state: MGameState) -> MGameState {
    match state {
        MGameState::Running => MGameState::Paused,
        MGameState::Paused => MGameState::Running,
    }
}

/// The state that the game is sent to once the pause flag is set.
pub fn toggle_game_state(is_paused: bool) -> (s: MGameState)
    ensures
        s == spec_game_state(is_paused),
{
    if is_paused {
        MGameState::Paused
    } else {
        MGameState::Running
    }
}

/// What a press of the pause key does in `state`: a paused game runs again
/// with physics on; a running game pauses with physics off.
pub fn toggle_pause_game(state: MGameState) -> (t: PauseToggle)
    ensures
        t.next_state == spec_toggled(state),
        t.physics_on == (t.next_state == MGameState::Running),
{
    match state {
        MGameState::Paused => PauseToggle { physics_on: !false, next_state: toggle_game_state(!true) },
        MGameState::Running => PauseToggle { physics_on: !true, next_state: toggle_game_state(!false) },
    }
}

/// Two presses of the pause key bring the game back to the state it was in,
/// and each press changes the state.
pub proof fn lemma_pause_toggle_involution(state: MGameState)
    ensures
        spec_toggled(spec_toggled(state)) == state,
        spec_toggled(state) != state,
{
}

} // verus!
