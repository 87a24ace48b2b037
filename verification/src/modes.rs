use vstd::prelude::*;

verus! {

/// The mode the player's clicks are in.
#[derive(Clone, Copy, PartialEq, Eq, Structural, Debug, Hash)]
pub enum PlayerState {
    NoMode,
    Assemblies,
    Workers,
    Jobs,
    Receivables,
    TradeDepot,
    Power,
}

impl Default for PlayerState {
    fn default() -> (s: Self)
        ensures
            s == PlayerState::NoMode,
    {
        PlayerState::NoMode
    }
}

/// The mode after the key of `mode` is pressed in `state`: the key leaves
/// its own mode and enters it from any other.
pub open spec fn toggled_mode(state: PlayerState, mode: PlayerState) -> PlayerState {
    if state == mode { PlayerState::NoMode } else { mode }
}

/// The mode change a mode key causes: none unless it was just pressed.
fn toggle_mode(pressed: bool, state: PlayerState, mode: PlayerState) -> (next: Option<PlayerState>)
    ensures
        next == if pressed { Some(toggled_mode(state, mode)) } else { None::<PlayerState> },
{
    if !pressed {
        return None;
    }
    if state == mode {
        Some(PlayerState::NoMode)
    } else {
        Some(mode)
    }
}

/// The assembly key enters or leaves the building mode.
pub fn input_toggle_assembly_mode(pressed: bool, state: PlayerState) -> (next: Option<PlayerState>)
    ensures
        next == if pressed { Some(toggled_mode(state, PlayerState::Assemblies)) } else { None::<PlayerState> },
{
    toggle_mode(pressed, state, PlayerState::Assemblies)
}

/// The hiring key enters or leaves the worker-placing mode.
pub fn input_toggle_worker_mode(pressed: bool, state: PlayerState) -> (next: Option<PlayerState>)
    ensures
        next == if pressed { Some(toggled_mode(state, PlayerState::Workers)) } else { None::<PlayerState> },
{
    toggle_mode(pressed, state, PlayerState::Workers)
}

/// The delivery-area key enters or leaves the mode that places one.
pub fn input_toggle_receivable_mode(pressed: bool, state: PlayerState) -> (next: Option<PlayerState>)
    ensures
        next == if pressed { Some(toggled_mode(state, PlayerState::Receivables)) } else { None::<PlayerState> },
{
    toggle_mode(pressed, state, PlayerState::Receivables)
}

/// The trade-depot key enters or leaves the mode that places one.
pub fn input_toggle_trade_depot_mode(pressed: bool, state: PlayerState) -> (next: Option<PlayerState>)
    ensures
        next == if pressed { Some(toggled_mode(state, PlayerState::TradeDepot)) } else { None::<PlayerState> },
{
    toggle_mode(pressed, state, PlayerState::TradeDepot)
}

/// The escape key leaves whatever mode the player is in.
pub fn input_reset_player_mode(pressed: bool) -> (next: Option<PlayerState>)
    ensures
        next == if pressed { Some(PlayerState::NoMode) } else { None::<PlayerState> },
{
    if pressed {
        Some(PlayerState::NoMode)
    } else {
        None
    }
}

/// Pressing a mode's key twice from any other mode comes back to no mode,
/// and pressing it in its own mode always leaves it.
pub proof fn lemma_toggle_twice(state: PlayerState, mode: PlayerState)
    requires
        mode != PlayerState::NoMode,
    ensures
        state != mode ==> toggled_mode(toggled_mode(state, mode), mode) == PlayerState::NoMode,
        toggled_mode(mode, mode) == PlayerState::NoMode,
        toggled_mode(state, mode) == PlayerState::NoMode || toggled_mode(state, mode) == mode,
{
}

} // verus!
