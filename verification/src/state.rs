//! Values that live as long as the service does.

use vstd::prelude::*;
use crate::clock::{utc_today, CalendarDay};

verus! {

/// What every handler is given: the one configured secret.
#[derive(Clone, Debug, PartialEq, Eq)]
pub struct AppState {
    pub password: String,
}

/// A day's tally kept in memory: the wins counted and the day they belong to.
#[derive(Clone, Copy, Debug, PartialEq, Eq)]
pub struct GameState {
    pub wins_today: u32,
    pub last_reset_date: CalendarDay,
}

impl GameState {
    /// An empty tally for the current day of universal time.
    pub fn new() -> (state: GameState)
        ensures
            state.wins_today == 0,
            state.last_reset_date.is_valid(),
    {
        GameState { wins_today: 0, last_reset_date: utc_today() }
    }
}

impl Default for GameState {
    fn default() -> (state: GameState)
        ensures
            state.wins_today == 0,
            state.last_reset_date.is_valid(),
    {
        GameState::new()
    }
}

} // verus!
