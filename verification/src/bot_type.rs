use vstd::prelude::*;

verus! {

/// A ranking dimension. Each bot ranks flights by one metric and keeps its
/// own leaders, its own posting session and its own schedule.
#[derive(Clone, Copy, Debug, PartialEq, Eq, Structural)]
pub enum BotType {
    ALTITUDE,
    GROUNDSPEED,
}

} // verus!
