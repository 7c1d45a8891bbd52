use vstd::prelude::*;

use crate::bot_type::BotType;

verus! {

/// The mathematical value of a [`Flight`]: the same fields with every string
/// replaced by its character sequence. Contracts speak of this type.
pub struct FlightData {
    pub ident: Seq<char>,
    pub ranking: BotType,
    pub altitude: Option<i32>,
    pub groundspeed: Option<i32>,
    pub destination: Option<Seq<char>>,
    pub origin: Option<Seq<char>>,
}

/// One flight as a poll cycle sees it. The identifier is mandatory; every
/// other attribute is best-effort and may be absent when the provider omits
/// it (for example a flight without live position data).
#[derive(Debug)]
pub struct Flight {
    pub ident: String,
    pub ranking: BotType,
    pub altitude: Option<i32>,
    pub groundspeed: Option<i32>,
    pub destination: Option<String>,
    pub origin: Option<String>,
}

impl View for Flight {
    type V = FlightData;

    open spec fn view(&self) -> FlightData {
        FlightData {
            ident: self.ident@,
            ranking: self.ranking,
            altitude: self.altitude,
            groundspeed: self.groundspeed,
            destination: self.destination.deep_view(),
            origin: self.origin.deep_view(),
        }
    }
}

impl DeepView for Flight {
    type V = FlightData;

    open spec fn deep_view(&self) -> FlightData {
        self.view()
    }
}

impl Clone for Flight {
    fn clone(&self) -> (r: Self)
        ensures
            r@ == self@,
    {
        Flight {
            ident: self.ident.clone(),
            ranking: self.ranking,
            altitude: self.altitude,
            groundspeed: self.groundspeed,
            destination: self.destination.clone(),
            origin: self.origin.clone(),
        }
    }
}

/// The metric a category ranks by: altitude for the altitude bot, ground
/// speed for the groundspeed bot.
pub open spec fn spec_metric(f: FlightData, cat: BotType) -> Option<i32> {
    match cat {
        BotType::ALTITUDE => f.altitude,
        BotType::GROUNDSPEED => f.groundspeed,
    }
}

/// An unknown metric ranks below every known one, as the provider's absent
/// position data should never put a flight on top.
pub open spec fn spec_rank_key(f: FlightData, cat: BotType) -> int {
    match spec_metric(f, cat) {
        Some(v) => v as int,
        None => i32::MIN - 1,
    }
}

/// Executable twin of [`spec_rank_key`], widened so the sentinel for an
/// absent metric fits.
pub fn rank_key(f: &Flight, cat: BotType) -> (r: i64)
    ensures
        r == spec_rank_key(f@, cat),
{
    let m = match cat {
        BotType::ALTITUDE => f.altitude,
        BotType::GROUNDSPEED => f.groundspeed,
    };
    match m {
        Some(v) => v as i64,
        None => (i32::MIN as i64) - 1,
    }
}

} // verus!
