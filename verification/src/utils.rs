use vstd::prelude::*;

use crate::flight::Flight;
use crate::flight::FlightData;
use crate::text::spec_fixed2;
use crate::text::spec_i64_digits;
use crate::text::fixed2_string;
use crate::text::i64_string;

verus! {

/// Which metric an announcement leads with: the altitude bot puts the
/// altitude line first, the groundspeed bot the speed line.
#[derive(Clone, Copy, Debug, PartialEq, Eq, Structural)]
pub enum FormatOrder {
    ALTITUDE,
    GROUNDSPEED,
}

/// Feet to hundredths of a meter at the fixed factor 0.3048, rounded half up
/// on the last rendered place.
pub open spec fn spec_meters_hundredths(feet: nat) -> nat {
    (feet * 3048 + 50) / 100
}

/// Knots to hundredths of a kilometer per hour at the fixed factor 1.852,
/// rounded half up on the last rendered place.
pub open spec fn spec_kmh_hundredths(knots: nat) -> nat {
    (knots * 1852 + 5) / 10
}

/// Converts feet to hundredths of a meter.
pub fn meters_hundredths(feet: u64) -> (r: u64)
    requires
        feet * 3048 + 50 <= u64::MAX,
    ensures
        r == spec_meters_hundredths(feet as nat),
{
    (feet * 3048 + 50) / 100
}

/// Converts knots to hundredths of a kilometer per hour.
pub fn kmh_hundredths(knots: u64) -> (r: u64)
    requires
        knots * 1852 + 5 <= u64::MAX,
    ensures
        r == spec_kmh_hundredths(knots as nat),
{
    (knots * 1852 + 5) / 10
}

/// The altitude line's value: flight level (hundreds of feet) rendered as
/// feet and meters, or `N/A` when the provider omitted the altitude.
pub open spec fn spec_alt_readout(alt: Option<i32>) -> Seq<char> {
    match alt {
        None => "N/A"@,
        Some(fl) => {
            let feet = fl * 100;
            let mh = spec_meters_hundredths((if feet < 0 { -feet } else { feet }) as nat);
            spec_i64_digits(feet) + "ft ("@ + (if feet < 0 { seq!['-'] } else { Seq::<char>::empty() })
                + spec_fixed2(mh) + "m)"@
        },
    }
}

/// The speed line's value: knots rendered as knots and kilometers per hour,
/// or `N/A` when the provider omitted the ground speed.
pub open spec fn spec_spd_readout(spd: Option<i32>) -> Seq<char> {
    match spd {
        None => "N/A"@,
        Some(kt) => {
            let kh = spec_kmh_hundredths((if kt < 0 { -kt as int } else { kt as int }) as nat);
            spec_i64_digits(kt as int) + "kts ("@ + (if kt < 0 { seq!['-'] } else { Seq::<char>::empty() })
                + spec_fixed2(kh) + "km/h)"@
        },
    }
}

/// An optional label, with `Unknown` standing in for an absent one.
pub open spec fn spec_opt_label(label: Option<Seq<char>>) -> Seq<char> {
    match label {
        Some(s) => s,
        None => "Unknown"@,
    }
}

/// The viewer link for a flight.
pub open spec fn spec_flight_link(ident: Seq<char>) -> Seq<char> {
    "https://www.flightaware.com/live/flight/"@ + ident
}

/// The full announcement text for a flight, one line per attribute, with the
/// category's own metric first and absent values spelled out rather than
/// omitted.
pub open spec fn spec_format_tweet(f: FlightData, order: FormatOrder) -> Seq<char> {
    match order {
        FormatOrder::ALTITUDE => "Current highest flight: "@ + f.ident + "\nAltitude: "@
            + spec_alt_readout(f.altitude) + "\nGroundspeed: "@ + spec_spd_readout(f.groundspeed)
            + "\nOrigin: "@ + spec_opt_label(f.origin) + "\nDestination: "@
            + spec_opt_label(f.destination) + "\n\nMore info:\n"@ + spec_flight_link(f.ident),
        FormatOrder::GROUNDSPEED => "Current fastest flight: "@ + f.ident + "\nGroundspeed: "@
            + spec_spd_readout(f.groundspeed) + "\nAltitude: "@ + spec_alt_readout(f.altitude)
            + "\nOrigin: "@ + spec_opt_label(f.origin) + "\nDestination: "@
            + spec_opt_label(f.destination) + "\n\nMore info:\n"@ + spec_flight_link(f.ident),
    }
}

/// Law (missing-field tolerance, rendering): an unknown metric or label is
/// spelled out as a placeholder; no line of the announcement is ever
/// omitted.
pub proof fn lemma_unknown_values_render_as_placeholders()
    ensures
        spec_alt_readout(None) == "N/A"@,
        spec_spd_readout(None) == "N/A"@,
        spec_opt_label(None) == "Unknown"@,
{
}

fn alt_readout(alt: Option<i32>) -> (s: String)
    ensures
        s@ == spec_alt_readout(alt),
{
    match alt {
        None => "N/A".to_owned(),
        Some(fl) => {
            let feet: i64 = (fl as i64) * 100;
            let mag: u64 = if feet < 0 {
                (-feet) as u64
            } else {
                feet as u64
            };
            let mh = meters_hundredths(mag);
            let mut s = i64_string(feet);
            s.append("ft (");
            if feet < 0 {
                s.append("-");
                proof {
                    reveal_strlit("-");
                    assert("-"@ =~= seq!['-']);
                }
            }
            s.append(fixed2_string(mh).as_str());
            s.append("m)");
            proof {
                assert(s@ =~= spec_alt_readout(alt));
            }
            s
        },
    }
}

fn spd_readout(spd: Option<i32>) -> (s: String)
    ensures
        s@ == spec_spd_readout(spd),
{
    match spd {
        None => "N/A".to_owned(),
        Some(kt) => {
            let mag: u64 = if kt < 0 {
                (-(kt as i64)) as u64
            } else {
                kt as u64
            };
            let kh = kmh_hundredths(mag);
            let mut s = i64_string(kt as i64);
            s.append("kts (");
            if kt < 0 {
                s.append("-");
                proof {
                    reveal_strlit("-");
                    assert("-"@ =~= seq!['-']);
                }
            }
            s.append(fixed2_string(kh).as_str());
            s.append("km/h)");
            proof {
                assert(s@ =~= spec_spd_readout(spd));
            }
            s
        },
    }
}

/// Formats the announcement for one flight. Pure: no side effects, and the
/// result is pinned exactly by [`spec_format_tweet`].
pub fn format_tweet(flight: &Flight, format_order: FormatOrder) -> (s: String)
    ensures
        s@ == spec_format_tweet(flight@, format_order),
{
    let alt = alt_readout(flight.altitude);
    let spd = spd_readout(flight.groundspeed);
    let origin: &str = match &flight.origin {
        Some(s) => s.as_str(),
        None => "Unknown",
    };
    let destination: &str = match &flight.destination {
        Some(s) => s.as_str(),
        None => "Unknown",
    };
    let mut s = match format_order {
        FormatOrder::ALTITUDE => {
            let mut s = String::from_str("Current highest flight: ");
            s.append(flight.ident.as_str());
            s.append("\nAltitude: ");
            s.append(alt.as_str());
            s.append("\nGroundspeed: ");
            s.append(spd.as_str());
            s
        },
        FormatOrder::GROUNDSPEED => {
            let mut s = String::from_str("Current fastest flight: ");
            s.append(flight.ident.as_str());
            s.append("\nGroundspeed: ");
            s.append(spd.as_str());
            s.append("\nAltitude: ");
            s.append(alt.as_str());
            s
        },
    };
    s.append("\nOrigin: ");
    s.append(origin);
    s.append("\nDestination: ");
    s.append(destination);
    s.append("\n\nMore info:\n");
    s.append("https://www.flightaware.com/live/flight/");
    s.append(flight.ident.as_str());
    proof {
        assert(s@ =~= spec_format_tweet(flight@, format_order));
    }
    s
}

} // verus!
