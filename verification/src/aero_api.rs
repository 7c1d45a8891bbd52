use vstd::prelude::*;

use serde_json::Value;

use crate::bot_type::BotType;
use crate::errors::DataSourceError;
use crate::flight::Flight;
use crate::flight::FlightData;
use crate::json::json_as_array;
use crate::json::json_as_i64;
use crate::json::json_as_str;
use crate::json::json_get;
use crate::json::json_of;
use crate::json::parse_json;
use crate::json::spec_json_parsed;
use crate::json::spec_json_parses;
use crate::json::Json;
use crate::text::spec_u64_digits;
use crate::text::str_has_prefix;
use crate::text::u64_string;

verus! {

/// The label built for an origin or destination object: `name, city [code]`,
/// present only when all three fields are present strings.
pub open spec fn spec_place_label(j: Json) -> Option<Seq<char>> {
    match j {
        Json::Obj(m) => {
            if m.contains_key("name"@) && m["name"@] is Str && m.contains_key("city"@)
                && m["city"@] is Str && m.contains_key("code_icao"@) && m["code_icao"@] is Str {
                Some(
                    m["name"@]->Str_0 + ", "@ + m["city"@]->Str_0 + " ["@ + m["code_icao"@]->Str_0
                        + "]"@,
                )
            } else {
                None
            }
        },
        _ => None,
    }
}

/// The place label under `key` of an entity, if any.
pub open spec fn spec_opt_place(m: Map<Seq<char>, Json>, key: Seq<char>) -> Option<Seq<char>> {
    if m.contains_key(key) {
        spec_place_label(m[key])
    } else {
        None
    }
}

/// The metric under `key` of an entity's live position: present only when
/// the position object and the field are there and the field is an integer
/// that fits an `i32`. Anything else counts as unknown, never as an error.
pub open spec fn spec_position_metric(m: Map<Seq<char>, Json>, key: Seq<char>) -> Option<i32> {
    if m.contains_key("last_position"@) {
        match m["last_position"@] {
            Json::Obj(p) => {
                if p.contains_key(key) {
                    match p[key] {
                        Json::IntNum(n) => {
                            if i32::MIN <= n <= i32::MAX {
                                Some(n as i32)
                            } else {
                                None
                            }
                        },
                        _ => None,
                    }
                } else {
                    None
                }
            },
            _ => None,
        }
    } else {
        None
    }
}

/// The flight one entity record yields. The identifier is mandatory: an
/// entity that is not an object, or lacks a string `ident`, yields nothing
/// and is dropped. Every other field is best-effort.
pub open spec fn spec_entity_flight(j: Json, cat: BotType) -> Option<FlightData> {
    match j {
        Json::Obj(m) => {
            if m.contains_key("ident"@) && m["ident"@] is Str {
                Some(
                    FlightData {
                        ident: m["ident"@]->Str_0,
                        ranking: cat,
                        altitude: spec_position_metric(m, "altitude"@),
                        groundspeed: spec_position_metric(m, "groundspeed"@),
                        destination: spec_opt_place(m, "destination"@),
                        origin: spec_opt_place(m, "origin"@),
                    },
                )
            } else {
                None
            }
        },
        _ => None,
    }
}

/// Whether an identifier starts with one of the excluded prefixes.
pub open spec fn spec_excluded(ident: Seq<char>, prefixes: Seq<Seq<char>>) -> bool {
    exists|k: int| 0 <= k < prefixes.len() && prefixes[k].is_prefix_of(ident)
}

/// The flights of an entity array, in order: entities without an identifier
/// are dropped silently, and so are those whose identifier carries an
/// excluded prefix.
pub open spec fn spec_flight_list(
    elems: Seq<Json>,
    cat: BotType,
    prefixes: Seq<Seq<char>>,
) -> Seq<FlightData>
    decreases elems.len(),
{
    if elems.len() == 0 {
        Seq::<FlightData>::empty()
    } else {
        let init = spec_flight_list(elems.drop_last(), cat, prefixes);
        match spec_entity_flight(elems.last(), cat) {
            Some(f) => {
                if !spec_excluded(f.ident, prefixes) {
                    init.push(f)
                } else {
                    init
                }
            },
            None => init,
        }
    }
}

/// What decoding a search response document yields. A document without a
/// `flights` collection — including one that is no object at all — stands
/// for "no matches" and yields the empty sequence; a `flights` field that is
/// not an array is a malformed response and surfaces as an error.
pub open spec fn spec_extract_flights(
    doc: Json,
    cat: BotType,
    prefixes: Seq<Seq<char>>,
) -> Result<Seq<FlightData>, DataSourceError> {
    match doc {
        Json::Obj(m) => {
            if m.contains_key("flights"@) {
                match m["flights"@] {
                    Json::Arr(elems) => Ok(spec_flight_list(elems, cat, prefixes)),
                    _ => Err(DataSourceError::Malformed),
                }
            } else {
                Ok(Seq::<FlightData>::empty())
            }
        },
        _ => Ok(Seq::<FlightData>::empty()),
    }
}

/// Law (missing-field tolerance): an entity that carries an identifier is
/// decoded and kept even when its position and route are absent entirely;
/// the absent attributes come out unknown instead of dropping the entity.
pub proof fn lemma_missing_fields_tolerated(m: Map<Seq<char>, Json>, cat: BotType)
    requires
        m.contains_key("ident"@),
        m["ident"@] is Str,
        !m.contains_key("last_position"@),
        !m.contains_key("origin"@),
        !m.contains_key("destination"@),
    ensures
        spec_entity_flight(Json::Obj(m), cat) == Some(
            FlightData {
                ident: m["ident"@]->Str_0,
                ranking: cat,
                altitude: None,
                groundspeed: None,
                destination: None,
                origin: None,
            },
        ),
{
}

/// Law (malformed identifier): an entity without a string identifier yields
/// no flight at all.
pub proof fn lemma_missing_identifier_yields_nothing(j: Json, cat: BotType)
    requires
        !(j matches Json::Obj(m) && m.contains_key("ident"@) && m["ident"@] is Str),
    ensures
        spec_entity_flight(j, cat) is None,
{
}

/// Law (malformed identifier, continued): an entity that yields no flight is
/// excluded from the decoded list without disturbing the rest of it.
pub proof fn lemma_dropped_entity_leaves_list(
    elems: Seq<Json>,
    e: Json,
    cat: BotType,
    prefixes: Seq<Seq<char>>,
)
    requires
        spec_entity_flight(e, cat) is None,
    ensures
        spec_flight_list(elems.push(e), cat, prefixes) == spec_flight_list(elems, cat, prefixes),
{
    assert(elems.push(e).drop_last() =~= elems);
}

fn position_metric(elem: &Value, key: &str) -> (r: Option<i32>)
    requires
        json_of(*elem) is Obj,
    ensures
        r == spec_position_metric(json_of(*elem)->Obj_0, key@),
{
    let pos = match json_get(elem, "last_position") {
        Some(p) => p,
        None => {
            return None;
        },
    };
    let metric_v = match json_get(pos, key) {
        Some(x) => x,
        None => {
            return None;
        },
    };
    match json_as_i64(metric_v) {
        Some(n) => {
            if i32::MIN as i64 <= n && n <= i32::MAX as i64 {
                Some(n as i32)
            } else {
                None
            }
        },
        None => None,
    }
}

fn place_label_opt(elem: &Value, key: &str) -> (r: Option<String>)
    requires
        json_of(*elem) is Obj,
    ensures
        r.deep_view() == spec_opt_place(json_of(*elem)->Obj_0, key@),
{
    let place = match json_get(elem, key) {
        Some(p) => p,
        None => {
            return None;
        },
    };
    let name = match json_get(place, "name") {
        Some(x) => x,
        None => {
            return None;
        },
    };
    let name = match json_as_str(name) {
        Some(s) => s,
        None => {
            return None;
        },
    };
    let city = match json_get(place, "city") {
        Some(x) => x,
        None => {
            return None;
        },
    };
    let city = match json_as_str(city) {
        Some(s) => s,
        None => {
            return None;
        },
    };
    let code = match json_get(place, "code_icao") {
        Some(x) => x,
        None => {
            return None;
        },
    };
    let code = match json_as_str(code) {
        Some(s) => s,
        None => {
            return None;
        },
    };
    let mut label = name.to_owned();
    label.append(", ");
    label.append(city);
    label.append(" [");
    label.append(code);
    label.append("]");
    proof {
        assert(label@ =~= spec_opt_place(json_of(*elem)->Obj_0, key@).unwrap());
    }
    Some(label)
}

/// Decodes one entity record, best-effort for everything but the mandatory
/// identifier.
fn entity_flight(elem: &Value, cat: BotType) -> (r: Option<Flight>)
    ensures
        match r {
            Some(f) => spec_entity_flight(json_of(*elem), cat) == Some(f@),
            None => spec_entity_flight(json_of(*elem), cat) is None,
        },
{
    let ident_v = match json_get(elem, "ident") {
        Some(x) => x,
        None => {
            return None;
        },
    };
    let ident_s = match json_as_str(ident_v) {
        Some(s) => s,
        None => {
            return None;
        },
    };
    let altitude = position_metric(elem, "altitude");
    let groundspeed = position_metric(elem, "groundspeed");
    let destination = place_label_opt(elem, "destination");
    let origin = place_label_opt(elem, "origin");
    Some(
        Flight {
            ident: ident_s.to_owned(),
            ranking: cat,
            altitude,
            groundspeed,
            destination,
            origin,
        },
    )
}

fn has_excluded_prefix(ident: &String, exclude: &Vec<String>) -> (r: bool)
    ensures
        r == spec_excluded(ident@, exclude.deep_view()),
{
    let mut k: usize = 0;
    while k < exclude.len()
        invariant
            k <= exclude@.len(),
            forall|j: int| 0 <= j < k ==> !exclude.deep_view()[j].is_prefix_of(ident@),
        decreases exclude@.len() - k,
    {
        if str_has_prefix(ident.as_str(), exclude[k].as_str()) {
            proof {
                assert(exclude.deep_view()[k as int].is_prefix_of(ident@));
            }
            return true;
        }
        k = k + 1;
    }
    false
}

/// Decodes a whole search response document into flights for one category.
pub fn flights_from_document(v: &Value, cat: BotType, exclude: &Vec<String>) -> (r: Result<
    Vec<Flight>,
    DataSourceError,
>)
    ensures
        ({
            let s = spec_extract_flights(json_of(*v), cat, exclude.deep_view());
            match r {
                Ok(fs) => s == Ok::<_, DataSourceError>(fs.deep_view()),
                Err(e) => s == Err::<Seq<FlightData>, _>(e),
            }
        }),
{
    let flights_v = match json_get(v, "flights") {
        Some(x) => x,
        None => {
            let empty: Vec<Flight> = Vec::new();
            proof {
                assert(empty.deep_view() =~= Seq::<FlightData>::empty());
            }
            return Ok(empty);
        },
    };
    let arr = match json_as_array(flights_v) {
        Some(a) => a,
        None => {
            return Err(DataSourceError::Malformed);
        },
    };
    let ghost elems = arr@.map_values(|x: Value| json_of(x));
    let mut out: Vec<Flight> = Vec::new();
    let mut i: usize = 0;
    proof {
        assert(elems.take(0) =~= Seq::<Json>::empty());
    }
    while i < arr.len()
        invariant
            i <= arr@.len(),
            elems == arr@.map_values(|x: Value| json_of(x)),
            out.deep_view() == spec_flight_list(elems.take(i as int), cat, exclude.deep_view()),
        decreases arr@.len() - i,
    {
        let elem = &arr[i];
        proof {
            assert(elems[i as int] == json_of(arr@[i as int]));
        }
        let ghost before = out.deep_view();
        match entity_flight(elem, cat) {
            Some(f) => {
                if !has_excluded_prefix(&f.ident, exclude) {
                    out.push(f);
                }
            },
            None => {},
        }
        proof {
            let t = elems.take(i as int + 1);
            assert(t.drop_last() =~= elems.take(i as int));
            assert(t.last() == elems[i as int]);
            assert(out.deep_view() =~= spec_flight_list(t, cat, exclude.deep_view()));
        }
        i = i + 1;
    }
    proof {
        assert(elems.take(arr@.len() as int) =~= elems);
    }
    Ok(out)
}

/// Decodes one search response body. A body that parses as JSON yields
/// exactly what [`spec_extract_flights`] says of its document; a body that
/// is no JSON document yields exactly the malformed-response error.
pub fn flights_from_response(body: &str, cat: BotType, exclude: &Vec<String>) -> (r: Result<
    Vec<Flight>,
    DataSourceError,
>)
    ensures
        spec_json_parses(body@) ==> ({
            let s = spec_extract_flights(spec_json_parsed(body@), cat, exclude.deep_view());
            match r {
                Ok(fs) => s == Ok::<_, DataSourceError>(fs.deep_view()),
                Err(e) => s == Err::<Seq<FlightData>, _>(e),
            }
        }),
        !spec_json_parses(body@) ==> r == Err::<Vec<Flight>, DataSourceError>(
            DataSourceError::Malformed,
        ),
{
    let doc = match parse_json(body) {
        Ok(v) => v,
        Err(_) => {
            return Err(DataSourceError::Malformed);
        },
    };
    flights_from_document(&doc, cat, exclude)
}

/// The flight-search data source: its API base and key. The network call
/// itself lives outside; this type pins down the query each call must make,
/// and the decoding of what comes back.
#[derive(Debug)]
pub struct AeroApi {
    pub url: String,
    pub api_key: String,
}

impl AeroApi {
    /// A client for the fixed API base with the given key.
    pub fn new(api_key: String) -> (r: Self)
        ensures
            r.url@ == "https://aeroapi.flightaware.com/aeroapi/"@,
            r.api_key == api_key,
    {
        AeroApi { url: String::from_str("https://aeroapi.flightaware.com/aeroapi/"), api_key }
    }

    /// The query URL for flights above a flight level.
    pub fn search_url_above_fl(&self, fl: u32) -> (u: String)
        ensures
            u@ == self.url@ + "/flights/search?query=-aboveAltitude "@ + spec_u64_digits(
                fl as nat,
            ),
    {
        let mut u = self.url.clone();
        u.append("/flights/search?query=-aboveAltitude ");
        u.append(u64_string(fl as u64).as_str());
        u
    }

    /// The query URL for flights above a ground speed.
    pub fn search_url_above_gspd(&self, gspd: u32) -> (u: String)
        ensures
            u@ == self.url@ + "/flights/search?query=-aboveGroundspeed "@ + spec_u64_digits(
                gspd as nat,
            ),
    {
        let mut u = self.url.clone();
        u.append("/flights/search?query=-aboveGroundspeed ");
        u.append(u64_string(gspd as u64).as_str());
        u
    }
}

} // verus!
