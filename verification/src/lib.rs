//! A change-detecting flight announcer.
//!
//! On every cycle the job queries a flight-tracking provider for flights above
//! a threshold (widening the threshold until enough results arrive), ranks
//! them by altitude or ground speed, compares the winner against the leader
//! persisted from the last cycle, and only when the winner changed persists
//! the new leaders and publishes an announcement through an OAuth2-authorized
//! posting provider.
//!
//! This crate holds the verified core: response decoding, ranking, change
//! detection, the widening-search and authorization state machines, and
//! announcement formatting. Network and database I/O live outside.

use vstd::prelude::*;

pub mod aero_api;
pub mod bot_type;
pub mod checker;
pub mod errors;
pub mod flight;
pub mod json;
pub mod ranking;
pub mod session;
pub mod text;
pub mod utils;
pub mod x_api;

pub use aero_api::flights_from_document;
pub use aero_api::flights_from_response;
pub use aero_api::AeroApi;
pub use bot_type::BotType;
pub use json::Json;
pub use checker::detect_change;
pub use checker::initial_threshold;
pub use checker::order_of;
pub use checker::plan_cycle;
pub use checker::records_match;
pub use checker::search_step;
pub use checker::ChangePolicy;
pub use checker::CycleAction;
pub use checker::SearchStep;
pub use checker::WIDEN_STEP;
pub use errors::AuthorizationError;
pub use errors::CycleError;
pub use errors::DataSourceError;
pub use errors::PersistenceError;
pub use errors::PublishError;
pub use flight::Flight;
pub use flight::FlightData;
pub use ranking::rank_sort;
pub use ranking::top_ranked;
pub use session::AuthProvider;
pub use session::Session;
pub use session::SessionData;
pub use text::u64_string;
pub use utils::format_tweet;
pub use utils::kmh_hundredths;
pub use utils::meters_hundredths;
pub use utils::FormatOrder;
pub use x_api::authorize_decision;
pub use x_api::parse_callback_request;
pub use x_api::percent_decode;
pub use x_api::session_row;
pub use x_api::tweet_body;
pub use x_api::AuthDecision;
pub use x_api::XApi;

verus! {

/// How many top-ranked flights a cycle keeps and persists as leaders.
pub const RANKING_COUNT: usize = 3;

} // verus!
