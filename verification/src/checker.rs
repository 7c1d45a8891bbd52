use vstd::prelude::*;

use crate::bot_type::BotType;
use crate::errors::CycleError;
use crate::flight::Flight;
use crate::flight::FlightData;
use crate::ranking::rank_sort;
use crate::ranking::spec_rank_sort;
use crate::ranking::spec_sorted_by_rank;
use crate::ranking::spec_top_ranked;
use crate::ranking::top_ranked;
use crate::ranking::lemma_rank_sort_of_sorted;
use crate::ranking::lemma_rank_sort_permutes;
use crate::ranking::lemma_rank_sort_sorted;
use crate::utils::format_tweet;
use crate::utils::spec_format_tweet;
use crate::utils::FormatOrder;
use crate::RANKING_COUNT;

verus! {

/// How much the search threshold is lowered between two queries of a
/// widening search.
pub const WIDEN_STEP: u32 = 10;

/// The threshold a category's widening search starts from.
pub open spec fn spec_initial_threshold(cat: BotType) -> u32 {
    match cat {
        BotType::ALTITUDE => 450,
        BotType::GROUNDSPEED => 650,
    }
}

/// Executable twin of [`spec_initial_threshold`].
pub fn initial_threshold(cat: BotType) -> (r: u32)
    ensures
        r == spec_initial_threshold(cat),
{
    match cat {
        BotType::ALTITUDE => 450,
        BotType::GROUNDSPEED => 650,
    }
}

/// The line an announcement leads with follows the category.
pub open spec fn spec_order_of(cat: BotType) -> FormatOrder {
    match cat {
        BotType::ALTITUDE => FormatOrder::ALTITUDE,
        BotType::GROUNDSPEED => FormatOrder::GROUNDSPEED,
    }
}

/// Executable twin of [`spec_order_of`].
pub fn order_of(cat: BotType) -> (r: FormatOrder)
    ensures
        r == spec_order_of(cat),
{
    match cat {
        BotType::ALTITUDE => FormatOrder::ALTITUDE,
        BotType::GROUNDSPEED => FormatOrder::GROUNDSPEED,
    }
}

/// What counts as "the same winner" between two cycles. This is a deliberate
/// policy choice, made explicit here rather than buried in a comparison:
/// comparing by identifier ignores transient gaps in the optional fields,
/// while comparing full records re-announces on any field difference.
#[derive(Clone, Copy, Debug, PartialEq, Eq, Structural)]
pub enum ChangePolicy {
    /// The identifier is the stable key; a momentarily missing destination
    /// or a shifted metric never re-announces the same winner. The default.
    ByIdentifier,
    /// The whole record must match; any field difference counts as a
    /// change.
    ByFullRecord,
}

/// Whether two winner records count as the same under a policy.
pub open spec fn spec_records_match(policy: ChangePolicy, a: FlightData, b: FlightData) -> bool {
    match policy {
        ChangePolicy::ByIdentifier => a.ident == b.ident,
        ChangePolicy::ByFullRecord => a == b,
    }
}

fn opt_str_eq(a: &Option<String>, b: &Option<String>) -> (r: bool)
    ensures
        r == (a.deep_view() == b.deep_view()),
{
    match a {
        Some(x) => match b {
            Some(y) => *x == *y,
            None => false,
        },
        None => b.is_none(),
    }
}

/// Compares two winner records under a policy.
pub fn records_match(policy: ChangePolicy, a: &Flight, b: &Flight) -> (r: bool)
    ensures
        r == spec_records_match(policy, a@, b@),
{
    match policy {
        ChangePolicy::ByIdentifier => a.ident == b.ident,
        ChangePolicy::ByFullRecord => a.ident == b.ident && a.ranking == b.ranking && a.altitude
            == b.altitude && a.groundspeed == b.groundspeed && opt_str_eq(
            &a.destination,
            &b.destination,
        ) && opt_str_eq(&a.origin, &b.origin),
    }
}

/// Whether the winner changed against the persisted leaders: an empty leader
/// set counts as changed, and otherwise the current winner is held against
/// the top persisted record under the chosen policy.
pub open spec fn spec_changed(
    policy: ChangePolicy,
    persisted: Seq<FlightData>,
    top: FlightData,
    cat: BotType,
) -> bool {
    persisted.len() == 0 || !spec_records_match(
        policy,
        spec_rank_sort(persisted, cat).last(),
        top,
    )
}

/// Compares the current winner against the persisted leader set.
pub fn detect_change(policy: ChangePolicy, persisted: Vec<Flight>, top: &Flight, cat: BotType) -> (r:
    bool)
    ensures
        r == spec_changed(policy, persisted.deep_view(), top@, cat),
{
    let ghost p = persisted.deep_view();
    if persisted.len() == 0 {
        return true;
    }
    let sorted = rank_sort(persisted, cat);
    proof {
        lemma_rank_sort_permutes(p, cat);
    }
    let db_top = &sorted[sorted.len() - 1];
    proof {
        assert(db_top@ == sorted.deep_view().last());
    }
    !records_match(policy, db_top, top)
}

/// What one poll cycle decides once the search results and the persisted
/// leaders are in hand.
#[derive(Debug)]
pub enum CycleAction {
    /// The top identifier matches the persisted leader: no write, no
    /// publish.
    Unchanged,
    /// The winner changed: replace the category's leader rows with
    /// `leaders` (ascending, winner last), then — only after the replacement
    /// committed — post `message`.
    Announce { leaders: Vec<Flight>, message: String },
}

/// Decides a full cycle: rank the fetched flights, keep the top
/// [`RANKING_COUNT`], hold the winner against the persisted leaders under
/// the chosen policy, and either end quietly or hand back the new leader
/// set and the announcement to post.
pub fn plan_cycle(
    cat: BotType,
    policy: ChangePolicy,
    fetched: Vec<Flight>,
    persisted: Vec<Flight>,
) -> (r: Result<CycleAction, CycleError>)
    ensures
        fetched.deep_view().len() == 0 ==> r == Err::<CycleAction, CycleError>(
            CycleError::InsufficientData,
        ),
        fetched.deep_view().len() > 0 && !spec_changed(
            policy,
            persisted.deep_view(),
            spec_rank_sort(fetched.deep_view(), cat).last(),
            cat,
        ) ==> r == Ok::<CycleAction, CycleError>(CycleAction::Unchanged),
        fetched.deep_view().len() > 0 && spec_changed(
            policy,
            persisted.deep_view(),
            spec_rank_sort(fetched.deep_view(), cat).last(),
            cat,
        ) ==> (r matches Ok(CycleAction::Announce { leaders, message })
            && leaders.deep_view() == spec_top_ranked(
            fetched.deep_view(),
            cat,
            RANKING_COUNT as nat,
        ) && message@ == spec_format_tweet(
            spec_rank_sort(fetched.deep_view(), cat).last(),
            spec_order_of(cat),
        )),
{
    let ghost f = fetched.deep_view();
    if fetched.len() == 0 {
        return Err(CycleError::InsufficientData);
    }
    let leaders = top_ranked(fetched, cat, RANKING_COUNT);
    proof {
        lemma_rank_sort_permutes(f, cat);
        if spec_rank_sort(f, cat).len() > RANKING_COUNT {
            assert(leaders.deep_view().last() == spec_rank_sort(f, cat).last());
        }
    }
    let top = leaders[leaders.len() - 1].clone();
    proof {
        assert(top@ == leaders.deep_view().last());
        assert(top@ == spec_rank_sort(f, cat).last());
    }
    if !detect_change(policy, persisted, &top, cat) {
        Ok(CycleAction::Unchanged)
    } else {
        let message = format_tweet(&top, order_of(cat));
        Ok(CycleAction::Announce { leaders, message })
    }
}

/// What the widening search does after one query: keep the results if they
/// are enough, widen and query again while the threshold allows, and
/// otherwise give up with an insufficient-data outcome.
#[derive(Debug)]
pub enum SearchStep {
    /// Enough results: rank these.
    Done(Vec<Flight>),
    /// Too few results: query again with this lower threshold.
    Widen(u32),
    /// Too few results and no room to widen: surface
    /// [`CycleError::InsufficientData`].
    Insufficient,
}

/// Decides one round of the widening search from the threshold just queried
/// and what the query returned.
pub fn search_step(threshold: u32, fetched: Vec<Flight>) -> (r: SearchStep)
    ensures
        fetched@.len() >= RANKING_COUNT ==> r == SearchStep::Done(fetched),
        fetched@.len() < RANKING_COUNT && threshold >= WIDEN_STEP ==> r == SearchStep::Widen(
            (threshold - WIDEN_STEP) as u32,
        ),
        fetched@.len() < RANKING_COUNT && threshold < WIDEN_STEP ==> r
            == SearchStep::Insufficient,
{
    if fetched.len() >= RANKING_COUNT {
        SearchStep::Done(fetched)
    } else if threshold >= WIDEN_STEP {
        SearchStep::Widen(threshold - WIDEN_STEP)
    } else {
        SearchStep::Insufficient
    }
}

/// How many queries a widening search can still make from a threshold.
pub open spec fn spec_queries_left(threshold: u32) -> nat {
    (threshold / WIDEN_STEP + 1) as nat
}

/// How the widening search unfolds over a source that keeps coming up
/// short: one query, then — while the threshold has room — the same search
/// one step lower. This recursion is [`search_step`]'s widening branch
/// iterated on a dry source, and it is accepted only because it reaches the
/// floor.
pub open spec fn spec_dry_search_queries(threshold: u32) -> nat
    decreases threshold,
{
    if threshold < WIDEN_STEP {
        1
    } else {
        1 + spec_dry_search_queries((threshold - WIDEN_STEP) as u32)
    }
}

/// Law (termination of the widening search): a query that falls short either
/// lowers the threshold by exactly one step — strictly shrinking the number
/// of queries still possible — or, once the threshold has no room left, ends
/// the search with an insufficient-data outcome. A search over a source that
/// keeps returning too few results therefore makes at most
/// `spec_queries_left` queries and then surfaces the condition instead of
/// looping forever.
pub proof fn lemma_widening_terminates(threshold: u32)
    ensures
        threshold >= WIDEN_STEP ==> spec_queries_left((threshold - WIDEN_STEP) as u32)
            == spec_queries_left(threshold) - 1,
        threshold >= WIDEN_STEP ==> ((threshold - WIDEN_STEP) as u32) < threshold,
        spec_queries_left(threshold) >= 1,
{
    if threshold >= WIDEN_STEP {
        let t = threshold as int;
        let s = WIDEN_STEP as int;
        assert((t - s) / s == t / s - 1) by {
            vstd::arithmetic::div_mod::lemma_div_minus_one(t, s);
        }
    }
}

/// Law (termination, whole loop): a search over a source that keeps
/// returning too few results makes exactly `threshold / WIDEN_STEP + 1`
/// queries — one per threshold from the start down to the floor — and then
/// surfaces the insufficient-data outcome instead of hanging.
pub proof fn lemma_dry_search_query_count(threshold: u32)
    ensures
        spec_dry_search_queries(threshold) == spec_queries_left(threshold),
    decreases threshold,
{
    if threshold >= WIDEN_STEP {
        lemma_dry_search_query_count((threshold - WIDEN_STEP) as u32);
        vstd::arithmetic::div_mod::lemma_div_minus_one(threshold as int, WIDEN_STEP as int);
    }
}

/// Law (idempotence): when a cycle has announced and persisted its top
/// leaders, a later cycle whose winner carries the same identifier detects
/// no change under the identifier policy — so it performs no write and no
/// publish, however the other fields of the flights may have shifted in the
/// meantime.
pub proof fn lemma_unchanged_top_is_noop(
    cat: BotType,
    fetched_prev: Seq<FlightData>,
    fetched_now: Seq<FlightData>,
    n: nat,
)
    requires
        fetched_prev.len() > 0,
        fetched_now.len() > 0,
        n > 0,
        spec_rank_sort(fetched_now, cat).last().ident == spec_rank_sort(
            fetched_prev,
            cat,
        ).last().ident,
    ensures
        !spec_changed(
            ChangePolicy::ByIdentifier,
            spec_top_ranked(fetched_prev, cat, n),
            spec_rank_sort(fetched_now, cat).last(),
            cat,
        ),
{
    let sorted = spec_rank_sort(fetched_prev, cat);
    let leaders = spec_top_ranked(fetched_prev, cat, n);
    lemma_rank_sort_permutes(fetched_prev, cat);
    lemma_rank_sort_sorted(fetched_prev, cat);
    assert(leaders.len() > 0);
    assert(leaders.last() == sorted.last());
    assert(spec_sorted_by_rank(leaders, cat));
    lemma_rank_sort_of_sorted(leaders, cat);
}

/// Law (change detection by identity): under the identifier policy, whether
/// a cycle announces depends on the winners' identifiers alone; two winners
/// with the same identifier are interchangeable however their optional
/// fields differ.
pub proof fn lemma_change_by_identity(
    persisted: Seq<FlightData>,
    t1: FlightData,
    t2: FlightData,
    cat: BotType,
)
    requires
        t1.ident == t2.ident,
    ensures
        spec_changed(ChangePolicy::ByIdentifier, persisted, t1, cat) == spec_changed(
            ChangePolicy::ByIdentifier,
            persisted,
            t2,
            cat,
        ),
{
}

} // verus!
