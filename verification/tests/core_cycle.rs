use flight_watch::BotType;
use flight_watch::ChangePolicy;
use flight_watch::CycleAction;
use flight_watch::CycleError;
use flight_watch::Flight;
use flight_watch::SearchStep;
use flight_watch::WIDEN_STEP;
use flight_watch::detect_change;
use flight_watch::initial_threshold;
use flight_watch::plan_cycle;
use flight_watch::rank_sort;
use flight_watch::search_step;
use flight_watch::top_ranked;

fn flight(ident: &str, cat: BotType, altitude: Option<i32>, groundspeed: Option<i32>) -> Flight {
    Flight {
        ident: ident.to_string(),
        ranking: cat,
        altitude,
        groundspeed,
        destination: None,
        origin: None,
    }
}

#[test]
fn ranking_sorts_ascending_by_metric() {
    let flights = vec![
        flight("B", BotType::ALTITUDE, Some(410), None),
        flight("A", BotType::ALTITUDE, Some(450), None),
        flight("C", BotType::ALTITUDE, Some(430), None),
    ];
    let sorted = rank_sort(flights, BotType::ALTITUDE);
    let idents: Vec<&str> = sorted.iter().map(|f| f.ident.as_str()).collect();
    assert_eq!(idents, vec!["B", "C", "A"]);
}

#[test]
fn ranking_treats_missing_metric_as_lowest() {
    let flights = vec![
        flight("KNOWN", BotType::ALTITUDE, Some(400), None),
        flight("UNKNOWN", BotType::ALTITUDE, None, None),
    ];
    let sorted = rank_sort(flights, BotType::ALTITUDE);
    assert_eq!(sorted[0].ident, "UNKNOWN");
    assert_eq!(sorted[1].ident, "KNOWN");
}

#[test]
fn ranking_is_stable_for_equal_metrics() {
    let flights = vec![
        flight("FIRST", BotType::GROUNDSPEED, None, Some(650)),
        flight("SECOND", BotType::GROUNDSPEED, None, Some(650)),
        flight("THIRD", BotType::GROUNDSPEED, None, Some(650)),
    ];
    let sorted = rank_sort(flights, BotType::GROUNDSPEED);
    let idents: Vec<&str> = sorted.iter().map(|f| f.ident.as_str()).collect();
    assert_eq!(idents, vec!["FIRST", "SECOND", "THIRD"]);
}

#[test]
fn top_ranked_keeps_the_three_highest_winner_last() {
    let flights = vec![
        flight("D", BotType::ALTITUDE, Some(100), None),
        flight("A", BotType::ALTITUDE, Some(500), None),
        flight("B", BotType::ALTITUDE, Some(400), None),
        flight("C", BotType::ALTITUDE, Some(300), None),
    ];
    let top = top_ranked(flights, BotType::ALTITUDE, 3);
    let idents: Vec<&str> = top.iter().map(|f| f.ident.as_str()).collect();
    assert_eq!(idents, vec!["C", "B", "A"]);
}

#[test]
fn top_ranked_keeps_everything_when_fewer_than_n() {
    let flights = vec![flight("A", BotType::ALTITUDE, Some(500), None)];
    let top = top_ranked(flights, BotType::ALTITUDE, 3);
    assert_eq!(top.len(), 1);
    assert_eq!(top[0].ident, "A");
}

#[test]
fn empty_leader_set_counts_as_changed() {
    let top = flight("A", BotType::ALTITUDE, Some(450), None);
    assert!(detect_change(ChangePolicy::ByIdentifier, Vec::new(), &top, BotType::ALTITUDE));
}

#[test]
fn change_detection_compares_top_identifiers() {
    let persisted = vec![
        flight("LOW", BotType::ALTITUDE, Some(400), None),
        flight("HIGH", BotType::ALTITUDE, Some(450), None),
    ];
    let same_top = flight("HIGH", BotType::ALTITUDE, Some(460), None);
    assert!(!detect_change(ChangePolicy::ByIdentifier, persisted.clone(), &same_top, BotType::ALTITUDE));
    let new_top = flight("OTHER", BotType::ALTITUDE, Some(470), None);
    assert!(detect_change(ChangePolicy::ByIdentifier, persisted, &new_top, BotType::ALTITUDE));
}

#[test]
fn change_detection_by_identity_not_full_equality() {
    // Persisted leader and new winner share the identifier; a field that
    // appeared in the meantime must not trigger a new announcement.
    let persisted = vec![flight("UAL123", BotType::ALTITUDE, Some(370), None)];
    let mut new_top = flight("UAL123", BotType::ALTITUDE, Some(370), None);
    new_top.origin = Some("JFK".to_string());
    assert!(!detect_change(ChangePolicy::ByIdentifier, persisted.clone(), &new_top, BotType::ALTITUDE));
    let plan = plan_cycle(BotType::ALTITUDE, ChangePolicy::ByIdentifier, vec![new_top], persisted);
    assert!(matches!(plan, Ok(CycleAction::Unchanged)));
}

#[test]
fn full_record_policy_reacts_to_any_field_difference() {
    // The policy is explicit: under full-record comparison the same field
    // difference that the identifier policy ignores does re-announce.
    let persisted = vec![flight("UAL123", BotType::ALTITUDE, Some(370), None)];
    let mut new_top = flight("UAL123", BotType::ALTITUDE, Some(370), None);
    new_top.origin = Some("JFK".to_string());
    assert!(detect_change(ChangePolicy::ByFullRecord, persisted.clone(), &new_top, BotType::ALTITUDE));
    let unchanged_top = flight("UAL123", BotType::ALTITUDE, Some(370), None);
    assert!(!detect_change(ChangePolicy::ByFullRecord, persisted, &unchanged_top, BotType::ALTITUDE));
}

#[test]
fn cycle_with_no_results_surfaces_insufficient_data() {
    let plan = plan_cycle(BotType::ALTITUDE, ChangePolicy::ByIdentifier, Vec::new(), Vec::new());
    assert!(matches!(plan, Err(CycleError::InsufficientData)));
}

#[test]
fn first_cycle_announces_and_persists_top_three() {
    let fetched = vec![
        flight("D", BotType::ALTITUDE, Some(410), None),
        flight("A", BotType::ALTITUDE, Some(500), None),
        flight("B", BotType::ALTITUDE, Some(470), None),
        flight("C", BotType::ALTITUDE, Some(440), None),
    ];
    match plan_cycle(BotType::ALTITUDE, ChangePolicy::ByIdentifier, fetched, Vec::new()) {
        Ok(CycleAction::Announce { leaders, message }) => {
            let idents: Vec<&str> = leaders.iter().map(|f| f.ident.as_str()).collect();
            assert_eq!(idents, vec!["C", "B", "A"]);
            assert!(message.starts_with("Current highest flight: A\n"));
        }
        other => panic!("expected an announcement, got {:?}", other),
    }
}

#[test]
fn second_cycle_with_same_winner_is_idempotent() {
    let fetched1 = vec![
        flight("D", BotType::ALTITUDE, Some(410), None),
        flight("A", BotType::ALTITUDE, Some(500), None),
        flight("B", BotType::ALTITUDE, Some(470), None),
        flight("C", BotType::ALTITUDE, Some(440), None),
    ];
    let leaders = match plan_cycle(BotType::ALTITUDE, ChangePolicy::ByIdentifier, fetched1, Vec::new()) {
        Ok(CycleAction::Announce { leaders, .. }) => leaders,
        other => panic!("expected an announcement, got {:?}", other),
    };
    // Next cycle: the same winner on top, other flights shifted.
    let fetched2 = vec![
        flight("A", BotType::ALTITUDE, Some(505), None),
        flight("E", BotType::ALTITUDE, Some(430), None),
        flight("B", BotType::ALTITUDE, Some(475), None),
    ];
    let plan = plan_cycle(BotType::ALTITUDE, ChangePolicy::ByIdentifier, fetched2, leaders);
    assert!(matches!(plan, Ok(CycleAction::Unchanged)));
}

#[test]
fn changed_winner_announces_again() {
    let persisted = vec![
        flight("C", BotType::ALTITUDE, Some(440), None),
        flight("B", BotType::ALTITUDE, Some(470), None),
        flight("A", BotType::ALTITUDE, Some(500), None),
    ];
    let fetched = vec![
        flight("B", BotType::ALTITUDE, Some(470), None),
        flight("NEW", BotType::ALTITUDE, Some(520), None),
        flight("A", BotType::ALTITUDE, Some(500), None),
    ];
    match plan_cycle(BotType::ALTITUDE, ChangePolicy::ByIdentifier, fetched, persisted) {
        Ok(CycleAction::Announce { leaders, message }) => {
            assert_eq!(leaders.last().unwrap().ident, "NEW");
            assert!(message.starts_with("Current highest flight: NEW\n"));
        }
        other => panic!("expected an announcement, got {:?}", other),
    }
}

#[test]
fn search_keeps_enough_results() {
    let fetched = vec![
        flight("A", BotType::ALTITUDE, Some(500), None),
        flight("B", BotType::ALTITUDE, Some(470), None),
        flight("C", BotType::ALTITUDE, Some(440), None),
    ];
    match search_step(450, fetched) {
        SearchStep::Done(fs) => assert_eq!(fs.len(), 3),
        other => panic!("expected done, got {:?}", other),
    }
}

#[test]
fn search_widens_by_a_fixed_step() {
    match search_step(450, Vec::new()) {
        SearchStep::Widen(t) => assert_eq!(t, 440),
        other => panic!("expected widening, got {:?}", other),
    }
}

#[test]
fn widening_search_terminates_on_a_dry_source() {
    // A source that keeps returning too few results: the threshold must
    // reach its floor and surface the insufficient-data outcome instead of
    // looping forever.
    let mut threshold = initial_threshold(BotType::ALTITUDE);
    let bound = threshold / WIDEN_STEP + 1;
    let mut queries = 0u32;
    loop {
        queries += 1;
        assert!(queries <= bound, "the widening search did not terminate");
        match search_step(threshold, Vec::new()) {
            SearchStep::Done(_) => panic!("a dry source cannot satisfy the search"),
            SearchStep::Widen(t) => {
                assert!(t < threshold);
                threshold = t;
            }
            SearchStep::Insufficient => break,
        }
    }
    assert!(threshold < WIDEN_STEP);
}

#[test]
fn initial_thresholds_follow_the_category() {
    assert_eq!(initial_threshold(BotType::ALTITUDE), 450);
    assert_eq!(initial_threshold(BotType::GROUNDSPEED), 650);
}

#[test]
fn groundspeed_cycle_ranks_by_speed() {
    let fetched = vec![
        flight("SLOW", BotType::GROUNDSPEED, None, Some(600)),
        flight("FAST", BotType::GROUNDSPEED, None, Some(700)),
    ];
    match plan_cycle(BotType::GROUNDSPEED, ChangePolicy::ByIdentifier, fetched, Vec::new()) {
        Ok(CycleAction::Announce { leaders, message }) => {
            assert_eq!(leaders.last().unwrap().ident, "FAST");
            assert!(message.starts_with("Current fastest flight: FAST\n"));
        }
        other => panic!("expected an announcement, got {:?}", other),
    }
}
