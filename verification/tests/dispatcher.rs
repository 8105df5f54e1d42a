use modguard::classify::MemberJoinRecord;
use modguard::dispatch::{decide, decide_prefix, Event, HandlerAction, PURGE_DAYS};
use modguard::report::{ban_report, enforcement_outcome, ready_report, EnforcementOutcome, Identity};

const OLD_ACCOUNT: u64 = 105484726235607040;

fn join(name: &str) -> Event {
    Event::MemberJoined(MemberJoinRecord {
        guild_id: 77,
        user_id: OLD_ACCOUNT,
        display_name: name.to_string(),
        discriminator_tag: "1234".to_string(),
    })
}

#[test]
fn spam_join_requests_a_seven_day_purge_ban() {
    match decide(0, &join("FreeNitro/token"), 0) {
        HandlerAction::Ban { guild_id, user_id, purge_days, reason } => {
            assert_eq!(guild_id, 77);
            assert_eq!(user_id, OLD_ACCOUNT);
            assert_eq!(purge_days, 7);
            assert_eq!(purge_days, PURGE_DAYS);
            assert_eq!(reason, "User is most likely a spam account.");
        }
        _ => panic!("a spam join must request a ban"),
    }
}

#[test]
fn clean_join_requests_nothing() {
    assert!(matches!(decide(0, &join("CoolUser123"), 0), HandlerAction::Nothing));
}

#[test]
fn shard_ready_requests_an_identity_lookup() {
    match decide(2, &Event::ShardReady, 0) {
        HandlerAction::LookupIdentity { shard_id } => assert_eq!(shard_id, 2),
        _ => panic!("a shard-ready notice must request an identity lookup"),
    }
}

#[test]
fn inert_events_request_nothing() {
    assert!(matches!(decide(9, &Event::Other, 0), HandlerAction::Nothing));
}

#[test]
fn every_event_of_a_prefix_gets_its_own_action() {
    // A spam join whose enforcement call may hang does not keep the
    // later events from being classified and acted on.
    let stream = vec![
        (0, join("FreeNitro/token")),
        (1, join("CoolUser123")),
        (2, Event::ShardReady),
        (0, Event::Other),
        (1, join("slow motion")),
    ];
    let actions = decide_prefix(&stream, 0);
    assert_eq!(actions.len(), 5);
    assert!(matches!(actions[0], HandlerAction::Ban { .. }));
    assert!(matches!(actions[1], HandlerAction::Nothing));
    assert!(matches!(actions[2], HandlerAction::LookupIdentity { shard_id: 2 }));
    assert!(matches!(actions[3], HandlerAction::Nothing));
    assert!(matches!(actions[4], HandlerAction::Ban { .. }));
}

#[test]
fn successful_ban_reports_name_and_tag() {
    let record = MemberJoinRecord {
        guild_id: 77,
        user_id: OLD_ACCOUNT,
        display_name: "FreeNitro/token".to_string(),
        discriminator_tag: "1234".to_string(),
    };
    let outcome = enforcement_outcome(Ok(()));
    assert!(matches!(outcome, EnforcementOutcome::Banned));
    assert_eq!(ban_report(&record, &outcome), "Banned FreeNitro/token#1234");
}

#[test]
fn failed_ban_reports_the_error_detail() {
    let record = MemberJoinRecord {
        guild_id: 77,
        user_id: OLD_ACCOUNT,
        display_name: "FreeNitro/token".to_string(),
        discriminator_tag: "1234".to_string(),
    };
    let outcome = enforcement_outcome(Err("Missing Permissions".to_string()));
    match &outcome {
        EnforcementOutcome::Failed(detail) => assert_eq!(detail, "Missing Permissions"),
        EnforcementOutcome::Banned => panic!("an error must become a failed outcome"),
    }
    assert_eq!(ban_report(&record, &outcome), "Missing Permissions");
}

#[test]
fn shard_ready_report_names_shard_and_identity() {
    let identity = Identity { name: "ModBot".to_string(), discriminator_tag: "0001".to_string() };
    assert_eq!(ready_report(2, &Ok(identity)), "Shard 2 connected with user ModBot#0001");
}

#[test]
fn failed_identity_lookup_reports_the_error_detail() {
    assert_eq!(ready_report(2, &Err("401: Unauthorized".to_string())), "401: Unauthorized");
}
