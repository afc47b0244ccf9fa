use game_server::menu::cache::{
    build_upcoming_races, is_within_upcoming_window, load_failed, FrontendMenuServiceImpl,
    MenuCache, MenuSource, PublicMenuServiceImpl, SandboxConfigCacheInvalidation,
    UpcomingRacesCacheInvalidation,
};
use game_server::mode::BackendMode;
use game_server::participant::roster::RaceTimeOfDayPreset;
use game_server::race_config::admin::{
    build_race_id_payload, ensure_expected_revision, map_repo_error_to_status, plan_create,
    plan_delete, plan_update, race_id_v5, require_admin, require_config, require_race_id,
    validate_candidate_schedule, RaceConfigAdminServiceImpl, RaceConfigRepoFailure,
};
use game_server::race_config::partial_admin;
use game_server::race_config::records::{
    ends_at_ms, race_input_from_proto, race_input_to_proto, race_to_proto,
    repo_schedule_to_domain, sort_by_start_time, RaceConfigInput, RaceConfigInputRecord,
    RaceConfigRecord, StartPlacementMode,
};
use game_server::status::Code;
use game_server::timestamp::{
    ms_to_timestamp, timestamp_to_ms, timestamp_to_unix_ms, unix_ms_from_clock,
    unix_ms_to_timestamp, Timestamp,
};

fn record(name: &str, starts_at_ms: i64, duration: u32) -> RaceConfigInputRecord {
    RaceConfigInputRecord {
        race_name: name.to_string(),
        starts_at_ms,
        race_duration_sec: duration,
        map_id: "monza".to_string(),
        start_placement_mode: StartPlacementMode { number: 2 },
        points_multiplier_fixed: 1500,
        time_of_day_preset: RaceTimeOfDayPreset::Noon,
    }
}

fn race(id: &str, starts_at_ms: i64) -> RaceConfigRecord {
    RaceConfigRecord { race_id: id.to_string(), config: record(id, starts_at_ms, 60) }
}

fn wire() -> RaceConfigInput {
    race_input_to_proto(record("Cup", 1_500, 60))
}

fn ids(races: &[RaceConfigRecord]) -> Vec<String> {
    races.iter().map(|r| r.race_id.clone()).collect()
}

#[test]
fn milliseconds_round_trip_through_timestamps() {
    for ms in [0, 1, 999, 1000, 1_700_000_000_123, -1, -999, -1000, -1001] {
        assert_eq!(timestamp_to_ms(&ms_to_timestamp(ms)).unwrap(), ms);
        assert_eq!(timestamp_to_unix_ms(&unix_ms_to_timestamp(ms)).unwrap(), ms);
    }
    assert_eq!(ms_to_timestamp(-1), Timestamp { seconds: -1, nanos: 999_000_000 });
}

#[test]
fn timestamps_of_whole_milliseconds_round_trip() {
    let t = Timestamp { seconds: -7, nanos: 250_000_000 };
    assert_eq!(ms_to_timestamp(timestamp_to_ms(&t).unwrap()), t);
}

#[test]
fn later_times_have_later_timestamps() {
    let a = ms_to_timestamp(-1001);
    let b = ms_to_timestamp(-1000);
    assert!((a.seconds, a.nanos) < (b.seconds, b.nanos));
}

#[test]
fn the_earliest_milliseconds_do_not_come_back() {
    let err = timestamp_to_ms(&ms_to_timestamp(i64::MIN)).unwrap_err();
    assert_eq!(err.code, Code::OutOfRange);
    assert_eq!(err.message, "timestamp seconds overflow");
}

#[test]
fn faulty_timestamps_are_refused() {
    let nanos = timestamp_to_ms(&Timestamp { seconds: 0, nanos: 1_000_000_000 }).unwrap_err();
    assert_eq!(nanos.code, Code::InvalidArgument);
    assert_eq!(nanos.message, "timestamp nanos must be in range 0..1_000_000_000");
    let late = Timestamp { seconds: i64::MAX / 1000, nanos: 999_000_000 };
    let overflow = timestamp_to_ms(&late).unwrap_err();
    assert_eq!(overflow.code, Code::OutOfRange);
    assert_eq!(overflow.message, "timestamp overflow");
}

#[test]
fn clock_is_held_at_the_largest_value() {
    assert_eq!(unix_ms_from_clock(12, 345), 12_345);
    assert_eq!(unix_ms_from_clock(u64::MAX, 999), i64::MAX);
}

#[test]
fn stored_race_comes_back_from_the_wire() {
    let stored = record("Cup", 1_500, 60);
    let read = race_input_from_proto(&race_input_to_proto(stored.clone())).unwrap();
    assert_eq!(read.race_name, "Cup");
    assert_eq!(read.starts_at_ms, 1_500);
    assert_eq!(read.race_duration_sec, 60);
    assert_eq!(read.map_id, "monza");
    assert_eq!(read.start_placement_mode, stored.start_placement_mode);
    assert_eq!(read.points_multiplier_fixed, 1500);
    assert_eq!(read.time_of_day_preset, RaceTimeOfDayPreset::Noon);
    let shown = race_to_proto(race("r1", 2_000));
    assert_eq!(shown.race_id, "r1");
    assert_eq!(
        shown.config.unwrap().start_time_utc,
        Some(Timestamp { seconds: 2, nanos: 0 })
    );
}

#[test]
fn faults_of_a_race_come_in_order() {
    let mut input = wire();
    input.start_time_utc = None;
    input.start_placement_mode = None;
    let message = |i: &RaceConfigInput| race_input_from_proto(i).unwrap_err().message;
    assert_eq!(message(&input), "input.start_time_utc is required");
    input.start_time_utc = Some(Timestamp { seconds: 1, nanos: -1 });
    input.time_of_day_preset = None;
    assert_eq!(message(&input), "invalid start_placement_mode");
    input.start_placement_mode = Some(StartPlacementMode { number: 1 });
    input.race_duration_sec = 0;
    assert_eq!(message(&input), "invalid time_of_day_preset");
    input.time_of_day_preset = Some(RaceTimeOfDayPreset::Night);
    assert_eq!(message(&input), "input.race_duration_sec must be greater than 0");
    input.race_duration_sec = 1;
    assert_eq!(message(&input), "timestamp nanos must be in range 0..1_000_000_000");
}

#[test]
fn schedule_has_ends() {
    assert_eq!(ends_at_ms(1_000, 60).unwrap(), 61_000);
    let schedule = repo_schedule_to_domain(&vec![race("a", 0), race("b", 5)]).unwrap();
    assert_eq!(schedule.len(), 2);
    assert_eq!(schedule[1].config.ends_at_ms, 60_005);
    let err = repo_schedule_to_domain(&vec![race("a", 0), race("b", i64::MAX)]).unwrap_err();
    assert_eq!(err.code, Code::OutOfRange);
    assert_eq!(err.message, "race end time overflow");
}

#[test]
fn races_are_sorted_by_start_and_id() {
    let sorted = sort_by_start_time(vec![race("b", 5), race("c", 1), race("a", 5)]);
    assert_eq!(ids(&sorted), vec!["c", "a", "b"]);
}

#[test]
fn candidate_schedule_is_judged() {
    assert!(validate_candidate_schedule(&vec![race("a", 0)], None).is_ok());
    let err = validate_candidate_schedule(&vec![race("a", 0)], Some("overlap".to_string()))
        .unwrap_err();
    assert_eq!(err.code, Code::InvalidArgument);
    assert_eq!(err.message, "overlap");
    let err = validate_candidate_schedule(
        &vec![race("a", i64::MAX)],
        Some("overlap".to_string()),
    )
    .unwrap_err();
    assert_eq!(err.message, "race end time overflow");
}

#[test]
fn revision_must_match() {
    assert!(ensure_expected_revision(3, 3).is_ok());
    let err = ensure_expected_revision(3, 12).unwrap_err();
    assert_eq!(err.code, Code::FailedPrecondition);
    assert_eq!(err.message, "race config revision mismatch: expected 3, actual 12");
}

#[test]
fn race_changes_are_planned() {
    let created = plan_create(1, 1, vec![race("b", 5)], race("a", 1)).unwrap();
    assert_eq!(ids(&created), vec!["a", "b"]);
    assert!(plan_create(1, 2, vec![], race("a", 1)).is_err());

    let races = vec![race("a", 1), race("b", 5), race("b", 7)];
    let updated = plan_update(1, 1, races, "b", record("moved", 0, 60)).unwrap();
    assert_eq!(updated.previous_starts_at_ms, 5);
    assert_eq!(ids(&updated.candidate), vec!["b", "a", "b"]);
    assert_eq!(updated.candidate[0].config.race_name, "moved");
    let err = plan_update(1, 1, vec![], "x", record("moved", 0, 60)).unwrap_err();
    assert_eq!(err.code, Code::NotFound);
    assert_eq!(err.message, "race config not found: x");

    let races = vec![race("a", 1), race("b", 5)];
    assert_eq!(plan_delete(1, 1, &races, "b").unwrap(), 5);
    assert_eq!(plan_delete(1, 1, &races, "c").unwrap_err().code, Code::NotFound);
    assert_eq!(plan_delete(1, 2, &races, "b").unwrap_err().code, Code::FailedPrecondition);
}

#[test]
fn race_requests_need_their_parts() {
    assert_eq!(require_race_id(" \t").unwrap_err().message, "race_id must be non-empty");
    assert!(require_race_id(" r ").is_ok());
    assert_eq!(require_config(&None).unwrap_err().message, "config is required");
    assert_eq!(require_config(&Some(wire())).unwrap().race_name, "Cup");
    let err = require_admin(false).unwrap_err();
    assert_eq!(err.code, Code::PermissionDenied);
    assert_eq!(err.message, "admin role required");
    assert!(require_admin(true).is_ok());
}

#[test]
fn storage_failures_of_races_have_codes() {
    let code = |f| map_repo_error_to_status(f, "why".to_string()).code;
    assert_eq!(code(RaceConfigRepoFailure::RevisionMismatch), Code::FailedPrecondition);
    assert_eq!(code(RaceConfigRepoFailure::AlreadyExists), Code::AlreadyExists);
    assert_eq!(code(RaceConfigRepoFailure::NotFound), Code::NotFound);
    assert_eq!(code(RaceConfigRepoFailure::InvalidStartPlacementMode), Code::InvalidArgument);
    assert_eq!(code(RaceConfigRepoFailure::InvalidTimeOfDayPreset), Code::InvalidArgument);
    assert_eq!(code(RaceConfigRepoFailure::Database), Code::Internal);
    assert_eq!(code(RaceConfigRepoFailure::StateMissing), Code::Internal);
    assert_eq!(code(RaceConfigRepoFailure::NumericOutOfRange), Code::Internal);
    assert_eq!(code(RaceConfigRepoFailure::RevisionOverflow), Code::Internal);
}

#[test]
fn race_id_is_the_uuid_of_its_payload() {
    let config = record("Cup", -5, 60);
    let payload = build_race_id_payload(&config, 3, 9, 1_000_000_000_000_000_000_000);
    assert_eq!(
        payload,
        "expected_revision=9;race_name=Cup;starts_at_ms=-5;race_duration_sec=60;map_id=monza;\
         start_placement_mode=2;time_of_day_preset=3;ts_ns=1000000000000000000000"
    );
    let id = race_id_v5(&config, 3, 9, 1_000_000_000_000_000_000_000);
    let expected = uuid::Uuid::new_v5(&uuid::Uuid::NAMESPACE_OID, payload.as_bytes());
    assert_eq!(id, expected.to_string());
    assert_ne!(id, race_id_v5(&config, 3, 9, 1));
}

#[test]
fn services_hold_what_they_are_given() {
    let admin = RaceConfigAdminServiceImpl::with_repo("repo", "validator", 7u8);
    assert_eq!((admin.repo, admin.token_validator, admin.upcoming_invalidation), ("repo", "validator", 7));
    let menu = FrontendMenuServiceImpl::with_repo(1u8, 2u8);
    assert_eq!((menu.repo, menu.engine), (1, 2));
}

#[test]
fn partial_race_admin_answers() {
    let none = partial_admin::RaceConfigAdminServiceImpl::<u8, u8>::default();
    let err = none.require_validator(BackendMode::Local).unwrap_err();
    assert_eq!(err.code, Code::Unimplemented);
    assert_eq!(
        err.message,
        "race config admin service is available only in official backend"
    );
    let err = none.require_validator(BackendMode::Official).unwrap_err();
    assert_eq!(err.message, "race config admin service is not configured");
    let half = partial_admin::RaceConfigAdminServiceImpl::<u8, u8> {
        repo: Some(1),
        token_validator: None,
    };
    let err = half.require_validator(BackendMode::Official).unwrap_err();
    assert_eq!(err.message, "race config admin service auth is not configured");
    let whole = partial_admin::RaceConfigAdminServiceImpl::with_repo(1u8, 5u8);
    assert_eq!(*whole.require_validator(BackendMode::Official).unwrap(), 5);
    assert_eq!(partial_admin::answer_request(false).code, Code::PermissionDenied);
    let answer = partial_admin::answer_request(true);
    assert_eq!(answer.code, Code::Unimplemented);
    assert_eq!(answer.message, "race config CRUD migration is not implemented yet");
}

#[test]
fn upcoming_window_is_an_hour() {
    assert!(is_within_upcoming_window(100, 100));
    assert!(is_within_upcoming_window(100 + 3_600_000, 100));
    assert!(!is_within_upcoming_window(100 + 3_600_001, 100));
    assert!(!is_within_upcoming_window(99, 100));
    assert!(is_within_upcoming_window(i64::MAX, i64::MAX));
}

#[test]
fn changes_of_upcoming_races_begin_a_generation() {
    let mut signal = UpcomingRacesCacheInvalidation::new();
    assert_eq!(signal.generation(), 0);
    signal.invalidate_for_change(None, Some(10_000_000), 0);
    assert_eq!(signal.generation(), 0);
    signal.invalidate_for_change(Some(5), Some(10_000_000), 0);
    assert_eq!(signal.generation(), 1);
    signal.invalidate_for_change(Some(5), Some(6), 0);
    assert_eq!(signal.generation(), 2);
    signal.invalidate_for_change(None, None, 0);
    assert_eq!(signal.generation(), 2);
    let mut last = UpcomingRacesCacheInvalidation { generation: u64::MAX };
    last.invalidate_for_change(Some(0), None, 0);
    assert_eq!(last.generation(), 0);
    let mut sandboxes = SandboxConfigCacheInvalidation::new();
    sandboxes.invalidate();
    assert_eq!(sandboxes.generation(), 1);
}

#[test]
fn new_generation_is_not_served_from_the_cache() {
    let mut cache = MenuCache::new(0u32);
    cache.store(4, 1_000, 77);
    assert_eq!(cache.get(4, 1_000, 60_000), Some(&77));
    assert_eq!(cache.get(5, 1_000, 60_000), None);
}

#[test]
fn cache_is_served_for_a_minute() {
    let mut menu = PublicMenuServiceImpl::with_repo(0u8, 0u8, 0u8, 0u8, 0u8);
    assert!(menu.cached_upcoming_races(0, 60_001).is_none());
    let races = vec![race("soon", 200_000), race("late", 9_000_000)];
    menu.keep_upcoming_races(3, 100_000, &races);
    let kept = menu.cached_upcoming_races(3, 160_000).unwrap();
    assert_eq!(kept.len(), 1);
    assert_eq!(kept[0].race_name, "soon");
    assert!(menu.cached_upcoming_races(3, 160_001).is_none());
    assert!(menu.cached_sandbox_configs(0, 60_001).is_none());
    menu.keep_sandbox_configs(1, 50, Vec::new());
    assert!(menu.cached_sandbox_configs(1, 50).is_some());
}

#[test]
fn upcoming_races_are_shown_in_order() {
    let races = vec![race("past", 1), race("b", 20), race("a", 10)];
    let shown = build_upcoming_races(&races, 5);
    let names: Vec<&str> = shown.iter().map(|r| r.race_name.as_str()).collect();
    assert_eq!(names, vec!["b", "a"]);
    assert_eq!(shown[0].start_time_utc, Some(Timestamp { seconds: 0, nanos: 20_000_000 }));
    assert_eq!(shown[0].race_duration_sec, 60);
}

#[test]
fn unreadable_storage_is_reported() {
    let err = load_failed(MenuSource::SandboxConfigs, "gone");
    assert_eq!(err.code, Code::Internal);
    assert_eq!(err.message, "failed to load sandbox configs: gone");
    assert_eq!(
        load_failed(MenuSource::RaceConfigs, "gone").message,
        "failed to load race configs: gone"
    );
}
