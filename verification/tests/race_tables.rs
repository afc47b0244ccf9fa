use game_server::engine::{
    EngineActiveLocalRaceState, EngineActiveSandboxState, EngineActivityKind, EngineCommandTarget,
    EngineRuntimeState, EngineRuntimeTimeOfDayPreset,
};
use game_server::float_bits::F32Bits;
use game_server::mode::BackendMode;
use game_server::race::frame_hub::{RuntimeCarFrame, VehicleRaceMetrics, VehicleState};
use game_server::race::runtime_store::{RaceRuntimeStore, RuntimeCarIdentity, VehiclePitReading};
use game_server::race_table::official::{
    name_official_teams, sample_to_official_entry, session_marker, sort_active_entries,
    ActiveEntrySample, GapPlan, OfficialRaceCache,
};
use game_server::race_table::rows::{
    build_local_race_rows, build_sandbox_entries, find_table_cars, identity_for_sandbox_entry,
    local_bot_identity, local_participant, matches_sandbox_target, name_sandbox_teams,
    resolve_team_name, LocalRaceSample, LocalRaceTableEntry, RaceTableEntryStatus,
    SandboxEntryIdentity,
};
use game_server::race_table::target::{
    ensure_target_active, ensure_target_supported, parse_required_target, require_runtime_state,
    ParsedRaceTableTarget, RaceTableTarget,
};
use game_server::race_table::trajectory::{
    ProgressChange, Trajectory, TrajectorySample, TRAJECTORY_MAX_AGE_MS,
};
use game_server::status::Code;
use game_server::text_map::TextMap;

const ADVANCED: ProgressChange = ProgressChange { has_fallen_back: false, has_advanced: true };

fn metres(x: f64) -> u64 {
    x.to_bits()
}

fn point(progress: f64, race_elapsed_ms: u64) -> TrajectorySample {
    TrajectorySample { progress: metres(progress), race_elapsed_ms }
}

fn team(id: &str) -> Option<RuntimeCarIdentity> {
    Some(RuntimeCarIdentity { team_id: Some(id.to_string()), ..RuntimeCarIdentity::default() })
}

fn sample(car_id: u64, laps: u32, progress: f64) -> ActiveEntrySample {
    let line = F32Bits { bits: 1.0f32.to_bits() };
    sample_to_official_entry(car_id, laps, line, metres(progress), &team("t"), false)
}

fn moving(cache: OfficialRaceCache, car_id: u64) -> OfficialRaceCache {
    cache
        .record_point(car_id, point(10.0, 1_000), ADVANCED)
        .record_point(car_id, point(20.0, 2_000), ADVANCED)
        .record_point(car_id, point(30.0, 3_000), ADVANCED)
}

fn names() -> TextMap<String> {
    let mut names = TextMap::new();
    names.insert("t".to_string(), "The Team".to_string());
    names
}

fn runtime(kind: EngineActivityKind) -> EngineRuntimeState {
    EngineRuntimeState {
        revision: 1,
        activity_kind: kind,
        map_id: "m".to_string(),
        time_of_day_preset: EngineRuntimeTimeOfDayPreset::Noon,
        active_sandboxes: vec![EngineActiveSandboxState {
            sandbox_id: "s".to_string(),
            map_id: "m".to_string(),
            time_of_day_preset: EngineRuntimeTimeOfDayPreset::Noon,
        }],
        active_local_race: Some(EngineActiveLocalRaceState {
            race_id: "r".to_string(),
            map_id: "m".to_string(),
        }),
    }
}

fn in_sandbox(id: &str) -> ParsedRaceTableTarget {
    ParsedRaceTableTarget::Sandbox { sandbox_id: id.to_string() }
}

fn in_local_race(id: &str) -> ParsedRaceTableTarget {
    ParsedRaceTableTarget::LocalRace { race_id: id.to_string() }
}

#[test]
fn table_target_is_parsed() {
    let e = parse_required_target(&None).unwrap_err();
    assert_eq!((e.code, e.message.as_str()), (Code::InvalidArgument, "race table target is required"));
    let blank = Some(RaceTableTarget::Sandbox { sandbox_id: " \t".to_string() });
    let e = parse_required_target(&blank).unwrap_err();
    assert_eq!(
        (e.code, e.message.as_str()),
        (Code::InvalidArgument, "race table sandbox target requires non-empty sandbox_id")
    );
    let blank = Some(RaceTableTarget::LocalRace { race_id: String::new() });
    let e = parse_required_target(&blank).unwrap_err();
    assert_eq!(
        (e.code, e.message.as_str()),
        (Code::InvalidArgument, "race table local race target requires non-empty race_id")
    );
    let named = Some(RaceTableTarget::Sandbox { sandbox_id: " s ".to_string() });
    assert!(matches!(
        parse_required_target(&named),
        Ok(ParsedRaceTableTarget::Sandbox { sandbox_id }) if sandbox_id == "s"
    ));
    let named = Some(RaceTableTarget::LocalRace { race_id: " r ".to_string() });
    assert!(matches!(
        parse_required_target(&named),
        Ok(ParsedRaceTableTarget::LocalRace { race_id }) if race_id == "r"
    ));
    assert!(matches!(
        parse_required_target(&Some(RaceTableTarget::OfficialRace)),
        Ok(ParsedRaceTableTarget::OfficialRace)
    ));
}

#[test]
fn table_target_must_be_supported() {
    let official = ParsedRaceTableTarget::OfficialRace;
    assert!(ensure_target_supported(BackendMode::Official, &official).is_ok());
    let e = ensure_target_supported(BackendMode::Local, &official).unwrap_err();
    assert_eq!(
        (e.code, e.message.as_str()),
        (Code::Unimplemented, "official race-table target is not supported by local backend mode")
    );
    assert!(ensure_target_supported(BackendMode::Local, &in_local_race("r")).is_ok());
    let e = ensure_target_supported(BackendMode::Official, &in_local_race("r")).unwrap_err();
    assert_eq!(
        (e.code, e.message.as_str()),
        (Code::Unimplemented, "local race-table target is supported only by local backend mode")
    );
    assert!(ensure_target_supported(BackendMode::Official, &in_sandbox("s")).is_ok());
    assert!(ensure_target_supported(BackendMode::Local, &in_sandbox("s")).is_ok());
}

#[test]
fn table_target_must_be_active() {
    let idle = runtime(EngineActivityKind::Idle);
    assert!(ensure_target_active(&idle, &in_sandbox("s")).is_ok());
    assert!(ensure_target_active(&idle, &in_local_race("r")).is_ok());
    let official = runtime(EngineActivityKind::OfficialRace);
    assert!(ensure_target_active(&official, &ParsedRaceTableTarget::OfficialRace).is_ok());
    let e = ensure_target_active(&idle, &in_sandbox("x")).unwrap_err();
    assert_eq!(
        (e.code, e.message.as_str()),
        (Code::NotFound, "active sandbox session was not found for race-table target")
    );
    let e = ensure_target_active(&idle, &in_local_race("x")).unwrap_err();
    assert_eq!(
        (e.code, e.message.as_str()),
        (Code::NotFound, "active local race session was not found for race-table target")
    );
    let e = ensure_target_active(&idle, &ParsedRaceTableTarget::OfficialRace).unwrap_err();
    assert_eq!(
        (e.code, e.message.as_str()),
        (Code::NotFound, "official race session is not active for race-table target")
    );
    assert_eq!(require_runtime_state(Some(&idle)).unwrap().revision, 1);
    let e = require_runtime_state(None).unwrap_err();
    assert_eq!((e.code, e.message.as_str()), (Code::NotFound, "runtime state is unavailable"));
}

#[test]
fn sandbox_table_lists_its_cars() {
    let mut store = RaceRuntimeStore::new();
    for car_id in [4u64, 2, 3] {
        store.mark_known_car(car_id);
        let id = if car_id == 3 { "other" } else { "s" };
        store.set_car_target(car_id, EngineCommandTarget::Sandbox { sandbox_id: id.to_string() });
    }
    store.set_car_identity(2, team("t").unwrap());
    let entries = build_sandbox_entries(&store, BackendMode::Official, "s");
    let ids: Vec<u64> = entries.iter().map(|e| e.car_id).collect();
    assert_eq!(ids, vec![2, 4]);
    let entries = name_sandbox_teams(entries, Some(&names()));
    assert!(matches!(
        &entries[0].identity,
        SandboxEntryIdentity::Team(t) if t.team_id == "t" && t.team_name == "The Team"
    ));
    assert!(matches!(
        &entries[1].identity,
        SandboxEntryIdentity::LocalBot(b)
            if b.user_id == "car-4" && b.username == "car-4" && b.bot_index == 4
    ));
}

#[test]
fn local_backend_shows_bots() {
    let identity = Some(RuntimeCarIdentity {
        subject: Some("me".to_string()),
        local_bot_index: Some(7),
        ..team("t").unwrap()
    });
    assert!(matches!(
        identity_for_sandbox_entry(BackendMode::Local, 1, &identity),
        SandboxEntryIdentity::LocalBot(b) if b.user_id == "me" && b.bot_index == 7
    ));
    assert!(matches!(
        identity_for_sandbox_entry(BackendMode::Official, 1, &identity),
        SandboxEntryIdentity::Team(t) if t.team_id == "t" && t.team_name == "t"
    ));
    assert_eq!(local_bot_identity(u64::MAX, &None).bot_index, u32::MAX);
}

#[test]
fn team_names_are_resolved() {
    assert_eq!(resolve_team_name("t", Some(&names())), "The Team");
    assert_eq!(resolve_team_name("u", Some(&names())), "failed to fetch");
    assert_eq!(resolve_team_name("t", None), "failed to fetch");
}

#[test]
fn sandbox_targets_match_by_id() {
    let s = EngineCommandTarget::Sandbox { sandbox_id: "s".to_string() };
    assert!(matches_sandbox_target("s", &s));
    assert!(!matches_sandbox_target("x", &s));
    assert!(!matches_sandbox_target("s", &EngineCommandTarget::OfficialRace));
    let r = EngineCommandTarget::LocalRace { race_id: "s".to_string() };
    assert!(!matches_sandbox_target("s", &r));
}

#[test]
fn local_drivers_are_named() {
    assert_eq!(local_participant(3, &None), None);
    let bare = local_participant(3, &Some(RuntimeCarIdentity::default())).unwrap();
    assert_eq!((bare.display_name.as_str(), bare.participant_index), ("car-3", 0));
    let named = RuntimeCarIdentity {
        local_race_display_name: Some("Ada".to_string()),
        local_race_participant_index: Some(2),
        ..RuntimeCarIdentity::default()
    };
    let named = local_participant(3, &Some(named)).unwrap();
    assert_eq!((named.display_name.as_str(), named.participant_index), ("Ada", 2));
}

#[test]
fn timed_cars_of_a_session_stand_in_its_table() {
    let race = || EngineCommandTarget::LocalRace { race_id: "r".to_string() };
    let car = |target, timed: bool| RuntimeCarFrame {
        public_car_id: 1,
        engine_car_id: 1,
        target,
        state: VehicleState {
            in_any_pit_zone: false,
            pit: VehiclePitReading {
                in_fix_zone: false,
                wheels_in_pitstop: 0,
                speed: F32Bits { bits: 0 },
            },
            telemetry: (),
        },
        race_metrics: if timed { Some(VehicleRaceMetrics::default()) } else { None },
        last_client_seq: 0,
        identity: None,
    };
    let cars = vec![
        car(race(), true),
        car(race(), false),
        car(EngineCommandTarget::OfficialRace, true),
        car(race(), true),
    ];
    assert_eq!(find_table_cars(&cars, &race()), vec![0, 3]);
}

#[test]
fn local_race_table_is_ranked() {
    let sample = |car_id, laps, progress| LocalRaceSample {
        completed_laps: laps,
        progress: metres(progress),
        row: LocalRaceTableEntry {
            car_id,
            participant: None,
            position: 0,
            gap_to_leader_ms: None,
            laps_behind: 0,
            in_pit: car_id == 2,
            status: RaceTableEntryStatus::Active,
        },
    };
    let rows = build_local_race_rows(vec![
        sample(1, 0, 50.0),
        sample(2, 3, 950.0),
        sample(3, 1, 350.0),
        sample(0, 0, 50.0),
    ]);
    let shown: Vec<(u64, u32, u32, Option<u32>)> =
        rows.iter().map(|r| (r.car_id, r.position, r.laps_behind, r.gap_to_leader_ms)).collect();
    assert_eq!(
        shown,
        vec![(2, 1, 0, Some(0)), (3, 2, 2, None), (0, 3, 3, None), (1, 4, 3, None)]
    );
    assert!(rows[0].in_pit && !rows[1].in_pit);
    assert!(build_local_race_rows(vec![]).is_empty());
}

#[test]
fn trajectory_only_moves_forward() {
    let still = ProgressChange { has_fallen_back: false, has_advanced: false };
    let back = ProgressChange { has_fallen_back: true, has_advanced: false };
    let t = Trajectory::new().record(point(10.0, 1_000), still);
    assert_eq!(t.len(), 1);
    let t = t.record(point(20.0, 1_000), ADVANCED);
    assert_eq!(t.last(), Some(point(10.0, 1_000)));
    let t = t.record(point(10.0, 2_000), ADVANCED);
    assert_eq!(t.len(), 1);
    let t = t.record(point(10.5, 2_000), still);
    assert_eq!(t.len(), 1);
    let t = t.record(point(20.0, 2_000), ADVANCED);
    assert_eq!(t.len(), 2);
    let t = t.record(point(5.0, 3_000), back);
    assert_eq!((t.len(), t.last()), (1, Some(point(5.0, 3_000))));
}

#[test]
fn trajectory_forgets_old_points() {
    let t = Trajectory::new()
        .record(point(10.0, 1_000), ADVANCED)
        .record(point(20.0, 2_000), ADVANCED)
        .record(point(30.0, 2_000 + TRAJECTORY_MAX_AGE_MS), ADVANCED);
    assert_eq!(t.len(), 2);
    assert_eq!(t.bracket(metres(10.0)), None);
    assert_eq!(t.bracket(metres(20.0)).unwrap().upper, point(20.0, 2_000));
}

#[test]
fn distance_lies_between_two_points() {
    let t = Trajectory::new()
        .record(point(10.0, 1_000), ADVANCED)
        .record(point(20.0, 2_000), ADVANCED)
        .record(point(30.0, 3_000), ADVANCED);
    let b = t.bracket(metres(25.0)).unwrap();
    assert_eq!((b.lower, b.upper), (Some(point(20.0, 2_000)), point(30.0, 3_000)));
    let b = t.bracket(metres(20.0)).unwrap();
    assert_eq!((b.lower, b.upper), (Some(point(10.0, 1_000)), point(20.0, 2_000)));
    let b = t.bracket(metres(10.0)).unwrap();
    assert_eq!((b.lower, b.upper), (None, point(10.0, 1_000)));
    assert_eq!(t.bracket(metres(9.0)), None);
    assert_eq!(t.bracket(metres(31.0)), None);
    assert_eq!(Trajectory::new().bracket(metres(0.0)), None);
}

#[test]
fn official_sample_shows_the_team() {
    let before_line = F32Bits { bits: (-1.0f32).to_bits() };
    let s = sample_to_official_entry(8, 2, before_line, metres(0.0), &team("t"), true);
    assert!(s.hide_gap_to_leader);
    assert!(s.row.in_pit);
    assert_eq!((s.row.team.team_id.as_str(), s.row.team.team_name.as_str()), ("t", "t"));
    assert_eq!(s.completed_laps, 2);
    let zero = F32Bits { bits: (-0.0f32).to_bits() };
    let s = sample_to_official_entry(8, 2, zero, metres(0.0), &None, false);
    assert!(!s.hide_gap_to_leader);
    assert_eq!(s.row.team.team_id, "unknown");
    assert_eq!(session_marker("monza"), "official-race:monza");
}

#[test]
fn active_cars_are_sorted_by_distance() {
    let sorted =
        sort_active_entries(vec![sample(3, 0, 5.0), sample(2, 0, 9.0), sample(1, 0, 5.0)]);
    let ids: Vec<u64> = sorted.iter().map(|s| s.row.car_id).collect();
    assert_eq!(ids, vec![2, 1, 3]);
}

#[test]
fn gaps_are_read_off_the_leader() {
    let cache = moving(OfficialRaceCache::new(), 1);
    let mut entries =
        vec![sample(1, 3, 30.0), sample(2, 3, 25.0), sample(3, 1, 12.0), sample(4, 3, 2.0)];
    entries.push(sample(5, 3, 1.5));
    entries[4].hide_gap_to_leader = true;
    let plans = cache.plan_gaps(&entries);
    assert_eq!(plans[0], GapPlan::Known(Some(0)));
    assert!(matches!(
        plans[1],
        GapPlan::Interpolate(Some(b))
            if b.lower == Some(point(20.0, 2_000)) && b.upper == point(30.0, 3_000)
    ));
    assert_eq!(plans[2], GapPlan::Known(None));
    assert_eq!(plans[3], GapPlan::Interpolate(None));
    assert_eq!(plans[4], GapPlan::Known(None));
    let still = OfficialRaceCache::new().plan_gaps(&entries);
    assert_eq!(still[1], GapPlan::Known(Some(0)));
    assert_eq!(still[2], GapPlan::Known(None));
    assert!(cache.plan_gaps(&vec![]).is_empty());
}

#[test]
fn last_gap_stands_until_the_next() {
    let mut cache = moving(OfficialRaceCache::new(), 1);
    let rows = cache.finish_rows(&vec![sample(1, 3, 30.0), sample(2, 3, 25.0)], &vec![None, None]);
    assert_eq!(rows[1].gap_to_leader_ms, None);
    let rows =
        cache.finish_rows(&vec![sample(1, 3, 30.0), sample(2, 3, 25.0)], &vec![None, Some(500)]);
    assert_eq!(rows[1].gap_to_leader_ms, Some(500));
    let rows = cache.finish_rows(&vec![sample(1, 3, 30.0), sample(2, 3, 25.0)], &vec![None, None]);
    assert_eq!(rows[1].gap_to_leader_ms, Some(500));
    let mut hidden = sample(2, 3, 25.0);
    hidden.hide_gap_to_leader = true;
    let rows = cache.finish_rows(&vec![sample(1, 3, 30.0), hidden], &vec![None, None]);
    assert_eq!(rows[1].gap_to_leader_ms, None);
    let rows = cache.finish_rows(&vec![sample(1, 3, 30.0), sample(2, 3, 25.0)], &vec![None, None]);
    assert_eq!(rows[1].gap_to_leader_ms, None);
}

#[test]
fn missing_cars_did_not_finish() {
    let mut cache = OfficialRaceCache::new();
    let mut in_pit = sample(2, 1, 20.0);
    in_pit.row.in_pit = true;
    let rows =
        cache.finish_rows(&vec![sample(3, 2, 30.0), in_pit, sample(1, 1, 10.0)], &vec![None; 3]);
    let placed: Vec<(u64, u32, u32)> =
        rows.iter().map(|r| (r.car_id, r.position, r.laps_behind)).collect();
    assert_eq!(placed, vec![(3, 1, 0), (2, 2, 1), (1, 3, 1)]);
    assert!(rows[1].in_pit);

    let rows = cache.finish_rows(&vec![sample(3, 2, 40.0)], &vec![None]);
    let shown: Vec<(u64, u32, RaceTableEntryStatus, bool)> =
        rows.iter().map(|r| (r.car_id, r.position, r.status, r.in_pit)).collect();
    assert_eq!(
        shown,
        vec![
            (3, 1, RaceTableEntryStatus::Active, false),
            (1, 2, RaceTableEntryStatus::Dnf, false),
            (2, 3, RaceTableEntryStatus::Dnf, false),
        ]
    );
    let rows = cache.finish_rows(&vec![sample(3, 2, 50.0), sample(1, 1, 20.0)], &vec![None, None]);
    let shown: Vec<(u64, RaceTableEntryStatus)> = rows.iter().map(|r| (r.car_id, r.status)).collect();
    assert_eq!(
        shown,
        vec![
            (3, RaceTableEntryStatus::Active),
            (1, RaceTableEntryStatus::Active),
            (2, RaceTableEntryStatus::Dnf),
        ]
    );
}

#[test]
fn other_race_begins_afresh() {
    let mut cache = OfficialRaceCache::new();
    cache.begin_table("official-race:a", 5_000);
    cache.finish_rows(&vec![sample(1, 0, 10.0)], &vec![None]);
    cache.begin_table("official-race:a", 4_900);
    assert!(cache.last_active_rows.contains_key(1));
    cache.begin_table("official-race:a", 4_799);
    assert!(!cache.last_active_rows.contains_key(1));
    assert_eq!(cache.last_race_elapsed_ms, Some(4_799));
    cache.finish_rows(&vec![sample(1, 0, 10.0)], &vec![None]);
    cache.begin_table("official-race:b", 9_000);
    assert!(!cache.last_active_rows.contains_key(1));
    assert_eq!(cache.session_marker.as_deref(), Some("official-race:b"));
}

#[test]
fn progress_is_measured_from_the_start() {
    let mut cache = OfficialRaceCache::new();
    assert_eq!(cache.start_progress(&vec![1, 2], &vec![10, 20]), vec![10, 20]);
    assert_eq!(cache.start_progress(&vec![2, 3], &vec![99, 30]), vec![20, 30]);
    assert_eq!(cache.start_progress(&vec![1], &vec![11]), vec![11]);
    let mut cache = moving(OfficialRaceCache::new(), 1);
    assert_eq!(cache.last_point(1), Some(point(30.0, 3_000)));
    cache.retain_trajectories(&vec![2]);
    assert_eq!(cache.last_point(1), None);
}

#[test]
fn distance_counts_from_the_first_table_of_a_car() {
    let mut cache = OfficialRaceCache::new();
    let table = |cache: &mut OfficialRaceCache, elapsed_ms: u64, cars: &[(u64, u64)]| -> Vec<u64> {
        cache.begin_table("official-race:a", elapsed_ms);
        let ids: Vec<u64> = cars.iter().map(|c| c.0).collect();
        let progress: Vec<u64> = cars.iter().map(|c| c.1).collect();
        let starts = cache.start_progress(&ids, &progress);
        let entries = ids.iter().map(|id| sample(*id, 0, 10.0)).collect();
        cache.finish_rows(&entries, &vec![None; cars.len()]);
        starts
    };
    assert_eq!(table(&mut cache, 1_000, &[(1, 10), (2, 20)]), vec![10, 20]);
    assert_eq!(table(&mut cache, 2_000, &[(2, 28), (1, 19)]), vec![20, 10]);
    assert_eq!(table(&mut cache, 3_000, &[(2, 36)]), vec![20]);
    assert_eq!(table(&mut cache, 4_000, &[(1, 40), (2, 50)]), vec![40, 20]);
    cache.begin_table("official-race:b", 0);
    assert_eq!(cache.start_progress(&vec![2], &vec![3]), vec![3]);
}

#[test]
fn tables_hold_each_car_once_and_in_order() {
    let mut cache = OfficialRaceCache::new();
    let first = vec![sample(4, 2, 30.0), sample(9, 1, 20.0), sample(2, 1, 10.0)];
    cache.finish_rows(&first, &vec![None; 3]);
    let rows = cache.finish_rows(&vec![sample(9, 2, 40.0), sample(5, 1, 5.0)], &vec![None, None]);
    let cars: Vec<u64> = rows.iter().map(|r| r.car_id).collect();
    assert_eq!(cars, vec![9, 5, 2, 4]);
    let places: Vec<u32> = rows.iter().map(|r| r.position).collect();
    assert_eq!(places, vec![1, 2, 3, 4]);
    assert_eq!(cache.archived_dnf_rows.get(2).unwrap().car_id, 2);
    assert_eq!(cache.last_active_rows.get(9).unwrap().car_id, 9);
}

#[test]
fn official_teams_are_named() {
    let mut cache = OfficialRaceCache::new();
    let mut rows = cache.finish_rows(&vec![sample(1, 0, 10.0)], &vec![None]);
    name_official_teams(&mut rows, Some(&names()));
    assert_eq!(rows[0].team.team_name, "The Team");
    assert_eq!(rows[0].team.team_id, "t");
    name_official_teams(&mut rows, None);
    assert_eq!(rows[0].team.team_name, "failed to fetch");
}
