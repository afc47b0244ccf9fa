use game_server::engine::{
    EngineActiveLocalRaceState, EngineActiveSandboxState, EngineActivityKind, EngineCommandTarget,
    EngineRuntimeState, EngineRuntimeTimeOfDayPreset,
};
use game_server::float_bits::F32Bits;
use game_server::mappers::{Controls, EngineGearShift, WireGearShift};
use game_server::mode::BackendMode;
use game_server::participant::stream::{ParticipantCommandRejectReason, ParticipantCommandStatus};
use game_server::race::bot_logs::{
    is_log_current, require_team_log, truncate_line_tail, LogFollower, LogWindow, MAX_CHARS,
    MAX_LINES,
};
use game_server::race::commands::{
    check_quick_join, on_back_to_track, on_dev_controls, on_emergency_pitstop,
    on_next_pit_tire_type, on_request_pitstop, require_local, require_official, require_token,
};
use game_server::race::frame_hub::{
    collect_cars, collect_frame, next_tick, plan_car_reads, plan_frame, CarReply,
    FrameCollectorCache, FrameReplies, MetricsReply, RuntimeFrame, SandboxReply, StateReply,
    VehicleRaceMetrics, VehicleState,
};
use game_server::race::runtime_store::{
    RaceRuntimeStore, RuntimeCarIdentity, RuntimePitEntrySource, RuntimePitTireType,
    VehiclePitReading, PIT_HISTORY_MAX_ENTRIES,
};
use game_server::race::spectator::{
    begin_frontend_cleanup, finish_frontend_cleanup, resolve_owned_cleanup_car, spectator_debug,
    visible_cars, FrontendCleanup,
};
use game_server::race::stream_settings::{
    build_stream_settings, normalize_requested_view, resolve_participant_map_id,
    resolve_participant_rate, resolve_runtime_map_id, resolve_stream_rate, resolve_stream_target,
    resolve_view, select_quick_join_sandbox, SpectatorTarget, SpectatorView, StreamClampReason,
    ViewDowngradeReason,
};
use game_server::race::world::{
    quick_join, resolve_controls_car, resolve_single_car_id, ControlsSender,
};
use game_server::status::Code;

fn bits(x: f32) -> F32Bits {
    F32Bits { bits: x.to_bits() }
}

fn sandbox(id: &str) -> EngineCommandTarget {
    EngineCommandTarget::Sandbox { sandbox_id: id.to_string() }
}

fn standing() -> VehiclePitReading {
    VehiclePitReading { in_fix_zone: true, wheels_in_pitstop: 4, speed: bits(0.0) }
}

fn rolling() -> VehiclePitReading {
    VehiclePitReading { in_fix_zone: true, wheels_in_pitstop: 4, speed: bits(0.5) }
}

fn state(telemetry: u32) -> VehicleState<u32> {
    VehicleState { in_any_pit_zone: false, pit: rolling(), telemetry }
}

fn join(store: &mut RaceRuntimeStore, target: EngineCommandTarget, engine_car_id: u64) -> u64 {
    let car_id = store.allocate_public_car_id();
    store.mark_known_car(car_id);
    store.set_car_target(car_id, target);
    store.set_car_engine_id(car_id, engine_car_id);
    car_id
}

fn runtime(kind: EngineActivityKind, sandboxes: &[(&str, &str)]) -> EngineRuntimeState {
    EngineRuntimeState {
        revision: 1,
        activity_kind: kind,
        map_id: "base".to_string(),
        time_of_day_preset: EngineRuntimeTimeOfDayPreset::Noon,
        active_sandboxes: sandboxes
            .iter()
            .map(|(id, map)| EngineActiveSandboxState {
                sandbox_id: id.to_string(),
                map_id: map.to_string(),
                time_of_day_preset: EngineRuntimeTimeOfDayPreset::Noon,
            })
            .collect(),
        active_local_race: None,
    }
}

#[test]
fn car_ids_are_dealt_in_order() {
    let mut store = RaceRuntimeStore::new();
    assert_eq!(store.allocate_public_car_id(), 1);
    assert_eq!(store.allocate_public_car_id(), 2);
    assert_eq!(store.allocate_public_car_id(), 3);
}

#[test]
fn removed_cars_keep_their_ids() {
    let mut store = RaceRuntimeStore::new();
    let first = join(&mut store, EngineCommandTarget::OfficialRace, 7);
    store.remove_car(first);
    assert!(store.known_car_ids().is_empty());
    let second = join(&mut store, EngineCommandTarget::OfficialRace, 7);
    store.remove_car_state(second);
    let third = store.allocate_public_car_id();
    assert_eq!((first, second, third), (1, 2, 3));
}

#[test]
fn bot_indices_are_dealt_by_sandbox_and_user() {
    let mut store = RaceRuntimeStore::new();
    let first = store.allocate_local_bot_index("s", "u");
    assert_eq!(store.allocate_local_bot_index("s", "u"), first + 1);
    assert_eq!(store.allocate_local_bot_index("s", "v"), first);
    assert_eq!(store.allocate_local_bot_index("t", "u"), first);
    assert_eq!(store.allocate_local_bot_index("s", "u"), first + 2);
}

#[test]
fn what_is_recorded_of_a_car_is_read_back() {
    let mut store = RaceRuntimeStore::new();
    let car = join(&mut store, sandbox("s"), 70);
    let other = join(&mut store, EngineCommandTarget::OfficialRace, 71);
    store.set_car_identity(
        car,
        RuntimeCarIdentity { team_id: Some("team".to_string()), ..RuntimeCarIdentity::default() },
    );
    store.set_last_client_seq(car, 9);
    store.set_controls_input(car, bits(0.25), bits(0.5), bits(0.75), bits(1.0));

    assert!(matches!(
        store.car_target(car),
        Some(EngineCommandTarget::Sandbox { sandbox_id }) if sandbox_id == "s"
    ));
    assert_eq!(store.car_engine_id(car), Some(70));
    assert_eq!(store.car_identity(car).unwrap().team_id.as_deref(), Some("team"));
    assert_eq!(store.car_last_client_seq(car), 9);
    let input = store.controls_input_snapshot(car);
    assert_eq!(input.input_throttle, bits(0.25));
    assert_eq!(input.input_brake, bits(0.5));
    assert_eq!(input.current_brake_balancer, bits(0.75));
    assert_eq!(input.current_differential_lock, bits(1.0));

    assert_eq!(store.car_engine_id(other), Some(71));
    assert!(store.car_identity(other).is_none());
    assert_eq!(store.car_last_client_seq(other), 0);
    assert_eq!(store.car_engine_id(99), None);
}

#[test]
fn removing_a_car_twice_is_removing_it_once() {
    let mut store = RaceRuntimeStore::new();
    let car = join(&mut store, sandbox("s"), 70);
    let other = join(&mut store, sandbox("s"), 71);
    store.set_car_owner(car, "instance");
    store.set_instance_car("instance", car);
    assert_eq!(store.instance_car("instance"), Some(car));
    for _ in 0..2 {
        store.remove_car(car);
        assert_eq!(store.known_car_ids(), vec![other]);
        assert_eq!(store.car_ids(), vec![other]);
        assert_eq!(store.instance_car("instance"), None);
        assert_eq!(store.car_owner(car), None);
        assert!(store.car_target(car).is_none());
        assert_eq!(store.car_engine_id(other), Some(71));
    }
}

#[test]
fn removal_leaves_an_instance_that_drives_another_car() {
    let mut store = RaceRuntimeStore::new();
    let car = join(&mut store, sandbox("s"), 70);
    store.set_car_owner(car, "instance");
    store.set_instance_car("instance", 55);
    store.remove_car(car);
    assert_eq!(store.instance_car("instance"), Some(55));
}

#[test]
fn car_given_up_keeps_its_identity() {
    let mut store = RaceRuntimeStore::new();
    let car = join(&mut store, sandbox("s"), 70);
    store.set_car_identity(
        car,
        RuntimeCarIdentity { subject: Some("me".to_string()), ..RuntimeCarIdentity::default() },
    );
    store.remove_car_state(car);
    assert!(store.known_car_ids().is_empty());
    assert!(store.car_target(car).is_none());
    assert_eq!(store.car_engine_id(car), None);
    assert_eq!(store.car_identity(car).unwrap().subject.as_deref(), Some("me"));
}

#[test]
fn sandbox_cars_are_counted() {
    let mut store = RaceRuntimeStore::new();
    join(&mut store, sandbox("a"), 1);
    join(&mut store, sandbox("b"), 2);
    join(&mut store, sandbox("a"), 3);
    join(&mut store, EngineCommandTarget::OfficialRace, 4);
    let mut counts: Vec<(String, u32)> = store
        .active_car_counts_by_sandbox()
        .into_iter()
        .map(|c| (c.sandbox_id, c.count))
        .collect();
    counts.sort();
    assert_eq!(counts, vec![("a".to_string(), 2), ("b".to_string(), 1)]);
}

#[test]
fn pit_stop_is_recorded_once_until_the_car_moves() {
    let mut store = RaceRuntimeStore::new();
    store.set_next_pit_tire_type(1, RuntimePitTireType::Wet);
    let first = store.update_pit_state_from_runtime(1, standing(), Some(3), 1_000);
    assert_eq!(first.history.len(), 1);
    assert_eq!(first.history[0].pit_time_ms, 1_000);
    assert_eq!(first.history[0].lap, 3);
    assert_eq!(first.history[0].source, RuntimePitEntrySource::BotDecision);
    assert_eq!(first.history[0].new_tire_type, RuntimePitTireType::Wet);
    let second = store.update_pit_state_from_runtime(1, standing(), Some(3), 2_000);
    assert_eq!(second.history.len(), 1);
    assert_eq!(second.last_pit_time_ms, 1_000);
    store.update_pit_state_from_runtime(1, rolling(), Some(3), 3_000);
    let third = store.update_pit_state_from_runtime(1, standing(), None, 4_000);
    assert_eq!(third.history.len(), 2);
    assert_eq!(third.history[0].pit_time_ms, 4_000);
    assert_eq!(third.history[0].lap, 0);
    assert_eq!(third.last_pit_lap, 0);
}

#[test]
fn stop_counts_only_on_four_wheels_in_the_zone() {
    let mut store = RaceRuntimeStore::new();
    let three = VehiclePitReading { wheels_in_pitstop: 3, ..standing() };
    let outside = VehiclePitReading { in_fix_zone: false, ..standing() };
    let backwards = VehiclePitReading { speed: bits(-0.0), ..standing() };
    assert!(store.update_pit_state_from_runtime(1, three, None, 1).history.is_empty());
    assert!(store.update_pit_state_from_runtime(1, outside, None, 2).history.is_empty());
    assert_eq!(store.update_pit_state_from_runtime(1, backwards, None, 3).history.len(), 1);
}

#[test]
fn stop_source_prefers_the_emergency() {
    let mut store = RaceRuntimeStore::new();
    store.set_pit_request_active(1, true);
    let requested = store.update_pit_state_from_runtime(1, standing(), None, 10);
    assert_eq!(requested.last_pit_source, RuntimePitEntrySource::Requested);
    assert!(!requested.pit_request_active);
    store.update_pit_state_from_runtime(1, rolling(), None, 20);
    store.set_pit_request_active(1, true);
    store.mark_emergency_pitstop_requested(1, 30);
    let emergency = store.update_pit_state_from_runtime(1, standing(), None, 40);
    assert_eq!(emergency.last_pit_source, RuntimePitEntrySource::Emergency);
    assert_eq!(emergency.emergency_lock_remaining_ms, 29_990);
}

#[test]
fn pit_history_keeps_the_newest_stops() {
    let mut store = RaceRuntimeStore::new();
    for stop in 0..40u64 {
        store.update_pit_state_from_runtime(1, standing(), Some(stop as u32), stop);
        store.update_pit_state_from_runtime(1, rolling(), Some(stop as u32), stop);
    }
    let history = store.pit_state_snapshot(1, 50).history;
    assert_eq!(PIT_HISTORY_MAX_ENTRIES, 32);
    assert_eq!(history.len(), 32);
    assert_eq!(history[0].lap, 39);
    assert_eq!(history[31].lap, 8);
}

#[test]
fn locked_driver_stays_idle() {
    let mut store = RaceRuntimeStore::new();
    store.mark_back_to_track_applied(1, 1_000);
    assert!(store.pit_state_snapshot(1, 1_499).force_idle);
    assert!(!store.pit_state_snapshot(1, 1_500).force_idle);
    store.mark_emergency_pitstop_requested(1, 2_000);
    assert!(store.pit_state_snapshot(1, 31_999).force_idle);
    assert_eq!(store.pit_state_snapshot(1, 31_999).emergency_lock_remaining_ms, 1);
    assert!(!store.pit_state_snapshot(1, 32_000).force_idle);
    assert_eq!(store.pit_state_snapshot(1, 32_000).emergency_lock_remaining_ms, 0);
}

#[test]
fn single_car_is_resolved() {
    let mut store = RaceRuntimeStore::new();
    let none = resolve_single_car_id(&store).unwrap_err();
    assert_eq!((none.code, none.message.as_str()), (Code::NotFound, "no car assigned to this client"));
    quick_join(&mut store, 5, &None);
    assert_eq!(resolve_single_car_id(&store).unwrap(), 5);
    assert_eq!(resolve_controls_car(&store, &ControlsSender::Anonymous).unwrap(), 5);
    quick_join(&mut store, 6, &Some("me".to_string()));
    let many = resolve_single_car_id(&store).unwrap_err();
    assert_eq!(
        (many.code, many.message.as_str()),
        (Code::FailedPrecondition, "multiple cars active; use dev controls")
    );
    let token = ControlsSender::Token(Some("me".to_string()));
    assert_eq!(resolve_controls_car(&store, &token).unwrap(), 6);
    let bare = resolve_controls_car(&store, &ControlsSender::Token(None)).unwrap_err();
    assert_eq!(
        (bare.code, bare.message.as_str()),
        (Code::Unauthenticated, "missing instance_uuid claim")
    );
    let unknown = ControlsSender::Token(Some("you".to_string()));
    let unknown = resolve_controls_car(&store, &unknown).unwrap_err();
    assert_eq!((unknown.code, unknown.message.as_str()), (Code::NotFound, "unknown instance_uuid"));
}

#[test]
fn left_world_car_is_forgotten() {
    let mut store = RaceRuntimeStore::new();
    quick_join(&mut store, 5, &Some("me".to_string()));
    quick_join(&mut store, 6, &Some("you".to_string()));
    store.forget_client_car(5);
    assert_eq!(store.known_car_ids(), vec![6]);
    assert_eq!(store.instance_car("me"), None);
    assert_eq!(store.instance_car("you"), Some(6));
}

#[test]
fn commands_belong_to_their_backend() {
    assert!(require_official(BackendMode::Official, "X").is_ok());
    let e = require_official(BackendMode::Local, "X").unwrap_err();
    assert_eq!(
        (e.code, e.message.as_str()),
        (Code::Unimplemented, "X is supported only in official backend mode")
    );
    assert!(require_local(BackendMode::Local, "Y").is_ok());
    let e = require_local(BackendMode::Official, "Y").unwrap_err();
    assert_eq!(
        (e.code, e.message.as_str()),
        (Code::Unimplemented, "Y is supported only in local backend mode")
    );
    assert_eq!(require_token(Some("t".to_string())).unwrap(), "t");
    let e = require_token(None).unwrap_err();
    assert_eq!((e.code, e.message.as_str()), (Code::Unauthenticated, "missing x-ha3-game-token"));
    assert!(check_quick_join(false).is_ok());
    let e = check_quick_join(true).unwrap_err();
    assert_eq!(
        (e.code, e.message.as_str()),
        (Code::FailedPrecondition, "quick join is available only in development/preprod")
    );
}

#[test]
fn commands_are_answered_and_recorded() {
    let mut store = RaceRuntimeStore::new();
    let controls = Controls {
        throttle: bits(1.0),
        brake: bits(0.0),
        brake_balancer: bits(0.5),
        differential_lock: bits(0.0),
        steering: bits(-1.0),
        gear_shift: EngineGearShift::Upshift,
    };
    let answer = on_dev_controls(&mut store, 1, 12, controls, EngineGearShift::Downshift, 40);
    assert_eq!(answer.client_seq, 12);
    assert_eq!(answer.applies_from_tick, 40);
    assert_eq!(answer.accepted_shift, WireGearShift::Downshift);
    assert_eq!(store.car_last_client_seq(1), 12);
    assert_eq!(store.controls_input_snapshot(1).input_throttle, bits(1.0));

    let refused = on_back_to_track(&mut store, 1, false, 41, 1_000);
    assert_eq!(refused.status, ParticipantCommandStatus::Rejected);
    assert_eq!(refused.rejected_reason, ParticipantCommandRejectReason::NotAllowed);
    assert!(!store.pit_state_snapshot(1, 1_001).force_idle);
    let done = on_back_to_track(&mut store, 1, true, 41, 1_000);
    assert_eq!(done.status, ParticipantCommandStatus::Accepted);
    assert_eq!(done.rejected_reason, ParticipantCommandRejectReason::Unspecified);
    assert_eq!(done.applies_from_tick, 41);
    assert!(store.pit_state_snapshot(1, 1_001).force_idle);

    on_request_pitstop(&mut store, 1, true, 42);
    assert!(store.pit_state_snapshot(1, 0).pit_request_active);
    let refused = on_emergency_pitstop(&mut store, 1, false, 43, 5_000);
    assert_eq!(refused.status, ParticipantCommandStatus::Rejected);
    assert_eq!(store.pit_state_snapshot(1, 5_000).emergency_lock_remaining_ms, 0);
    on_emergency_pitstop(&mut store, 1, true, 43, 5_000);
    assert_eq!(store.pit_state_snapshot(1, 5_000).emergency_lock_remaining_ms, 30_000);

    let tire = on_next_pit_tire_type(&mut store, 1, Some(RuntimePitTireType::Soft), 44);
    assert_eq!(tire.status, ParticipantCommandStatus::Accepted);
    let tire = on_next_pit_tire_type(&mut store, 1, None, 45);
    assert_eq!(tire.status, ParticipantCommandStatus::Rejected);
    assert_eq!(store.pit_state_snapshot(1, 0).next_pit_tire_type, RuntimePitTireType::Soft);
}

#[test]
fn stray_cars_leave_the_store() {
    let mut store = RaceRuntimeStore::new();
    let first = join(&mut store, sandbox("s"), 70);
    let stray = store.allocate_public_car_id();
    store.mark_known_car(stray);
    store.set_car_target(stray, sandbox("s"));
    let last = join(&mut store, EngineCommandTarget::OfficialRace, 71);
    let reads = plan_car_reads(&mut store);
    let ids: Vec<(u64, u64)> = reads.iter().map(|r| (r.public_car_id, r.engine_car_id)).collect();
    assert_eq!(ids, vec![(first, 70), (last, 71)]);
    assert_eq!(store.known_car_ids(), vec![first, last]);
    assert!(store.car_target(stray).is_none());
}

#[test]
fn answers_decide_which_cars_are_shown() {
    let mut store = RaceRuntimeStore::new();
    for engine_car_id in 0..6 {
        join(&mut store, EngineCommandTarget::OfficialRace, engine_car_id);
    }
    let in_sandbox = join(&mut store, sandbox("s"), 6);
    store.set_last_client_seq(1, 17);
    let metrics = VehicleRaceMetrics {
        completed_laps: 2,
        lap_progress_m: bits(10.0),
        last_lap_time_ms: Some(60_000),
        best_lap_time_ms: None,
    };
    let reads = plan_car_reads(&mut store);
    let replies = vec![
        CarReply { state: StateReply::State(state(1)), metrics: MetricsReply::Metrics(metrics) },
        CarReply { state: StateReply::NotFound, metrics: MetricsReply::NotRead },
        CarReply { state: StateReply::Failed, metrics: MetricsReply::NotRead },
        CarReply { state: StateReply::State(state(4)), metrics: MetricsReply::NoData },
        CarReply { state: StateReply::State(state(5)), metrics: MetricsReply::NotFound },
        CarReply { state: StateReply::State(state(6)), metrics: MetricsReply::Failed },
        CarReply { state: StateReply::State(state(7)), metrics: MetricsReply::NotRead },
    ];
    let cars = collect_cars(&mut store, reads, replies);
    let shown: Vec<(u64, u32)> = cars.iter().map(|c| (c.public_car_id, c.state.telemetry)).collect();
    assert_eq!(shown, vec![(1, 1), (4, 4), (6, 6), (in_sandbox, 7)]);
    assert_eq!(cars[0].race_metrics, Some(metrics));
    assert_eq!(cars[0].last_client_seq, 17);
    assert_eq!(cars[1].race_metrics, Some(VehicleRaceMetrics::default()));
    assert_eq!(cars[2].race_metrics, None);
    assert_eq!(cars[3].race_metrics, None);
    assert_eq!(store.known_car_ids(), vec![1, 3, 4, 6, in_sandbox]);
}

#[test]
fn lap_lengths_are_read_once_for_a_map() {
    let mut store = RaceRuntimeStore::new();
    let mut cache = FrameCollectorCache::new();
    let official = || Some(runtime(EngineActivityKind::OfficialRace, &[]));
    let plan = plan_frame(&mut store, &mut cache, 1, 100, official());
    assert!(plan.read_official_duration && plan.read_official_track);
    let frame: RuntimeFrame<u32> = collect_frame(
        &mut store,
        &mut cache,
        plan,
        FrameReplies {
            official_race_duration_s: Some(bits(3.0)),
            official_lap_length_m: Some(bits(4_000.0)),
            sandboxes: vec![],
            cars: vec![],
        },
    );
    assert_eq!((frame.tick, frame.server_time_ms), (1, 100));
    assert_eq!(frame.official_race_duration_s, Some(bits(3.0)));
    assert_eq!(frame.official_lap_length_m, Some(bits(4_000.0)));
    let plan = plan_frame(&mut store, &mut cache, 2, 200, official());
    assert!(plan.read_official_duration && !plan.read_official_track);
    let frame: RuntimeFrame<u32> = collect_frame(
        &mut store,
        &mut cache,
        plan,
        FrameReplies {
            official_race_duration_s: None,
            official_lap_length_m: None,
            sandboxes: vec![],
            cars: vec![],
        },
    );
    assert_eq!(frame.official_race_duration_s, None);
    assert_eq!(frame.official_lap_length_m, Some(bits(4_000.0)));
}

#[test]
fn ended_sandboxes_are_dropped_from_the_cache() {
    let mut store = RaceRuntimeStore::new();
    let mut cache = FrameCollectorCache::new();
    let both = Some(runtime(EngineActivityKind::Sandbox, &[("a", "m"), ("b", "n")]));
    let plan = plan_frame(&mut store, &mut cache, 1, 0, both);
    assert_eq!(plan.sandboxes.len(), 2);
    assert!(plan.sandboxes.iter().all(|s| s.read_track));
    let replies = plan
        .sandboxes
        .iter()
        .map(|s| SandboxReply {
            race_duration_s: Some(bits(1.0)),
            lap_length_m: if s.sandbox_id == "a" { Some(bits(100.0)) } else { None },
        })
        .collect();
    let frame: RuntimeFrame<u32> = collect_frame(
        &mut store,
        &mut cache,
        plan,
        FrameReplies {
            official_race_duration_s: None,
            official_lap_length_m: None,
            sandboxes: replies,
            cars: vec![],
        },
    );
    assert_eq!(frame.sandbox_lap_length_m.get("a"), Some(&bits(100.0)));
    assert_eq!(frame.sandbox_lap_length_m.get("b"), None);
    assert_eq!(frame.sandbox_race_duration_s.get("b"), Some(&bits(1.0)));
    let watched = Some(sandbox("a"));
    assert_eq!(spectator_debug(&frame, true, &watched), Some(bits(1.0)));
    assert_eq!(spectator_debug(&frame, false, &watched), None);
    assert_eq!(spectator_debug(&frame, true, &Some(sandbox("c"))), None);

    let again = Some(runtime(EngineActivityKind::Sandbox, &[("a", "m")]));
    let plan = plan_frame(&mut store, &mut cache, 2, 0, again);
    assert_eq!(plan.sandboxes.len(), 1);
    assert!(!plan.sandboxes[0].read_track);
    let moved = Some(runtime(EngineActivityKind::Sandbox, &[("a", "elsewhere")]));
    let plan = plan_frame(&mut store, &mut cache, 3, 0, moved);
    assert!(plan.sandboxes[0].read_track);
    plan_frame(&mut store, &mut cache, 4, 0, Some(runtime(EngineActivityKind::Idle, &[])));
    assert!(cache.sandbox_laps.keys().is_empty());
}

#[test]
fn ticks_wrap_around() {
    assert_eq!(next_tick(7), 8);
    assert_eq!(next_tick(u64::MAX), 0);
}

#[test]
fn spectators_see_the_cars_of_their_session() {
    let mut store = RaceRuntimeStore::new();
    join(&mut store, sandbox("a"), 1);
    join(&mut store, sandbox("b"), 2);
    join(&mut store, sandbox("a"), 3);
    let reads = plan_car_reads(&mut store);
    let replies = (0..3)
        .map(|i| CarReply { state: StateReply::State(state(i)), metrics: MetricsReply::NotRead })
        .collect();
    let cars = collect_cars(&mut store, reads, replies);
    let mut cache = FrameCollectorCache::new();
    let plan = plan_frame(&mut RaceRuntimeStore::new(), &mut cache, 1, 0, None);
    let empty = FrameReplies {
        official_race_duration_s: None,
        official_lap_length_m: None,
        sandboxes: vec![],
        cars: vec![],
    };
    let mut frame = collect_frame(&mut store, &mut cache, plan, empty);
    frame.cars = cars;
    assert_eq!(visible_cars(&frame, &Some(sandbox("a"))), vec![0, 2]);
    assert_eq!(visible_cars(&frame, &Some(EngineCommandTarget::OfficialRace)), Vec::<usize>::new());
}

#[test]
fn spectator_cleans_up_its_car() {
    let mut store = RaceRuntimeStore::new();
    let me = Some("me".to_string());
    assert_eq!(resolve_owned_cleanup_car(&store, &None, &None), None);
    assert_eq!(resolve_owned_cleanup_car(&store, &me, &None), None);
    let in_a = join(&mut store, sandbox("a"), 70);
    let in_b = join(&mut store, sandbox("b"), 71);
    store.set_car_owner(in_a, "me");
    store.set_car_owner(in_b, "me");
    store.set_instance_car("me", in_b);
    assert_eq!(resolve_owned_cleanup_car(&store, &me, &Some(sandbox("a"))), Some(in_a));
    assert_eq!(resolve_owned_cleanup_car(&store, &me, &Some(sandbox("c"))), Some(in_b));

    assert!(matches!(begin_frontend_cleanup(&mut store, None), FrontendCleanup::Nothing));
    assert!(matches!(
        begin_frontend_cleanup(&mut store, Some(in_a)),
        FrontendCleanup::Despawn { car_id, engine_car_id: 70, .. } if car_id == in_a
    ));
    finish_frontend_cleanup(&mut store, in_a);
    assert_eq!(store.known_car_ids(), vec![in_b]);
    store.mark_known_car(90);
    assert!(matches!(
        begin_frontend_cleanup(&mut store, Some(90)),
        FrontendCleanup::GivenUp { car_id: 90 }
    ));
    assert_eq!(store.known_car_ids(), vec![in_b]);
}

#[test]
fn view_is_served_as_far_as_scopes_allow() {
    let none: Vec<String> = vec![];
    let team = vec!["race.read.team".to_string()];
    let all = vec!["other".to_string(), "race.read.all".to_string()];
    let asked = SpectatorView::All;
    assert_eq!(
        resolve_view(asked, &none),
        (SpectatorView::Public, ViewDowngradeReason::NotAuthorized)
    );
    assert_eq!(resolve_view(asked, &team), (SpectatorView::Team, ViewDowngradeReason::NotAuthorized));
    assert_eq!(resolve_view(asked, &all), (SpectatorView::All, ViewDowngradeReason::NotDowngraded));
    assert_eq!(
        resolve_view(SpectatorView::Team, &all),
        (SpectatorView::Team, ViewDowngradeReason::NotDowngraded)
    );
    assert_eq!(normalize_requested_view(None), SpectatorView::Public);
    assert_eq!(normalize_requested_view(Some(SpectatorView::Unspecified)), SpectatorView::Public);
    assert_eq!(normalize_requested_view(Some(SpectatorView::All)), SpectatorView::All);
}

#[test]
fn stream_rates_are_limited() {
    let rate = resolve_stream_rate(0, 60);
    assert_eq!((rate.requested_hz, rate.effective_hz), (20, 20));
    assert_eq!(rate.clamp_reason, StreamClampReason::NotClamped);
    let rate = resolve_stream_rate(500, 1_000);
    assert_eq!((rate.requested_hz, rate.effective_hz), (500, 120));
    assert_eq!(rate.clamp_reason, StreamClampReason::ServerLimit);
    assert_eq!(resolve_stream_rate(100, 60).effective_hz, 60);
    assert_eq!(resolve_participant_rate(60).effective_hz, 30);
    assert_eq!(resolve_participant_rate(0).effective_hz, 1);
    let settings = build_stream_settings(
        rate,
        SpectatorView::Team,
        ViewDowngradeReason::NotAuthorized,
        "monza",
    );
    assert_eq!(settings.requested_hz, 500);
    assert_eq!(settings.effective_hz, 120);
    assert_eq!(settings.resolved_view, SpectatorView::Team);
    assert_eq!(settings.view_downgrade_reason, ViewDowngradeReason::NotAuthorized);
    assert_eq!(settings.map_id, "monza");
}

#[test]
fn map_of_a_session_is_found() {
    let one = runtime(EngineActivityKind::Sandbox, &[("a", "m")]);
    let two = runtime(EngineActivityKind::Sandbox, &[("a", "m"), ("b", "n")]);
    assert_eq!(resolve_runtime_map_id(&two, &Some(sandbox("b"))), "n");
    assert_eq!(resolve_runtime_map_id(&two, &Some(sandbox("c"))), "base");
    assert_eq!(resolve_runtime_map_id(&one, &Some(sandbox("c"))), "m");
    assert_eq!(resolve_runtime_map_id(&one, &None), "m");
    let mut local = runtime(EngineActivityKind::LocalRace, &[]);
    local.active_local_race =
        Some(EngineActiveLocalRaceState { race_id: "r".to_string(), map_id: "q".to_string() });
    let in_race = EngineCommandTarget::LocalRace { race_id: "r".to_string() };
    let in_other = EngineCommandTarget::LocalRace { race_id: "x".to_string() };
    let local = Some(local);
    assert_eq!(resolve_participant_map_id(&local, &in_race), "q");
    assert_eq!(resolve_participant_map_id(&local, &in_other), "base");
    assert_eq!(resolve_participant_map_id(&None, &in_race), "");
    assert_eq!(resolve_participant_map_id(&Some(one), &sandbox("a")), "m");
}

#[test]
fn sandbox_to_join_is_chosen() {
    let none = runtime(EngineActivityKind::Idle, &[]);
    let one = runtime(EngineActivityKind::Sandbox, &[("a", "m")]);
    let two = runtime(EngineActivityKind::Sandbox, &[("a", "m"), ("b", "n")]);
    let e = select_quick_join_sandbox(&none, "a").unwrap_err();
    assert_eq!((e.code, e.message.as_str()), (Code::FailedPrecondition, "sandbox runtime is not active"));
    assert_eq!(select_quick_join_sandbox(&one, "  ").unwrap(), 0);
    assert_eq!(select_quick_join_sandbox(&two, " b ").unwrap(), 1);
    let e = select_quick_join_sandbox(&two, " c").unwrap_err();
    assert_eq!(
        (e.code, e.message.as_str()),
        (Code::NotFound, "sandbox runtime is not active for sandbox_id=c")
    );
    let e = select_quick_join_sandbox(&two, "").unwrap_err();
    assert_eq!(
        (e.code, e.message.as_str()),
        (
            Code::FailedPrecondition,
            "sandbox_id is required when multiple sandbox sessions are active"
        )
    );
}

#[test]
fn spectator_target_is_resolved() {
    let one = runtime(EngineActivityKind::Sandbox, &[("a", "m")]);
    let official = runtime(EngineActivityKind::OfficialRace, &[]);
    let e = resolve_stream_target(&None, &one).unwrap_err();
    assert_eq!((e.code, e.message.as_str()), (Code::InvalidArgument, "spectator target must be set"));
    let race = Some(SpectatorTarget::OfficialRace);
    assert!(resolve_stream_target(&race, &official).unwrap().is_official_race());
    let e = resolve_stream_target(&race, &one).unwrap_err();
    assert_eq!(
        (e.code, e.message.as_str()),
        (Code::FailedPrecondition, "official race runtime is not active")
    );
    let blank = Some(SpectatorTarget::Sandbox { sandbox_id: " ".to_string() });
    let e = resolve_stream_target(&blank, &one).unwrap_err();
    assert_eq!(
        (e.code, e.message.as_str()),
        (Code::InvalidArgument, "sandbox_id is required for sandbox spectator target")
    );
    let named = Some(SpectatorTarget::Sandbox { sandbox_id: " a ".to_string() });
    assert!(resolve_stream_target(&named, &one).unwrap().is_same(&sandbox("a")));
    assert_eq!(resolve_stream_target(&named, &official).unwrap_err().code, Code::FailedPrecondition);
}

#[test]
fn long_lines_lose_their_start() {
    let (line, length, cut) = truncate_line_tail("abcdef".to_string(), 4);
    assert_eq!((line.as_str(), length, cut), ("cdef", 4, true));
    let (line, length, cut) = truncate_line_tail("\u{e9}\u{e8}".to_string(), 2);
    assert_eq!((line.as_str(), length, cut), ("\u{e9}\u{e8}", 2, false));
}

#[test]
fn log_window_opens_as_far_back_as_it_fits() {
    let mut window = LogWindow::new();
    for i in 0..MAX_LINES + 2 {
        window = window.push_line(format!("{}", i % 10));
    }
    let shown = window.into_snapshot();
    assert_eq!(shown.lines.len(), MAX_LINES);
    assert!(shown.truncated);
    assert_eq!(shown.lines[0], "2");

    let mut window = LogWindow::new();
    window = window.push_line("first".to_string());
    window = window.push_line("x".repeat(MAX_CHARS - 3));
    window = window.push_line("end".to_string());
    let shown = window.into_snapshot();
    assert_eq!(shown.lines.len(), 2);
    assert_eq!(shown.lines[1], "end");
    assert!(shown.truncated);

    let shown = LogWindow::new().push_line("y".repeat(MAX_CHARS + 1)).into_snapshot();
    assert_eq!(shown.lines[0].len(), MAX_CHARS);
    assert!(shown.truncated);
    let shown = LogWindow::new().push_line("only".to_string()).into_snapshot();
    assert_eq!(shown.lines, vec!["only".to_string()]);
    assert!(!shown.truncated);
}

#[test]
fn followed_lines_do_not_depend_on_the_reads() {
    let mut follower = LogFollower::new(10);
    assert_eq!(follower.on_read("one\r\ntw", 7), vec!["one".to_string()]);
    assert_eq!(follower.on_read("o\n\nthr", 6), vec!["two".to_string(), String::new()]);
    assert_eq!((follower.offset, follower.pending.as_str()), (23, "thr"));
    let mut whole = LogFollower::new(10);
    assert_eq!(whole.on_read("one\r\ntwo\n\nthr", 13), vec!["one", "two", ""]);
    assert_eq!((whole.offset, whole.pending.as_str()), (23, "thr"));
    whole.on_file_size(23);
    assert_eq!(whole.pending, "thr");
    whole.on_file_size(22);
    assert_eq!((whole.offset, whole.pending.as_str()), (0, ""));
}

#[test]
fn appended_bytes_are_read_as_text() {
    let mut follower = LogFollower::new(0);
    let lines = follower.on_bytes(&b"caf\xc3\xa9\r\nbad \xff\nrest".to_vec());
    assert_eq!(lines, vec!["caf\u{e9}".to_string(), "bad \u{fffd}".to_string()]);
    assert_eq!((follower.offset, follower.pending.as_str()), (17, "rest"));
    assert!(follower.on_bytes(&vec![]).is_empty());
    assert_eq!((follower.offset, follower.pending.as_str()), (17, "rest"));
}

#[test]
fn any_number_of_reads_gives_the_same_lines() {
    let text = "one\ntwo\r\n\nthree\nfour";
    let mut whole = LogFollower::new(5);
    let lines = whole.on_read(text, text.len() as u64);
    for size in 1..text.len() {
        let mut follower = LogFollower::new(5);
        let mut found: Vec<String> = vec![];
        let mut from = 0;
        while from < text.len() {
            let to = text.len().min(from + size);
            found.extend(follower.on_read(&text[from..to], (to - from) as u64));
            from = to;
        }
        assert_eq!(found, lines);
        assert_eq!(follower.pending, whole.pending);
        assert_eq!(follower.offset, whole.offset);
    }
}

#[test]
fn team_log_must_be_known() {
    assert_eq!(require_team_log(Some("/logs/a".to_string())).unwrap(), "/logs/a");
    assert_eq!(require_team_log(None).unwrap_err().code, Code::NotFound);
    assert!(is_log_current(&Some("/logs/a".to_string()), "/logs/a"));
    assert!(!is_log_current(&Some("/logs/b".to_string()), "/logs/a"));
    assert!(!is_log_current(&None, "/logs/a"));
}
