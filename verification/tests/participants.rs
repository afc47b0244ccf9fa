use game_server::engine::{
    EngineActiveSandboxState, EngineActivityKind, EngineCommandTarget, EngineRuntimeState,
    EngineRuntimeTimeOfDayPreset, EngineWorkerError,
};
use game_server::float_bits::F32Bits;
use game_server::mappers::{
    EngineGearShift, EngineGhostModePhase, Gear, GhostModeBlockerFlags, GhostModeRuntimeState,
    PerWheel, TyreType, WireControls, WireGearShift,
};
use game_server::mode::BackendMode;
use game_server::participant::bots::{
    begin_slot_switch, find_bot_in_container, finish_slot_switch,
    handle_unrecoverable_official_race_bot_exit, has_restarts_left, is_car_matching,
    is_slot_switch_due, on_hard_tyres, reconcile_official_race_bot_liveness,
    record_refresh, record_restart, remove_exited_bot, restart_delay_ms, Tally, UnrecoverableExit,
};
use game_server::participant::cleanup::{
    begin_participant_cleanup, finish_participant_cleanup, CleanupPlan,
};
use game_server::participant::exit_monitor::{
    wants_log_tail, ExitAction, ExitMonitor, NewContainer, RestartPlan,
};
use game_server::participant::join::{
    car_label, check_local_race_join, local_race_start_slot, map_local_race_state_err,
    place_for_spawn_mode, register_local_race_car, register_official_race_runtime_car,
    register_sandbox_car, LocalRaceJoin, LocalRaceStateError, LocalSandboxSpawnModeRecord,
    Placement, RaceParticipantServiceImpl, TokenClaims, FIRST_STREAM_SEQ,
};
use game_server::participant::joining::{
    begin_sandbox_join, on_driver_registered, on_race_car_placed, on_race_car_spawned,
    on_sandbox_car_placed, on_slots_read, on_spawn_mode, Undo,
};
use game_server::participant::launch::{
    resolve_lowest_runnable_slot_submission, resolve_slot_submission_image, roll_back,
    LaunchSession, OfficialRaceTeamResultEntry, PendingTeam, Runnable, SlotSubmission, SpawnedTeam,
    StartStatus, TeamStep, TurnStart,
};
use game_server::participant::launcher::{
    close_session_switch, finish_bot_cleanup, finish_stale_car, forget_bot, open_session_switch,
    plan_bot_cleanups, RaceLauncher, SessionWork,
};
use game_server::participant::logs::{
    build_log_header, build_official_race_bot_log_path, combine_log_tail, follow_ended_line,
    follow_failed_line, log_line, read_error_line, read_log_tail, replace_unsafe_chars,
    sanitize_storage_component, short_container_id, show_moment, team_logs_dir, utc_text,
};
use game_server::participant::official::{
    car_id_header, find_team_cars, official_race_grid_positions, parse_standalone_car_id,
    prepare_official_join, registration_of, require_team_official_race_car, required_team_id,
    resolve_instance_stream_car, resolve_standalone_stream_car, resolve_team_official_car,
    resolve_team_official_race_car, resolve_team_stream_car, stale_official_cars, CarIdHeader,
    OfficialSandboxJoin, TeamCars, TeamOfficialRaceBotState,
};
use game_server::participant::registry::OfficialRaceBots;
use game_server::participant::results::{
    baseline_for, find_race_metrics, OfficialRaceResultsRecorder, ResultsStatus, TeamReading,
};
use game_server::participant::roster::{
    race_time_of_day_preset_to_engine, read_official_race_team_ids, RaceTimeOfDayPreset,
};
use game_server::participant::stream::{
    CarDimensions, CleanupReason, ParticipantClientPayload, ParticipantCommandRejectReason,
    ParticipantCommandStatus, ParticipantCommandType, ParticipantServerPayload, ParticipantStream,
    StreamAction, StreamFacts,
};
use game_server::race::frame_hub::{
    RuntimeCarFrame, RuntimeFrame, VehicleRaceMetrics, VehicleState,
};
use game_server::race::runtime_store::{RaceRuntimeStore, RuntimePitTireType, VehiclePitReading};
use game_server::race::stream_settings::{SpectatorView, ViewDowngradeReason};
use game_server::status::{Code, Status};
use game_server::telemetry::{self, CommandCooldownState, Quaternion, Vector3};
use game_server::text_map::TextMap;
use tonic::metadata::{MetadataMap, MetadataValue};

fn bits(x: f32) -> F32Bits {
    F32Bits { bits: x.to_bits() }
}

fn sandbox(id: &str) -> EngineCommandTarget {
    EngineCommandTarget::Sandbox { sandbox_id: id.to_string() }
}

fn local_race() -> EngineCommandTarget {
    EngineCommandTarget::LocalRace { race_id: "r".to_string() }
}

fn bot(public_car_id: u64) -> TeamOfficialRaceBotState {
    TeamOfficialRaceBotState {
        public_car_id,
        engine_car_id: public_car_id + 100,
        start_position_index: 1,
        slot_index: 1,
        container_name: "bot".to_string(),
        container_id: "c1".to_string(),
        submission_id: "sub".to_string(),
        image_ref: "image".to_string(),
        log_file_path: "log".to_string(),
        auto_restart_attempts: 3,
    }
}

fn bots_of(team: &str, state: TeamOfficialRaceBotState) -> OfficialRaceBots {
    let mut bots = OfficialRaceBots::new();
    bots.insert(team.to_string(), state);
    bots
}

fn runtime(kind: EngineActivityKind) -> EngineRuntimeState {
    EngineRuntimeState {
        revision: 8,
        activity_kind: kind,
        map_id: "base".to_string(),
        time_of_day_preset: EngineRuntimeTimeOfDayPreset::Night,
        active_sandboxes: vec![EngineActiveSandboxState {
            sandbox_id: "s".to_string(),
            map_id: "m".to_string(),
            time_of_day_preset: EngineRuntimeTimeOfDayPreset::Noon,
        }],
        active_local_race: None,
    }
}

fn car(public_car_id: u64, target: EngineCommandTarget, timed: bool) -> RuntimeCarFrame<()> {
    RuntimeCarFrame {
        public_car_id,
        engine_car_id: public_car_id + 100,
        target,
        state: VehicleState {
            in_any_pit_zone: false,
            pit: VehiclePitReading { in_fix_zone: false, wheels_in_pitstop: 0, speed: bits(1.0) },
            telemetry: (),
        },
        race_metrics: if timed { Some(VehicleRaceMetrics::default()) } else { None },
        last_client_seq: public_car_id * 10,
        identity: None,
    }
}

fn full_car(
    public_car_id: u64,
    target: EngineCommandTarget,
) -> RuntimeCarFrame<telemetry::VehicleState> {
    let x = public_car_id as f32;
    let wheels = PerWheel {
        front_left: bits(x),
        front_right: bits(x),
        rear_left: bits(x),
        rear_right: bits(x),
    };
    let bare = car(public_car_id, target, false);
    RuntimeCarFrame {
        public_car_id,
        engine_car_id: bare.engine_car_id,
        target: bare.target,
        state: VehicleState {
            in_any_pit_zone: false,
            pit: bare.state.pit,
            telemetry: telemetry::VehicleState {
                chassis_position: Vector3 { x: bits(x), y: bits(0.0), z: bits(0.0) },
                vehicle_orientation: Quaternion {
                    x: bits(0.0),
                    y: bits(0.0),
                    z: bits(0.0),
                    w: bits(1.0),
                },
                speed: bits(x),
                engine_rpm: bits(x),
                gear: Gear::Neutral,
                ghost_mode_runtime: GhostModeRuntimeState {
                    can_collide_now: true,
                    phase: EngineGhostModePhase::PendingEnter,
                    blockers: GhostModeBlockerFlags {
                        laps_requirement_not_met: false,
                        exit_speed_not_met: false,
                        exit_delay_running: false,
                        vehicle_overlap_active: false,
                        overlap_exit_delay_running: false,
                        in_pit: false,
                    },
                    exit_delay_remaining_ms: 0,
                },
                pitstop_zone_mask: 0,
                wheels_in_pitstop: 0,
                tyre_type: TyreType::Hard,
                tyre_health: wheels,
                tyre_temperature_celsius: wheels,
                tyre_slip: wheels,
                wheel_speeds: wheels,
                front_left_wheel_orientation_rad: bits(0.0),
                front_right_wheel_orientation_rad: bits(0.0),
            },
        },
        race_metrics: None,
        last_client_seq: bare.last_client_seq,
        identity: None,
    }
}

fn tick(
    s: &mut ParticipantStream,
    cars: Vec<RuntimeCarFrame<telemetry::VehicleState>>,
) -> StreamAction {
    let shown = RuntimeFrame {
        tick: 77,
        server_time_ms: 5_000,
        runtime_state: None,
        cars,
        official_race_duration_s: None,
        sandbox_race_duration_s: TextMap::new(),
        official_lap_length_m: None,
        sandbox_lap_length_m: TextMap::new(),
    };
    let pit_state = RaceRuntimeStore::new().pit_state_snapshot(s.car_id, 5_000);
    let cooldowns = CommandCooldownState {
        back_to_track_remaining_ms: 3,
        emergency_pitstop_remaining_ms: 4,
    };
    s.on_tick(&shown, &pit_state, cooldowns)
}

fn frame(cars: Vec<RuntimeCarFrame<()>>) -> RuntimeFrame<()> {
    RuntimeFrame {
        tick: 77,
        server_time_ms: 5_000,
        runtime_state: None,
        cars,
        official_race_duration_s: None,
        sandbox_race_duration_s: TextMap::new(),
        official_lap_length_m: None,
        sandbox_lap_length_m: TextMap::new(),
    }
}

fn facts() -> StreamFacts {
    StreamFacts {
        tick: 40,
        server_time_ms: 1_000,
        local_race_closed: false,
        back_to_track_cooldown_ms: 0,
        emergency_pitstop_cooldown_ms: 0,
        in_pit: false,
    }
}

fn stream(mode: BackendMode, target: EngineCommandTarget) -> ParticipantStream {
    let scopes = vec!["race.read.team".to_string()];
    ParticipantStream::new(mode, 60, &scopes, &None, 1, 101, target)
}

fn started(mode: BackendMode, target: EngineCommandTarget) -> ParticipantStream {
    let mut s = stream(mode, target);
    let mut store = RaceRuntimeStore::new();
    s.on_message(Some(ParticipantClientPayload::Init), &facts(), &mut store);
    s.on_dimensions(None);
    s
}

fn controls(client_seq: u64, gear_shift: Option<WireGearShift>) -> ParticipantClientPayload {
    ParticipantClientPayload::Controls {
        client_seq,
        controls: WireControls {
            throttle: bits(0.75),
            brake: bits(0.0),
            brake_balancer: bits(0.5),
            differential_lock: bits(0.25),
            steering: bits(-0.5),
            gear_shift,
        },
    }
}

fn finish(a: StreamAction) -> (CleanupReason, Option<(Code, String)>) {
    match a {
        StreamAction::Finish { status, reason } => (reason, status.map(|s| (s.code, s.message))),
        other => panic!("not a finish: {:?}", other),
    }
}

fn sent(a: StreamAction) -> (u64, ParticipantServerPayload, CleanupReason) {
    match a {
        StreamAction::Send { event, on_failure } => (event.server_seq, event.payload, on_failure),
        other => panic!("not a send: {:?}", other),
    }
}

fn refusal(a: StreamAction) -> (ParticipantCommandType, ParticipantCommandRejectReason, u32) {
    match sent(a).1 {
        ParticipantServerPayload::CommandAck(ack) => {
            assert_eq!(ack.status, ParticipantCommandStatus::Rejected);
            (ack.command_type, ack.rejected_reason, ack.cooldown_remaining_ms)
        }
        other => panic!("not an answer: {:?}", other),
    }
}

fn pending(session: &mut LaunchSession, team: &str) -> PendingTeam {
    match session.begin_team(team) {
        Ok(TurnStart::FindSubmission(pending)) => pending,
        other => panic!("skipped: {:?}", other),
    }
}

fn runnable() -> Runnable {
    Runnable {
        slot_index: 2,
        submission_id: "sub".to_string(),
        image_ref: "image".to_string(),
    }
}

fn spawned(session: &mut LaunchSession, store: &mut RaceRuntimeStore, team: &str) -> SpawnedTeam {
    let team = pending(session, team);
    session.on_spawn(team, runnable(), Some(500), store).unwrap()
}

fn entry(team: &str) -> OfficialRaceTeamResultEntry {
    let mut session = LaunchSession::new(5).unwrap();
    let team = pending(&mut session, team);
    session.on_submission(&team, &None);
    session.teams.pop().unwrap()
}

#[test]
fn stream_ids_are_dealt_in_order() {
    let mut service = RaceParticipantServiceImpl::new(60);
    assert_eq!(service.simulation_hz, 60);
    let first = service.allocate_stream_id();
    assert_eq!(first, FIRST_STREAM_SEQ);
    assert_eq!(service.allocate_stream_id(), first + 1);
}

#[test]
fn spawn_modes_place_the_car() {
    assert_eq!(
        place_for_spawn_mode(LocalSandboxSpawnModeRecord::StartLine, 0).unwrap(),
        Placement::BeforeFinishLine
    );
    assert_eq!(
        place_for_spawn_mode(LocalSandboxSpawnModeRecord::RandomOnTrack, 0).unwrap(),
        Placement::RandomOnTrack
    );
    assert_eq!(
        place_for_spawn_mode(LocalSandboxSpawnModeRecord::InPit, 0).unwrap(),
        Placement::InPit
    );
    let e = place_for_spawn_mode(LocalSandboxSpawnModeRecord::RandomStartSlot, 0).unwrap_err();
    assert_eq!(
        (e.code, e.message.as_str()),
        (Code::FailedPrecondition, "no start slots available for selected map")
    );
}

#[test]
fn random_slots_are_spread_over_the_grid() {
    let mut seen = [false; 4];
    for _ in 0..2_000 {
        match place_for_spawn_mode(LocalSandboxSpawnModeRecord::RandomStartSlot, 4).unwrap() {
            Placement::StartSlot(slot) => {
                assert!(1 <= slot && slot <= 4);
                seen[slot as usize - 1] = true;
            }
            other => panic!("no slot: {:?}", other),
        }
    }
    assert_eq!(seen, [true; 4]);
}

#[test]
fn sandbox_car_is_registered_for_its_owner() {
    let mut store = RaceRuntimeStore::new();
    let claims = |instance: Option<&str>| {
        Some(TokenClaims {
            subject: "user".to_string(),
            team_id: Some("team".to_string()),
            instance_uuid: instance.map(str::to_string),
        })
    };
    let first =
        register_sandbox_car(&mut store, BackendMode::Local, "s", 70, claims(Some("i"))).unwrap();
    assert_eq!(first, 1);
    assert_eq!(store.known_car_ids(), vec![1]);
    assert_eq!(store.instance_car("i"), Some(1));
    assert_eq!(store.car_owner(1).as_deref(), Some("i"));
    assert!(store.car_target(1).unwrap().is_same(&sandbox("s")));
    assert_eq!(store.car_engine_id(1), Some(70));
    let identity = store.car_identity(1).unwrap();
    assert_eq!(identity.subject.as_deref(), Some("user"));
    assert_eq!(identity.team_id.as_deref(), Some("team"));
    let index = identity.local_bot_index.unwrap();
    let second = register_sandbox_car(&mut store, BackendMode::Local, "s", 71, claims(None)).unwrap();
    assert_eq!(store.car_identity(second).unwrap().local_bot_index, Some(index + 1));
    assert_eq!(store.car_owner(second), None);

    let e = register_sandbox_car(&mut store, BackendMode::Local, "s", 72, None).unwrap_err();
    assert_eq!((e.code, e.message.as_str()), (Code::Unauthenticated, "missing x-ha3-game-token"));
    assert_eq!(store.known_car_ids(), vec![1, 2]);
    let alone = register_sandbox_car(&mut store, BackendMode::Standalone, "s", 73, None).unwrap();
    assert_eq!(alone, 4);
    assert_eq!(store.car_identity(alone).unwrap().subject, None);
    assert_eq!(car_label(alone), "car-4");
}

#[test]
fn local_race_joins_are_checked() {
    let e = check_local_race_join(" ", "Ada", Some("r")).unwrap_err();
    assert_eq!((e.code, e.message.as_str()), (Code::InvalidArgument, "race_id must be non-empty"));
    let e = check_local_race_join("r", "Ada", None).unwrap_err();
    assert_eq!(
        (e.code, e.message.as_str()),
        (Code::FailedPrecondition, "local race runtime is not active")
    );
    let e = check_local_race_join("r", "Ada", Some("q")).unwrap_err();
    assert_eq!(
        (e.code, e.message.as_str()),
        (Code::NotFound, "local race runtime is not active for requested race_id")
    );
    let join = check_local_race_join(" r ", " Ada ", Some("r")).unwrap();
    assert_eq!((join.race_id.as_str(), join.display_name.as_str()), ("r", "Ada"));
    assert_eq!(check_local_race_join("r", "  ", Some("r")).unwrap().display_name, "Local bot");
    let long = check_local_race_join("r", &"x".repeat(70), Some("r")).unwrap();
    assert_eq!(long.display_name.len(), 64);
}

#[test]
fn race_state_refusals_are_answered() {
    let shown = |e| {
        let s = map_local_race_state_err(e);
        (s.code, s.message)
    };
    assert_eq!(
        shown(LocalRaceStateError::NoActiveRace),
        (Code::FailedPrecondition, "local race runtime is not active".to_string())
    );
    assert_eq!(
        shown(LocalRaceStateError::RaceMismatch),
        (Code::NotFound, "local race runtime is not active for requested race_id".to_string())
    );
    assert_eq!(
        shown(LocalRaceStateError::JoinClosed),
        (Code::FailedPrecondition, "local race join is allowed only in staging phase".to_string())
    );
    assert_eq!(
        shown(LocalRaceStateError::ParticipantLimitReached),
        (Code::ResourceExhausted, "local race participant limit reached".to_string())
    );
}

#[test]
fn start_slots_go_round() {
    let slots: Vec<u64> = (0..8).map(|i| local_race_start_slot(i, 3).unwrap()).collect();
    assert_eq!(slots, vec![1, 1, 2, 3, 1, 2, 3, 1]);
    assert_eq!(local_race_start_slot(1, 0).unwrap_err().code, Code::FailedPrecondition);
}

#[test]
fn race_cars_are_registered() {
    let mut store = RaceRuntimeStore::new();
    let join = LocalRaceJoin { race_id: "r".to_string(), display_name: "Ada".to_string() };
    register_local_race_car(&mut store, 5, 70, &join, 2);
    assert!(store.car_target(5).unwrap().is_same(&local_race()));
    let identity = store.car_identity(5).unwrap();
    assert_eq!(identity.local_race_display_name.as_deref(), Some("Ada"));
    assert_eq!(identity.local_race_participant_index, Some(2));
    register_official_race_runtime_car(&mut store, "team", 6, 71, 9);
    assert!(store.car_target(6).unwrap().is_official_race());
    let identity = store.car_identity(6).unwrap();
    assert_eq!(identity.team_id.as_deref(), Some("team"));
    assert_eq!(identity.official_race_start_position_index, Some(9));
    assert_eq!(store.known_car_ids(), vec![5, 6]);
}

#[test]
fn team_car_is_resolved() {
    let mut store = RaceRuntimeStore::new();
    assert_eq!(find_team_cars(&store, "a"), TeamCars::NoCar);
    assert_eq!(resolve_team_official_race_car(&store, "a").unwrap(), None);
    let e = require_team_official_race_car(&store, "a").unwrap_err();
    assert_eq!((e.code, e.message.as_str()), (Code::NotFound, "no active official-race car for team"));
    let e = require_team_official_race_car(&store, " ").unwrap_err();
    assert_eq!((e.code, e.message.as_str()), (Code::Unauthenticated, "missing team_id claim"));
    register_official_race_runtime_car(&mut store, "a", 5, 70, 1);
    register_official_race_runtime_car(&mut store, "b", 6, 71, 2);
    assert_eq!(find_team_cars(&store, "a"), TeamCars::OneCar(5, 70));
    assert_eq!(require_team_official_race_car(&store, " a ").unwrap(), (5, 70));
    assert_eq!(resolve_team_official_car(&store, Some("b")).unwrap(), (6, 71));
    assert_eq!(resolve_team_official_car(&store, Some(" b")).unwrap_err().code, Code::NotFound);
    assert_eq!(resolve_team_official_car(&store, Some("")).unwrap_err().code, Code::Unauthenticated);
    assert_eq!(resolve_team_official_car(&store, None).unwrap_err().code, Code::Unauthenticated);
    register_official_race_runtime_car(&mut store, "a", 7, 72, 3);
    let e = require_team_official_race_car(&store, "a").unwrap_err();
    assert_eq!(
        (e.code, e.message.as_str()),
        (Code::FailedPrecondition, "multiple active official-race cars found for team")
    );
    assert_eq!(required_team_id(Some(" a ")).unwrap(), "a");
    assert_eq!(required_team_id(Some(" ")).unwrap_err().code, Code::Unauthenticated);
    assert_eq!(required_team_id(None).unwrap_err().code, Code::Unauthenticated);
}

#[test]
fn stream_car_depends_on_the_activity() {
    let mut store = RaceRuntimeStore::new();
    register_official_race_runtime_car(&mut store, "a", 5, 70, 1);
    let official = EngineActivityKind::OfficialRace;
    assert_eq!(resolve_team_stream_car(&store, "a", official, Some(9)).unwrap(), 5);
    assert_eq!(resolve_team_stream_car(&store, "z", official, Some(9)).unwrap_err().code, Code::NotFound);
    let sandboxed = EngineActivityKind::Sandbox;
    assert_eq!(resolve_team_stream_car(&store, "a", sandboxed, Some(9)).unwrap(), 9);
    let e = resolve_team_stream_car(&store, "a", sandboxed, None).unwrap_err();
    assert_eq!(
        (e.code, e.message.as_str()),
        (Code::NotFound, "no active official sandbox join for team")
    );
    let e = resolve_team_stream_car(&store, "a", EngineActivityKind::LocalRace, None).unwrap_err();
    assert_eq!(
        (e.code, e.message.as_str()),
        (Code::FailedPrecondition, "official token stream is not available for local race")
    );
    let e = resolve_team_stream_car(&store, "a", EngineActivityKind::Idle, None).unwrap_err();
    assert_eq!((e.code, e.message.as_str()), (Code::FailedPrecondition, "runtime is not active"));
    store.set_instance_car("i", 5);
    assert_eq!(resolve_instance_stream_car(&store, "i").unwrap(), 5);
    assert_eq!(resolve_instance_stream_car(&store, "j").unwrap_err().code, Code::NotFound);
}

#[test]
fn car_id_is_read_from_the_metadata() {
    let mut metadata = MetadataMap::new();
    metadata.insert("x-other", MetadataValue::from_static("9"));
    assert!(matches!(car_id_header(&metadata), CarIdHeader::Missing));
    metadata.insert("x-ha3-car-id", MetadataValue::from_static(" 42"));
    metadata.append("x-ha3-car-id", MetadataValue::from_static("43"));
    let header = car_id_header(&metadata);
    assert!(matches!(&header, CarIdHeader::Text(raw) if raw == " 42"));
    assert_eq!(parse_standalone_car_id(&header).unwrap(), 42);
    metadata.insert("x-ha3-car-id", MetadataValue::try_from(&b"\xff"[..]).unwrap());
    assert!(matches!(car_id_header(&metadata), CarIdHeader::NotText));
}

#[test]
fn standalone_driver_names_the_car() {
    let text = |s: &str| CarIdHeader::Text(s.to_string());
    assert_eq!(parse_standalone_car_id(&text(" 42 ")).unwrap(), 42);
    assert_eq!(parse_standalone_car_id(&text("+42")).unwrap(), 42);
    assert_eq!(parse_standalone_car_id(&text("18446744073709551615")).unwrap(), u64::MAX);
    for bad in ["18446744073709551616", "-1", "4x", "", "+"] {
        let e = parse_standalone_car_id(&text(bad)).unwrap_err();
        assert_eq!(
            (e.code, e.message.as_str()),
            (Code::InvalidArgument, "x-ha3-car-id must be a valid u64")
        );
    }
    let e = parse_standalone_car_id(&CarIdHeader::Missing).unwrap_err();
    assert_eq!((e.code, e.message.as_str()), (Code::InvalidArgument, "missing x-ha3-car-id"));
    let e = parse_standalone_car_id(&CarIdHeader::NotText).unwrap_err();
    assert_eq!((e.code, e.message.as_str()), (Code::InvalidArgument, "invalid x-ha3-car-id header"));
    let mut store = RaceRuntimeStore::new();
    let e = resolve_standalone_stream_car(&store, &text("42")).unwrap_err();
    assert_eq!((e.code, e.message.as_str()), (Code::NotFound, "unknown x-ha3-car-id"));
    let e = registration_of(&store, 42).unwrap_err();
    assert_eq!((e.code, e.message.as_str()), (Code::NotFound, "unknown car target"));
    store.set_car_target(42, sandbox("s"));
    assert_eq!(resolve_standalone_stream_car(&store, &text("42")).unwrap(), 42);
    assert_eq!(registration_of(&store, 42).unwrap_err().code, Code::NotFound);
    store.set_car_engine_id(42, 7);
    let (target, engine_car_id) = registration_of(&store, 42).unwrap();
    assert!(target.is_same(&sandbox("s")));
    assert_eq!(engine_car_id, 7);
}

#[test]
fn official_join_is_prepared() {
    let mut store = RaceRuntimeStore::new();
    register_official_race_runtime_car(&mut store, "a", 5, 105, 1);
    let bots = bots_of("a", bot(5));
    let official = Some(runtime(EngineActivityKind::OfficialRace));
    let found = prepare_official_join(&store, "a", &bots, Some("said"), &official, &None).unwrap();
    assert_eq!((found.car_id, found.map_id.as_str()), (5, "said"));
    let found = prepare_official_join(&store, "a", &bots, None, &official, &None).unwrap();
    assert_eq!(found.map_id, "base");
    let e = prepare_official_join(&store, "a", &bots, None, &None, &None).unwrap_err();
    assert_eq!(
        (e.code, e.message.as_str()),
        (Code::FailedPrecondition, "official-race runtime map is not available")
    );
    let join = |id: &str| {
        Some(OfficialSandboxJoin {
            sandbox_id: id.to_string(),
            slot_index: 1,
            public_car_id: 9,
        })
    };
    let found = prepare_official_join(&store, "b", &bots, None, &official, &join("s")).unwrap();
    assert_eq!((found.car_id, found.map_id.as_str()), (9, "m"));
    let e = prepare_official_join(&store, "b", &bots, None, &official, &join("x")).unwrap_err();
    assert_eq!(
        (e.code, e.message.as_str()),
        (Code::FailedPrecondition, "sandbox runtime is not active for team join")
    );
    let refused = |kind| {
        let state = Some(runtime(kind));
        let e = prepare_official_join(&store, "b", &bots, None, &state, &None).unwrap_err();
        (e.code, e.message)
    };
    assert_eq!(
        refused(EngineActivityKind::OfficialRace),
        (Code::NotFound, "team is not part of active official-race roster".to_string())
    );
    assert_eq!(
        refused(EngineActivityKind::Sandbox),
        (Code::NotFound, "no active official sandbox join for team".to_string())
    );
    assert_eq!(
        refused(EngineActivityKind::LocalRace),
        (Code::FailedPrecondition, "official join is not available in local race".to_string())
    );
    assert_eq!(
        refused(EngineActivityKind::Idle),
        (Code::FailedPrecondition, "runtime is not active".to_string())
    );
}

#[test]
fn grid_and_stale_cars_are_listed() {
    let mut store = RaceRuntimeStore::new();
    register_official_race_runtime_car(&mut store, "a", 5, 70, 1);
    register_official_race_runtime_car(&mut store, "b", 6, 71, 2);
    store.set_car_target(7, EngineCommandTarget::OfficialRace);
    store.set_car_target(8, sandbox("s"));
    store.set_car_engine_id(8, 72);
    let mut grid: Vec<(u64, u64, u64)> = official_race_grid_positions(&store)
        .iter()
        .map(|g| (g.public_car_id, g.engine_car_id, g.start_position_index))
        .collect();
    grid.sort();
    assert_eq!(grid, vec![(5, 70, 1), (6, 71, 2)]);
    let stale = stale_official_cars(&store);
    let mut ids: Vec<u64> = stale.iter().map(|c| c.public_car_id).collect();
    ids.sort();
    assert_eq!(ids, vec![5, 6, 7]);
    for car in &stale {
        finish_stale_car(&mut store, car);
    }
    assert!(stale_official_cars(&store).is_empty());
    assert_eq!(store.car_engine_id(8), Some(72));
}

#[test]
fn restart_delays_grow_to_a_limit() {
    let delays: Vec<u64> = (0..7).map(|n| restart_delay_ms(true, n)).collect();
    assert_eq!(delays, vec![500, 1_000, 2_000, 4_000, 8_000, 8_000, 8_000]);
    assert_eq!(restart_delay_ms(false, 5), 1_000);
    assert!(has_restarts_left(true, 11) && !has_restarts_left(true, 12));
    assert!(has_restarts_left(false, u32::MAX));
}

#[test]
fn restarts_are_recorded() {
    let mut bots = bots_of("a", bot(5));
    record_restart(&mut bots, "a", &bot(5), true, "c2".to_string(), "log2".to_string());
    let now = bots.get("a").unwrap();
    assert_eq!((now.container_id.as_str(), now.log_file_path.as_str()), ("c2", "log2"));
    assert_eq!(now.auto_restart_attempts, 4);
    assert_eq!(now.submission_id, "sub");
    assert!(find_bot_in_container(&bots, "a", "c2").is_some());
    assert!(find_bot_in_container(&bots, "a", "c1").is_none());
    record_restart(&mut bots, "a", &bot(5), false, "c3".to_string(), "log3".to_string());
    assert_eq!(bots.get("a").unwrap().auto_restart_attempts, 0);
    record_refresh(&mut bots, "a", &bot(5), "c4".to_string(), "log4".to_string());
    assert_eq!(bots.get("a").unwrap().auto_restart_attempts, 0);
    assert!(remove_exited_bot(&mut bots, "a", "c3").is_none());
    assert_eq!(remove_exited_bot(&mut bots, "a", "c4").unwrap().public_car_id, 5);
    assert!(bots.get("a").is_none());
}

#[test]
fn bot_that_cannot_restart_waits_for_a_slot() {
    let mut store = RaceRuntimeStore::new();
    register_official_race_runtime_car(&mut store, "a", 5, 105, 1);
    assert!(is_car_matching(&store, &bot(5)));
    let mut bots = bots_of("a", bot(5));
    let exit = |store: &RaceRuntimeStore, bots: &mut OfficialRaceBots, id: &str, started: bool| {
        handle_unrecoverable_official_race_bot_exit(store, bots, "a", &bot(5), id, started, 123)
    };
    assert_eq!(exit(&store, &mut bots, "c1", false), UnrecoverableExit::Remove);
    assert_eq!(exit(&store, &mut bots, "c0", true), UnrecoverableExit::Superseded);
    assert_eq!(bots.get("a").unwrap().container_id, "c1");
    assert_eq!(exit(&store, &mut bots, "c1", true), UnrecoverableExit::AwaitSlotSwitch);
    let parked = bots.get("a").unwrap();
    assert_eq!(parked.container_id, "awaiting-slot-switch-123");
    assert_eq!(parked.auto_restart_attempts, 0);
    store.remove_car(5);
    assert_eq!(exit(&store, &mut bots, "c1", true), UnrecoverableExit::Remove);
}

#[test]
fn bot_without_its_car_is_forgotten() {
    let mut store = RaceRuntimeStore::new();
    register_official_race_runtime_car(&mut store, "a", 5, 105, 1);
    let mut bots = bots_of("a", bot(5));
    assert!(reconcile_official_race_bot_liveness(&store, &mut bots, "a").is_none());
    assert!(bots.contains_key("a"));
    store.set_car_engine_id(5, 999);
    assert!(reconcile_official_race_bot_liveness(&store, &mut bots, "b").is_none());
    let gone = reconcile_official_race_bot_liveness(&store, &mut bots, "a").unwrap();
    assert_eq!(gone.container_id, "c1");
    assert!(!bots.contains_key("a"));
}

#[test]
fn slots_are_switched_in_the_pit() {
    assert!(is_slot_switch_due(&bot(5), true, 2));
    assert!(!is_slot_switch_due(&bot(5), true, 1));
    assert!(!is_slot_switch_due(&bot(5), false, 2));
    let mut bots = bots_of("a", bot(5));
    begin_slot_switch(&mut bots, "z", 9);
    begin_slot_switch(&mut bots, "a", 9);
    assert_eq!(bots.get("a").unwrap().container_id, "switching-9");
    assert_eq!(bots.get("a").unwrap().auto_restart_attempts, 3);
    assert!(!bots.contains_key("z"));
    finish_slot_switch(
        &mut bots,
        "a",
        bot(5),
        3,
        "sub3".to_string(),
        "image3".to_string(),
        "c9".to_string(),
        "log9".to_string(),
    );
    let now = bots.get("a").unwrap();
    assert_eq!((now.slot_index, now.auto_restart_attempts, now.public_car_id), (3, 0, 5));
    assert_eq!(now.image_ref, "image3");
    assert_eq!(now.container_id, "c9");
}

#[test]
fn hard_tyres_are_tallied() {
    let mut store = RaceRuntimeStore::new();
    let mut tally = Tally::new();
    on_hard_tyres(&mut store, &bot(5), false, &mut tally);
    assert_eq!(
        store.pit_state_snapshot(5, 0).next_pit_tire_type,
        RaceRuntimeStore::new().pit_state_snapshot(5, 0).next_pit_tire_type
    );
    store.set_next_pit_tire_type(5, RuntimePitTireType::Wet);
    on_hard_tyres(&mut store, &bot(5), true, &mut tally);
    assert_eq!(store.pit_state_snapshot(5, 0).next_pit_tire_type, RuntimePitTireType::Hard);
    assert_eq!((tally.done, tally.failed), (1, 1));
}

#[test]
fn cleanup_depends_on_the_session() {
    let mut store = RaceRuntimeStore::new();
    register_official_race_runtime_car(&mut store, "a", 5, 70, 1);
    let official = EngineCommandTarget::OfficialRace;
    let plan = begin_participant_cleanup(&mut store, BackendMode::Official, 5, &official, false);
    assert_eq!(plan, CleanupPlan::Preserve);
    finish_participant_cleanup(&mut store, plan, 5);
    assert_eq!(store.known_car_ids(), vec![5]);

    let plan = begin_participant_cleanup(&mut store, BackendMode::Official, 5, &sandbox("s"), true);
    assert_eq!(plan, CleanupPlan::Preserve);
    assert_eq!(store.known_car_ids(), vec![5]);
    let plan = begin_participant_cleanup(&mut store, BackendMode::Official, 5, &sandbox("s"), false);
    assert_eq!(plan, CleanupPlan::DetachThenDespawn);
    assert!(store.known_car_ids().is_empty());

    for target in [sandbox("s"), local_race()] {
        store.mark_known_car(6);
        let plan = begin_participant_cleanup(&mut store, BackendMode::Local, 6, &target, true);
        assert_eq!(plan, CleanupPlan::DespawnThenRemove);
        assert_eq!(store.known_car_ids(), vec![6]);
        finish_participant_cleanup(&mut store, plan, 6);
        assert!(store.known_car_ids().is_empty());
    }
}

#[test]
fn lowest_runnable_slot_is_used() {
    let slot = |id: &str, image: Option<&str>| {
        Some(SlotSubmission {
            submission_id: id.to_string(),
            image_ref: image.map(str::to_string),
        })
    };
    let slots = vec![slot("one", Some("  ")), slot("two", Some(" img ")), slot("three", Some("x"))];
    let run = resolve_lowest_runnable_slot_submission(&slots).unwrap();
    assert_eq!((run.slot_index, run.submission_id.as_str()), (2, "two"));
    assert_eq!(run.image_ref, "img");
    assert!(resolve_lowest_runnable_slot_submission(&vec![None, slot("two", None)]).is_none());
    let (id, image) = resolve_slot_submission_image(&slot("one", Some(" img "))).unwrap();
    assert_eq!((id.as_str(), image.as_str()), ("one", "img"));
    let e = resolve_slot_submission_image(&None).unwrap_err();
    assert_eq!(
        (e.code, e.message.as_str()),
        (Code::FailedPrecondition, "selected slot does not contain succeeded submission")
    );
    let e = resolve_slot_submission_image(&slot("one", None)).unwrap_err();
    assert_eq!(
        (e.code, e.message.as_str()),
        (Code::FailedPrecondition, "selected slot submission is missing image_ref")
    );
}

#[test]
fn launch_counts_every_team() {
    let e = LaunchSession::new(0).unwrap_err();
    assert_eq!((e.code, e.message.as_str()), (Code::FailedPrecondition, "official race map has no start slots"));
    let mut store = RaceRuntimeStore::new();
    let mut bots = OfficialRaceBots::new();
    let mut session = LaunchSession::new(7).unwrap();

    let team = spawned(&mut session, &mut store, "a");
    assert_eq!((team.public_car_id, team.engine_car_id), (1, 500));
    let team = match session.on_start_position(team, true) {
        TeamStep::GoOn(team) => team,
        other => panic!("rolled back: {:?}", other),
    };
    session.on_started(team, "n".to_string(), "c".to_string(), "l".to_string(), &mut bots);
    assert_eq!(bots.get("a").unwrap().start_position_index, 1);
    assert_eq!(bots.get("a").unwrap().container_id, "c");
    assert!(matches!(session.begin_team("a"), Ok(TurnStart::Skipped)));

    let team = pending(&mut session, "b");
    session.on_submission(&team, &None);
    let team = pending(&mut session, "c");
    session.on_submission(&team, &Some(runnable()));
    assert!(session.on_spawn(team, runnable(), None, &mut store).is_none());

    let team = spawned(&mut session, &mut store, "d");
    let car_id = team.public_car_id;
    match session.on_start_position(team, false) {
        TeamStep::RollBack(plan) => {
            assert_eq!((plan.public_car_id, plan.container_name.as_deref()), (car_id, None));
            roll_back(&mut store, &plan);
        }
        other => panic!("went on: {:?}", other),
    }
    assert_eq!(store.known_car_ids(), vec![1]);

    let team = spawned(&mut session, &mut store, "e");
    assert!(matches!(session.on_token(team, false), TeamStep::RollBack(_)));
    let team = spawned(&mut session, &mut store, "f");
    assert!(matches!(
        session.on_container_failure(team, "n".to_string()),
        TeamStep::RollBack(plan) if plan.container_name.as_deref() == Some("n")
    ));
    assert!(matches!(session.begin_team("g"), Ok(TurnStart::Skipped)));

    let stats = session.stats;
    assert_eq!(stats.total_listed, 8);
    assert_eq!(
        (stats.started, stats.skipped_duplicate_team, stats.skipped_missing_submission),
        (1, 1, 1)
    );
    assert_eq!(
        (stats.skipped_runtime_error, stats.skipped_token_error, stats.skipped_container_error),
        (2, 1, 1)
    );
    assert_eq!(stats.skipped_grid_overflow, 1);
    let labels: Vec<&str> = session.teams.iter().map(|t| t.start_status.label()).collect();
    assert_eq!(
        labels,
        vec![
            "started",
            "skipped_duplicate_team",
            "skipped_missing_submission",
            "skipped_runtime_error",
            "skipped_runtime_error",
            "skipped_token_error",
            "skipped_container_error",
            "skipped_grid_overflow",
        ]
    );
    let places: Vec<u32> = session.teams.iter().map(|t| t.roster_index).collect();
    assert_eq!(places, vec![1, 2, 3, 4, 5, 6, 7, 8]);
}

#[test]
fn teams_are_recorded_as_they_are_listed() {
    let mut store = RaceRuntimeStore::new();
    let mut bots = OfficialRaceBots::new();
    let mut session = LaunchSession::new(4).unwrap();
    let roster = ["b", "a", "b", "c", "a"];
    for name in roster {
        let team = match session.begin_team(name) {
            Ok(TurnStart::FindSubmission(team)) => team,
            Ok(TurnStart::Skipped) => continue,
            Err(e) => panic!("{}", e.message),
        };
        let team = session.on_spawn(team, runnable(), Some(500), &mut store).unwrap();
        session.on_started(team, "n".to_string(), "c".to_string(), "l".to_string(), &mut bots);
    }
    let listed: Vec<(&str, u32, StartStatus)> = session
        .teams
        .iter()
        .map(|t| (t.team_id.as_str(), t.roster_index, t.start_status))
        .collect();
    assert_eq!(
        listed,
        vec![
            ("b", 1, StartStatus::Started),
            ("a", 2, StartStatus::Started),
            ("b", 3, StartStatus::SkippedDuplicateTeam),
            ("c", 4, StartStatus::Started),
            ("a", 5, StartStatus::SkippedGridOverflow),
        ]
    );
}

#[test]
fn unnamed_container_takes_the_car_back() {
    let mut store = RaceRuntimeStore::new();
    let mut session = LaunchSession::new(2).unwrap();
    let team = spawned(&mut session, &mut store, "a");
    let team = match session.on_container_name(team, true) {
        TeamStep::GoOn(team) => team,
        other => panic!("rolled back: {:?}", other),
    };
    assert!(matches!(session.on_container_name(team, false), TeamStep::RollBack(_)));
    assert_eq!(session.teams[0].start_status, StartStatus::SkippedRuntimeError);
    assert_eq!(session.teams[0].slot_index, Some(2));
}

#[test]
fn new_start_signal_starts_the_race() {
    let mut l = RaceLauncher::new();
    let step = l.on_prepare_signal(true);
    assert!(step.prepare && !step.finalize);
    l.on_prepared(true);
    assert!(!l.on_start_signal(false) && !l.take_start(false));
    assert_eq!(l.session_work(true), SessionWork::KeepGrid);
    l.end_tick(true, false);

    assert!(!l.on_prepare_signal(true).prepare);
    assert!(!l.on_start_signal(true));
    assert!(l.take_start(true));
    assert_eq!(l.session_work(false), SessionWork::Record);
    assert!(!l.on_recorded(Some(EngineActivityKind::OfficialRace)));
    l.end_tick(true, true);

    assert!(!l.on_prepare_signal(true).prepare && !l.take_start(true));
    assert_eq!(l.session_work(true), SessionWork::Close);
    assert_eq!(l.session_work(true), SessionWork::Rest);
    assert!(!l.race_prepared && !l.race_started);
}

#[test]
fn start_signal_alone_prepares_the_race() {
    let mut l = RaceLauncher::new();
    assert!(!l.on_prepare_signal(false).prepare);
    assert!(l.on_start_signal(true));
    l.on_prepared(true);
    assert!(l.take_start(true));
    l.end_tick(false, true);
    let step = l.on_prepare_signal(true);
    assert!(step.prepare && step.finalize);
    assert!(!l.race_started);
    l.on_prepared(false);
    assert!(!l.race_prepared);
    let mut l = RaceLauncher { race_prepared: true, race_started: true, ..RaceLauncher::new() };
    assert!(l.on_recorded(None));
    assert!(!l.race_prepared);
}

#[test]
fn moments_and_log_ends_are_shown() {
    assert_eq!(utc_text(0), "1970-01-01T00:00:00Z");
    assert_eq!(utc_text(1_700_000_000_123_000_000), "2023-11-14T22:13:20.123Z");
    assert_eq!(utc_text(-100_000_000_000_000_000_000), "unknown");
    assert_eq!(show_moment(None), "unknown");
    assert_eq!(show_moment(Some("now".to_string())), "now");
    let tail = read_log_tail(&b" caf\xc3\xa9 \n".to_vec(), &b"\xff".to_vec());
    assert_eq!(tail.as_deref(), Some("caf\u{e9}\n\u{fffd}"));
    assert_eq!(read_log_tail(&b" ".to_vec(), &vec![]), None);
}

#[test]
fn every_bot_is_cleaned_up() {
    let mut store = RaceRuntimeStore::new();
    let mut bots = bots_of("a", bot(5));
    bots.insert("b".to_string(), bot(6));
    store.mark_known_car(5);
    store.mark_known_car(6);
    let plan = plan_bot_cleanups(&bots);
    let mut teams: Vec<(String, u64)> =
        plan.iter().map(|p| (p.team_id.clone(), p.public_car_id)).collect();
    teams.sort();
    assert_eq!(teams, vec![("a".to_string(), 5), ("b".to_string(), 6)]);
    assert_eq!(plan[0].container_name, "bot");
    for entry in &plan {
        finish_bot_cleanup(&mut store, entry);
        forget_bot(&mut bots, &entry.team_id);
    }
    assert!(store.known_car_ids().is_empty());
    assert!(bots.keys().is_empty());
}

#[test]
fn sessions_open_and_close() {
    let close = close_session_switch(&runtime(EngineActivityKind::OfficialRace)).unwrap();
    assert_eq!(close.expected_revision, 8);
    assert_eq!(close.activity_kind, EngineActivityKind::Idle);
    assert_eq!(close.map_id, "base");
    assert_eq!(close.time_of_day_preset, EngineRuntimeTimeOfDayPreset::Night);
    assert!(close_session_switch(&runtime(EngineActivityKind::Sandbox)).is_none());
    let open = open_session_switch(3, "monza", RaceTimeOfDayPreset::Evening);
    assert_eq!((open.expected_revision, open.map_id.as_str()), (3, "monza"));
    assert_eq!(open.activity_kind, EngineActivityKind::OfficialRace);
    assert_eq!(
        open.time_of_day_preset,
        race_time_of_day_preset_to_engine(RaceTimeOfDayPreset::Evening)
    );
    assert_eq!(open.time_of_day_preset, EngineRuntimeTimeOfDayPreset::Evening);
}

#[test]
fn roster_lists_teams() {
    let teams = read_official_race_team_ids("# grid\n a \r\n\n  # out\nb#1\n");
    assert_eq!(teams, vec!["a".to_string(), "b#1".to_string()]);
    assert!(read_official_race_team_ids("").is_empty());
}

#[test]
fn names_are_made_safe_for_storage() {
    assert_eq!(sanitize_storage_component("a/b c"), "a_b_c");
    assert_eq!(sanitize_storage_component("../x-1_"), "x-1");
    assert_eq!(sanitize_storage_component("//"), "unknown");
    let once = sanitize_storage_component(" \u{e9}t\u{e9} ");
    assert_eq!(once, "t");
    assert_eq!(sanitize_storage_component(&once), once);
    assert_eq!(replace_unsafe_chars("_a b_"), "_a_b_");
    assert_eq!(team_logs_dir("t/1"), ".submissions/t_1/logs");
}

#[test]
fn container_ids_are_shortened() {
    assert_eq!(short_container_id(" 0123456789abcdef "), "0123456789ab");
    assert_eq!(short_container_id("short"), "short");
    assert_eq!(short_container_id("0123456789a\u{e9}f"), "0123456789a\u{e9}f");
}

#[test]
fn logs_are_named_and_headed() {
    assert_eq!(
        build_official_race_bot_log_path(17, "t 1", "s/1", 2, "0123456789abcdef"),
        ".submissions/t_1/logs/17_team-t_1_submission-s_1_sandbox-official-race_slot-2_container-0123456789ab.log"
    );
    assert_eq!(
        build_log_header("t", "s", -1, "c", 9, "now"),
        "# team_id=t\n# submission_id=s\n# sandbox_id=official-race\n# slot_index=-1\n# container_id=c\n# started_at_unix_ms=9\n# started_at_utc=now\n"
    );
    assert_eq!(log_line("stdout", "hi"), "[stdout] hi\n");
    assert_eq!(follow_ended_line(Some(-9)), "# docker/logs follow ended status=Some(-9)\n");
    assert_eq!(follow_ended_line(None), "# docker/logs follow ended status=None\n");
    assert_eq!(follow_failed_line("gone"), "# docker/logs follow failed error=gone\n");
    assert_eq!(read_error_line("stderr", "cut"), "[stderr] <stream read error: cut>\n");
}

#[test]
fn log_tail_is_short() {
    assert_eq!(combine_log_tail(" ", "\n"), None);
    assert_eq!(combine_log_tail(" out ", "").as_deref(), Some("out"));
    assert_eq!(combine_log_tail("", " err ").as_deref(), Some("err"));
    assert_eq!(combine_log_tail("out\n", "err").as_deref(), Some("out\nerr"));
    let long = combine_log_tail(&"x".repeat(4_001), "").unwrap();
    assert_eq!(long.len(), 4_003);
    assert!(long.starts_with("...x"));
    assert_eq!(combine_log_tail(&"x".repeat(4_000), "").unwrap().len(), 4_000);
}

#[test]
fn results_follow_the_cars() {
    let mut recorder = OfficialRaceResultsRecorder::new(
        "race 1".to_string(),
        "Race".to_string(),
        "monza".to_string(),
        vec![entry("a"), entry("b")],
        5_000,
    );
    assert_eq!(recorder.data.session_id, "5000_race_1");
    assert_eq!(recorder.session_file_name(), "5000_race_1.json");
    assert_eq!(recorder.data.status.label(), "running");
    let reading = |laps, metres: f32, moved, last| {
        Some(TeamReading {
            completed_laps: laps,
            lap_progress_m: bits(metres),
            total_distance_m: bits(metres + 1_000.0 * laps as f32),
            has_moved: moved,
            last_lap_time_ms: last,
            best_lap_time_ms: last,
        })
    };
    assert_eq!(baseline_for(&recorder.data.teams[0], bits(7.0)), bits(7.0));
    recorder.refresh_from_runtime(&vec![reading(0, 2.0, false, None), None]);
    let team = &recorder.data.teams[0];
    assert_eq!((team.has_started_moving, team.current_lap_distance_m), (false, None));
    assert_eq!(team.initial_lap_progress_m, Some(bits(2.0)));
    assert_eq!(baseline_for(team, bits(7.0)), bits(2.0));
    recorder.refresh_from_runtime(&vec![reading(0, 9.0, true, None), None]);
    assert_eq!(recorder.data.teams[0].total_distance_m, Some(bits(9.0)));
    recorder.refresh_from_runtime(&vec![reading(1, 3.0, false, Some(60_000)), None]);
    recorder.refresh_from_runtime(&vec![reading(1, 4.0, false, Some(60_000)), None]);
    let team = &recorder.data.teams[0];
    assert!(team.has_started_moving);
    assert_eq!(team.lap_times_ms, vec![60_000]);
    assert_eq!(team.last_recorded_completed_laps, 1);
    assert_eq!(team.current_lap_distance_m, Some(bits(4.0)));
    assert_eq!(recorder.data.teams[1].completed_laps, 0);
    assert_eq!(recorder.data.teams[1].initial_lap_progress_m, None);

    assert!(recorder.take_write(5_000));
    assert!(!recorder.take_write(5_999));
    assert!(recorder.take_write(6_000));
    recorder.finalize(9_000);
    assert_eq!(recorder.data.status, ResultsStatus::Finalized);
    assert_eq!(recorder.data.status.label(), "finalized");
    assert_eq!(recorder.data.finalized_at_unix_ms, Some(9_000));
}

#[test]
fn race_metrics_are_found_in_the_frame() {
    let shown = frame(vec![
        car(1, sandbox("s"), true),
        car(2, EngineCommandTarget::OfficialRace, false),
        car(3, EngineCommandTarget::OfficialRace, true),
    ]);
    assert_eq!(find_race_metrics(&shown, Some(3)), Some(VehicleRaceMetrics::default()));
    assert_eq!(find_race_metrics(&shown, Some(1)), None);
    assert_eq!(find_race_metrics(&shown, Some(2)), None);
    assert_eq!(find_race_metrics(&shown, None), None);
}

#[test]
fn stream_begins_with_its_settings() {
    let mut s = stream(BackendMode::Local, sandbox("s"));
    assert_eq!(s.resolved_view, SpectatorView::Team);
    assert_eq!(s.view_downgrade_reason, ViewDowngradeReason::NotDowngraded);
    assert_eq!(s.rate.effective_hz, 30);
    let mut store = RaceRuntimeStore::new();
    assert!(matches!(tick(&mut s, vec![]), StreamAction::Wait));
    match s.on_message(Some(ParticipantClientPayload::Init), &facts(), &mut store) {
        StreamAction::SendThenReadDimensions { event, on_failure } => {
            assert_eq!(event.server_seq, 1);
            assert_eq!(on_failure, CleanupReason::InitialSendFailed);
            assert!(matches!(
                event.payload,
                ParticipantServerPayload::Settings(settings) if settings.effective_hz == 30
            ));
        }
        other => panic!("no settings: {:?}", other),
    }
    let size = CarDimensions { width_m: bits(2.0), depth_m: bits(5.0) };
    let (seq, payload, on_failure) = sent(s.on_dimensions(Some(size)));
    assert_eq!((seq, on_failure), (2, CleanupReason::BootstrapSendFailed));
    assert!(matches!(payload, ParticipantServerPayload::Bootstrap(Some(d)) if d == size));
    let again = s.on_message(Some(ParticipantClientPayload::Init), &facts(), &mut store);
    assert_eq!(
        finish(again),
        (
            CleanupReason::DuplicateInit,
            Some((Code::InvalidArgument, "participant init may be sent only once".to_string()))
        )
    );
}

#[test]
fn stream_messages_are_numbered_in_order() {
    let mut s = started(BackendMode::Local, sandbox("s"));
    let mut numbers: Vec<u64> = vec![];
    for _ in 0..3 {
        let (seq, payload, _) = sent(tick(&mut s, vec![full_car(1, sandbox("s"))]));
        assert!(matches!(payload, ParticipantServerPayload::Snapshot(_)));
        numbers.push(seq);
    }
    assert_eq!(numbers, vec![3, 4, 5]);
    let mut quiet = stream(BackendMode::Local, sandbox("s"));
    assert!(matches!(tick(&mut quiet, vec![full_car(1, sandbox("s"))]), StreamAction::Wait));
}

#[test]
fn stream_must_begin_with_init() {
    let first = "first participant message must be init".to_string();
    let mut store = RaceRuntimeStore::new();
    let mut s = stream(BackendMode::Local, sandbox("s"));
    let a = s.on_message(Some(controls(1, Some(WireGearShift::Hold))), &facts(), &mut store);
    assert_eq!(
        finish(a),
        (CleanupReason::ControlsBeforeInit, Some((Code::InvalidArgument, first.clone())))
    );
    let back = ParticipantClientPayload::BackToTrack { client_seq: 1 };
    let a = s.on_message(Some(back), &facts(), &mut store);
    assert_eq!(
        finish(a),
        (CleanupReason::CommandBeforeInit, Some((Code::InvalidArgument, first)))
    );
    let a = s.on_message(None, &facts(), &mut store);
    assert_eq!(
        finish(a),
        (
            CleanupReason::EmptyPayload,
            Some((Code::InvalidArgument, "participant message payload is required".to_string()))
        )
    );
    assert_eq!(finish(s.on_disconnect()), (CleanupReason::Disconnect, None));
    let a = s.on_client_error(Status::new(Code::Unavailable, "gone"));
    assert_eq!(
        finish(a),
        (CleanupReason::ClientStreamError, Some((Code::Unavailable, "gone".to_string())))
    );
}

#[test]
fn controls_go_to_the_engine() {
    let mut store = RaceRuntimeStore::new();
    let mut s = started(BackendMode::Local, sandbox("s"));
    let a = s.on_message(Some(controls(9, Some(WireGearShift::Upshift))), &facts(), &mut store);
    let pending = match a {
        StreamAction::SetControls { controls, pending } => {
            assert_eq!(controls, pending.requested);
            assert_eq!(controls.throttle, bits(0.75));
            assert_eq!(controls.gear_shift, EngineGearShift::Upshift);
            pending
        }
        other => panic!("no controls: {:?}", other),
    };
    let (seq, payload, on_failure) =
        sent(s.on_controls_result(pending, Ok(EngineGearShift::Hold), &mut store));
    assert_eq!((seq, on_failure), (3, CleanupReason::AckSendFailed));
    assert!(matches!(
        payload,
        ParticipantServerPayload::Ack(ack)
            if ack.client_seq == 9
                && ack.applies_from_tick == 40
                && ack.accepted_shift == WireGearShift::Hold
    ));
    assert_eq!(store.car_last_client_seq(1), 9);
    assert_eq!(store.controls_input_snapshot(1).current_differential_lock, bits(0.25));

    let failed = s.on_controls_result(pending, Err(EngineWorkerError::WorkerStopped), &mut store);
    let (reason, status) = finish(failed);
    assert_eq!(reason, CleanupReason::SetControlsFailed);
    assert!(status.is_some());
    let a = s.on_message(Some(controls(10, None)), &facts(), &mut store);
    assert_eq!(
        finish(a),
        (
            CleanupReason::InvalidControls,
            Some((Code::InvalidArgument, "invalid gear_shift".to_string()))
        )
    );
}

#[test]
fn closed_race_takes_no_commands() {
    let mut store = RaceRuntimeStore::new();
    let mut s = started(BackendMode::Local, local_race());
    let closed = StreamFacts { local_race_closed: true, ..facts() };
    let a = s.on_message(Some(controls(4, Some(WireGearShift::Upshift))), &closed, &mut store);
    assert!(matches!(
        sent(a).1,
        ParticipantServerPayload::Ack(ack) if ack.accepted_shift == WireGearShift::Hold
    ));
    let input = store.controls_input_snapshot(1);
    assert_eq!((input.input_throttle, input.input_brake), (bits(0.0), bits(1.0)));
    assert_eq!(input.current_brake_balancer, bits(0.5));
    for payload in [
        ParticipantClientPayload::BackToTrack { client_seq: 5 },
        ParticipantClientPayload::EmergencyPitstop { client_seq: 6 },
        ParticipantClientPayload::SetNextPitTireType {
            client_seq: 7,
            next_tire_type: Some(RuntimePitTireType::Wet),
        },
    ] {
        let a = s.on_message(Some(payload), &closed, &mut store);
        assert_eq!(refusal(a).1, ParticipantCommandRejectReason::NotAllowed);
    }
    let mut elsewhere = started(BackendMode::Local, sandbox("s"));
    let back = ParticipantClientPayload::BackToTrack { client_seq: 5 };
    let a = elsewhere.on_message(Some(back), &closed, &mut store);
    assert!(matches!(a, StreamAction::BackToTrack { .. }));
}

#[test]
fn commands_are_refused_for_a_reason() {
    let mut store = RaceRuntimeStore::new();
    let mut s = started(BackendMode::Official, EngineCommandTarget::OfficialRace);
    let back = || Some(ParticipantClientPayload::BackToTrack { client_seq: 5 });
    let stop = || Some(ParticipantClientPayload::EmergencyPitstop { client_seq: 6 });
    let cooling = StreamFacts {
        back_to_track_cooldown_ms: 300,
        emergency_pitstop_cooldown_ms: 400,
        ..facts()
    };
    assert_eq!(
        refusal(s.on_message(back(), &cooling, &mut store)),
        (
            ParticipantCommandType::BackToTrack,
            ParticipantCommandRejectReason::CooldownActive,
            300
        )
    );
    assert_eq!(
        refusal(s.on_message(stop(), &cooling, &mut store)),
        (
            ParticipantCommandType::EmergencyPitstop,
            ParticipantCommandRejectReason::CooldownActive,
            400
        )
    );
    let in_pit = StreamFacts { in_pit: true, ..facts() };
    assert_eq!(
        refusal(s.on_message(back(), &in_pit, &mut store)).1,
        ParticipantCommandRejectReason::InPit
    );
    assert_eq!(
        refusal(s.on_message(stop(), &in_pit, &mut store)).1,
        ParticipantCommandRejectReason::InPit
    );
    let mut local = started(BackendMode::Local, sandbox("s"));
    assert!(matches!(
        local.on_message(stop(), &in_pit, &mut store),
        StreamAction::ToPitstop { .. }
    ));
    let tire = ParticipantClientPayload::SetNextPitTireType { client_seq: 7, next_tire_type: None };
    assert_eq!(
        refusal(s.on_message(Some(tire), &facts(), &mut store)),
        (
            ParticipantCommandType::SetNextPitTireType,
            ParticipantCommandRejectReason::NotAllowed,
            0
        )
    );
    let tire = ParticipantClientPayload::SetNextPitTireType {
        client_seq: 8,
        next_tire_type: Some(RuntimePitTireType::Wet),
    };
    assert!(matches!(
        sent(s.on_message(Some(tire), &facts(), &mut store)).1,
        ParticipantServerPayload::CommandAck(ack)
            if ack.status == ParticipantCommandStatus::Accepted && ack.client_seq == 8
    ));
    assert_eq!(store.pit_state_snapshot(1, 0).next_pit_tire_type, RuntimePitTireType::Wet);
}

#[test]
fn emergency_stop_locks_the_controls() {
    let mut store = RaceRuntimeStore::new();
    let mut s = started(BackendMode::Official, EngineCommandTarget::OfficialRace);
    let stop = ParticipantClientPayload::EmergencyPitstop { client_seq: 6 };
    let pending = match s.on_message(Some(stop), &facts(), &mut store) {
        StreamAction::ToPitstop { pending } => pending,
        other => panic!("no stop: {:?}", other),
    };
    assert_eq!(
        refusal(s.on_pitstop_result(pending, false, &mut store)).1,
        ParticipantCommandRejectReason::NotAllowed
    );
    s.on_pitstop_result(pending, true, &mut store);
    let throttle_at = |s: &mut ParticipantStream, store: &mut RaceRuntimeStore, now| {
        let at = StreamFacts { server_time_ms: now, ..facts() };
        match s.on_message(Some(controls(9, Some(WireGearShift::Hold))), &at, store) {
            StreamAction::SetControls { controls, .. } => (controls.throttle, controls.brake),
            other => panic!("no controls: {:?}", other),
        }
    };
    assert_eq!(throttle_at(&mut s, &mut store, 30_999), (bits(0.0), bits(1.0)));
    assert_eq!(throttle_at(&mut s, &mut store, 31_000), (bits(0.75), bits(0.0)));

    let mut fresh = RaceRuntimeStore::new();
    let mut local = started(BackendMode::Local, sandbox("s"));
    local.on_pitstop_result(pending, true, &mut fresh);
    assert_eq!(throttle_at(&mut local, &mut fresh, 1_001), (bits(0.75), bits(0.0)));
    local.on_back_to_track_result(pending, true, &mut fresh);
    assert!(fresh.pit_state_snapshot(1, 1_499).force_idle);
}

#[test]
fn snapshots_show_the_opponents() {
    let mut s = started(BackendMode::Local, sandbox("s"));
    let shown = || {
        vec![
            full_car(1, sandbox("s")),
            full_car(2, sandbox("s")),
            full_car(3, sandbox("t")),
            full_car(4, sandbox("s")),
        ]
    };
    let (seq, payload, on_failure) = sent(tick(&mut s, shown()));
    assert_eq!((seq, on_failure), (3, CleanupReason::SnapshotSendFailed));
    match payload {
        ParticipantServerPayload::Snapshot(snapshot) => {
            assert_eq!((snapshot.tick, snapshot.server_time_ms), (77, 5_000));
            assert_eq!(snapshot.me.car_id, 1);
            assert_eq!(snapshot.me.telemetry.last_applied_client_seq, 10);
            assert_eq!(snapshot.me.telemetry.speed_mps, bits(1.0));
            assert_eq!(snapshot.me.kinematics.position.x, bits(1.0));
            assert_eq!(snapshot.me.telemetry.command_cooldowns.back_to_track_remaining_ms, 3);
            let ids: Vec<u64> = snapshot.opponents.iter().map(|car| car.car_id).collect();
            assert_eq!(ids, vec![2, 4]);
            let x: Vec<F32Bits> =
                snapshot.opponents.iter().map(|car| car.kinematics.position.x).collect();
            assert_eq!(x, vec![bits(2.0), bits(4.0)]);
        }
        other => panic!("no snapshot: {:?}", other),
    }
    assert_eq!(sent(tick(&mut s, shown())).0, 4);
}

#[test]
fn stream_ends_with_its_car() {
    let mut s = started(BackendMode::Local, sandbox("s"));
    assert_eq!(
        finish(tick(&mut s, vec![full_car(2, sandbox("s"))])),
        (
            CleanupReason::SelfMissing,
            Some((Code::NotFound, "participant car is no longer active".to_string()))
        )
    );
    assert_eq!(
        finish(tick(&mut s, vec![full_car(1, sandbox("t"))])),
        (
            CleanupReason::SelfTargetChanged,
            Some((Code::FailedPrecondition, "participant car target changed".to_string()))
        )
    );
    let mut other = full_car(1, sandbox("s"));
    other.engine_car_id = 7;
    assert_eq!(
        finish(tick(&mut s, vec![other])),
        (
            CleanupReason::SelfEngineIdChanged,
            Some((Code::FailedPrecondition, "participant car engine mapping changed".to_string()))
        )
    );
    assert_eq!(CleanupReason::SelfEngineIdChanged.label(), "self-engine-id-changed");
    assert_eq!(CleanupReason::Disconnect.label(), "disconnect");
    assert_eq!(CleanupReason::EmptyPayload.label(), "invalid-message-empty-payload");
}

fn monitor() -> ExitMonitor {
    ExitMonitor { team_id: "a".to_string(), container_id: "c1".to_string() }
}

fn restart_plan(a: ExitAction) -> RestartPlan {
    match a {
        ExitAction::ReadRuntime(plan) | ExitAction::Restart(plan) => plan,
        other => panic!("no restart: {:?}", other),
    }
}

#[test]
fn exited_bot_is_restarted() {
    assert!(!wants_log_tail(0) && wants_log_tail(137) && wants_log_tail(-1));
    let mut store = RaceRuntimeStore::new();
    register_official_race_runtime_car(&mut store, "a", 5, 105, 1);
    let mut bots = bots_of("a", bot(5));
    let watch = monitor();
    assert!(matches!(watch.on_exit(&bots, true), ExitAction::Sleep { delay_ms: 4_000 }));
    assert!(matches!(watch.on_exit(&bots, false), ExitAction::Sleep { delay_ms: 1_000 }));
    let plan = restart_plan(watch.on_delay(&store, &mut bots, true, 9));
    assert!(plan.race_started && plan.current.container_id == "c1");
    let race = Some(EngineActivityKind::OfficialRace);
    let plan = restart_plan(watch.on_runtime(plan, race, &store, &mut bots, true, 9));
    let new = NewContainer { container_id: "c2".to_string(), log_file_path: "log2".to_string() };
    let next = watch.on_restart(plan, Some(new), &store, &mut bots, true, 9);
    assert!(matches!(next, ExitAction::Watch { container_id } if container_id == "c2"));
    let now = bots.get("a").unwrap();
    assert_eq!((now.container_id.as_str(), now.log_file_path.as_str()), ("c2", "log2"));
    assert_eq!((now.auto_restart_attempts, now.public_car_id), (4, 5));
    assert!(matches!(watch.on_exit(&bots, true), ExitAction::Done));
    assert!(matches!(watch.on_delay(&store, &mut bots, true, 9), ExitAction::Done));
    assert_eq!(bots.get("a").unwrap().container_id, "c2");
}

#[test]
fn bot_without_restarts_is_parked() {
    let mut store = RaceRuntimeStore::new();
    register_official_race_runtime_car(&mut store, "a", 5, 105, 1);
    let mut tired = bot(5);
    tired.auto_restart_attempts = 12;
    let mut bots = bots_of("a", tired);
    bots.insert("b".to_string(), bot(6));
    let parked = match monitor().on_delay(&store, &mut bots, true, 123) {
        ExitAction::ToPit(parked) => parked,
        other => panic!("not parked: {:?}", other),
    };
    assert_eq!(parked.container_id, "c1");
    assert_eq!(bots.get("a").unwrap().container_id, "awaiting-slot-switch-123");
    assert!(matches!(monitor().on_exit(&bots, true), ExitAction::Done));
    assert_eq!(bots.get("b").unwrap().container_id, "c1");
    ExitMonitor::on_pit(&mut store, &parked, false, 1_000);
    assert_eq!(store.pit_state_snapshot(5, 1_500).emergency_lock_remaining_ms, 0);
    ExitMonitor::on_pit(&mut store, &parked, true, 1_000);
    assert_eq!(store.pit_state_snapshot(5, 1_500).emergency_lock_remaining_ms, 29_500);
}

#[test]
fn bot_of_another_session_leaves_with_its_car() {
    let mut store = RaceRuntimeStore::new();
    register_official_race_runtime_car(&mut store, "a", 5, 105, 1);
    let mut bots = bots_of("a", bot(5));
    let watch = monitor();
    let plan = restart_plan(watch.on_delay(&store, &mut bots, false, 9));
    let gone = match watch.on_runtime(plan, None, &store, &mut bots, false, 9) {
        ExitAction::Despawn(gone) => gone,
        other => panic!("still there: {:?}", other),
    };
    assert_eq!(gone.public_car_id, 5);
    assert!(!bots.contains_key("a"));
    assert_eq!(store.known_car_ids(), vec![5]);
    ExitMonitor::on_despawned(&mut store, &gone);
    assert_eq!(store.known_car_ids(), Vec::<u64>::new());

    let mut bots = bots_of("a", bot(5));
    let plan = RestartPlan { current: bot(5), race_started: false };
    let next = watch.on_restart(plan, None, &store, &mut bots, false, 9);
    assert!(matches!(next, ExitAction::Despawn(_)));
    let plan = RestartPlan { current: bot(5), race_started: false };
    let idle = Some(EngineActivityKind::Idle);
    let next = watch.on_runtime(plan, idle, &store, &mut bots, false, 9);
    assert!(matches!(next, ExitAction::Done));
}

fn stopped() -> EngineWorkerError {
    EngineWorkerError::WorkerStopped
}

#[test]
fn driver_joins_the_local_race() {
    let mut store = RaceRuntimeStore::new();
    let join = check_local_race_join("r", "Ada", Some("r")).unwrap();
    let spawned = on_race_car_spawned(&mut store, join, Ok(70)).unwrap();
    assert_eq!((spawned.car_id, spawned.engine_car_id), (1, 70));
    let registered = on_driver_registered(spawned, Ok(4)).unwrap();
    let slotted = on_slots_read(registered, Ok(3)).unwrap();
    assert_eq!(slotted.start_slot, 1);
    assert_eq!(store.known_car_ids(), Vec::<u64>::new());
    let joined = on_race_car_placed(&mut store, slotted, Ok(())).unwrap();
    assert_eq!((joined.car_id, joined.participant_index), (1, 4));
    assert_eq!(joined.race_id, "r");
    assert_eq!(store.known_car_ids(), vec![1]);
    assert!(store.car_target(1).unwrap().is_same(&local_race()));
    assert_eq!(store.car_engine_id(1), Some(70));
    let identity = store.car_identity(1).unwrap();
    assert_eq!(identity.local_race_display_name.as_deref(), Some("Ada"));
    assert_eq!(identity.local_race_participant_index, Some(4));
}

#[test]
fn refused_race_car_is_taken_back() {
    let mut store = RaceRuntimeStore::new();
    let join = || check_local_race_join("r", "Ada", Some("r")).unwrap();
    let r = on_race_car_spawned(&mut store, join(), Err(stopped())).unwrap_err();
    assert_eq!((r.undo, r.status.code), (Undo::Nothing, Code::Unavailable));
    assert_eq!(r.status.message, "engine worker stopped");
    let spawned = on_race_car_spawned(&mut store, join(), Ok(70)).unwrap();
    let r = on_driver_registered(spawned, Err(LocalRaceStateError::JoinClosed)).unwrap_err();
    assert_eq!(r.undo, Undo::Despawn { engine_car_id: 70 });
    assert_eq!(r.status.message, "local race join is allowed only in staging phase");

    let mut registered = || {
        let spawned = on_race_car_spawned(&mut store, join(), Ok(70)).unwrap();
        on_driver_registered(spawned, Ok(1)).unwrap()
    };
    let (first, second, third) = (registered(), registered(), registered());
    let r = on_slots_read(first, Err(stopped())).unwrap_err();
    assert_eq!((r.undo, r.status.code), (Undo::Nothing, Code::Unavailable));
    let r = on_slots_read(second, Ok(0)).unwrap_err();
    assert_eq!((r.undo, r.status.code), (Undo::Nothing, Code::FailedPrecondition));
    assert_eq!(r.status.message, "no start slots available for selected map");
    let slotted = on_slots_read(third, Ok(5)).unwrap();
    let broken = EngineWorkerError::Engine("stuck".to_string());
    let r = on_race_car_placed(&mut store, slotted, Err(broken)).unwrap_err();
    assert_eq!(r.undo, Undo::DespawnAndLeave { engine_car_id: 70, car_id: 4 });
    assert_eq!(r.status.message, "engine error: stuck");
    assert_eq!(store.known_car_ids(), Vec::<u64>::new());
}

#[test]
fn driver_joins_the_sandbox() {
    let state = runtime(EngineActivityKind::Sandbox);
    let found = begin_sandbox_join(&state, "").unwrap();
    assert_eq!((found.sandbox_id.as_str(), found.map_id.as_str()), ("s", "m"));
    let e = begin_sandbox_join(&state, "q").unwrap_err();
    assert_eq!(
        (e.code, e.message.as_str()),
        (Code::NotFound, "sandbox runtime is not active for sandbox_id=q")
    );
    let place = |mode| on_spawn_mode(70, Ok(mode), Err(stopped())).unwrap();
    assert_eq!(place(LocalSandboxSpawnModeRecord::StartLine), Placement::BeforeFinishLine);
    assert_eq!(place(LocalSandboxSpawnModeRecord::RandomOnTrack), Placement::RandomOnTrack);
    assert_eq!(place(LocalSandboxSpawnModeRecord::InPit), Placement::InPit);
    let random = Ok(LocalSandboxSpawnModeRecord::RandomStartSlot);
    assert_eq!(on_spawn_mode(70, random, Ok(1)).unwrap(), Placement::StartSlot(1));

    let mut store = RaceRuntimeStore::new();
    let claims = Some(TokenClaims {
        subject: "user".to_string(),
        team_id: None,
        instance_uuid: None,
    });
    let joined =
        on_sandbox_car_placed(&mut store, BackendMode::Local, "s", 70, Ok(()), claims).unwrap();
    assert_eq!(joined, 1);
    assert!(store.car_target(1).unwrap().is_same(&sandbox("s")));
    assert_eq!(store.car_identity(1).unwrap().subject.as_deref(), Some("user"));
}

#[test]
fn refused_sandbox_car_is_taken_back() {
    let missing = Status::not_found("no such sandbox");
    let r = on_spawn_mode(70, Err(missing), Ok(5)).unwrap_err();
    assert_eq!(r.undo, Undo::Despawn { engine_car_id: 70 });
    assert_eq!(r.status.message, "no such sandbox");
    let random = || Ok(LocalSandboxSpawnModeRecord::RandomStartSlot);
    let r = on_spawn_mode(70, random(), Err(stopped())).unwrap_err();
    assert_eq!(r.undo, Undo::Despawn { engine_car_id: 70 });
    assert_eq!(r.status.code, Code::Unavailable);
    let r = on_spawn_mode(70, random(), Ok(0)).unwrap_err();
    assert_eq!(r.undo, Undo::Despawn { engine_car_id: 70 });
    assert_eq!(r.status.message, "no start slots available for selected map");

    let mut store = RaceRuntimeStore::new();
    let mode = BackendMode::Local;
    let r = on_sandbox_car_placed(&mut store, mode, "s", 70, Err(stopped()), None).unwrap_err();
    assert_eq!(r.undo, Undo::Despawn { engine_car_id: 70 });
    let r = on_sandbox_car_placed(&mut store, mode, "s", 70, Ok(()), None).unwrap_err();
    assert_eq!((r.undo, r.status.code), (Undo::Nothing, Code::Unauthenticated));
    assert_eq!(store.known_car_ids(), Vec::<u64>::new());
}
