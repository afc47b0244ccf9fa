use game_server::engine::{
    EngineActiveSandboxState, EngineActivityKind, EngineRuntimeState, EngineRuntimeTimeOfDayPreset,
};
use game_server::float_bits::F32Bits;
use game_server::ghost_mode::{
    default_engine_ghost_mode_settings, engine_ghost_mode_settings_from_record,
    ghost_mode_from_proto, validate_ghost_mode, GhostModeSettings,
};
use game_server::local_sandbox::admin as local_admin;
use game_server::local_sandbox::records::{
    find_local_sandbox_by_id, local_spawn_mode_for_sandbox, local_spawn_mode_from_proto_value,
    local_spawn_mode_to_proto, local_time_of_day_from_proto, local_time_of_day_to_proto,
    local_weather_from_proto, local_weather_to_proto, resolve_runtime_time_of_day_preset,
    runtime_weather_now_from_local, EngineRuntimeWeatherType, LocalSandboxConfigInputRecord,
    LocalSandboxConfigRecord, LocalSandboxSpawnMode, LocalTimeOfDayMode, LocalTimeOfDayModeRecord,
    LocalTimeOfDaySettings, LocalTimeOfDaySettingsRecord, LocalWeatherSettings,
    LocalWeatherSettingsRecord, WeatherType, WeatherTypeRecord,
};
use game_server::local_sandbox::runtime::{build_runtime_state, LocalRuntimeFeed};
use game_server::menu::feed::{build_menu_state, FrontendMenuState, MenuFeed};
use game_server::participant::join::LocalSandboxSpawnModeRecord;
use game_server::sandbox_config::admin::{
    build_admin_runtime_state, build_sandbox_id_payload, check_effective_at, effective_time,
    is_sandbox_running, map_repo_error_to_status, plan_activation, plan_deactivation,
    plan_time_of_day, refuse_official_race_control, require_preset, require_sandbox_config,
    require_sandbox_id, require_sandbox_not_active, sandbox_id_v5, OfficialRaceControl,
    SandboxAdminServiceImpl, SandboxCommand, SandboxConfigRepoFailure,
};
use game_server::sandbox_config::records::{
    find_sandbox_by_id, sandbox_input_from_proto, sandbox_input_to_proto, sandbox_to_proto,
    validate_sandbox_name_and_map_id, EnginePendingSandboxActivation, SandboxConfigInput,
    SandboxConfigInputRecord, SandboxConfigRecord,
};
use game_server::status::Code;
use game_server::text_map::TextMap;
use game_server::time_of_day::{
    runtime_time_of_day_preset_from_proto, runtime_time_of_day_preset_to_proto,
    RuntimeTimeOfDayPreset, RuntimeTimeOfDayPresetRecord,
};
use game_server::timestamp::Timestamp;

fn bits(value: f32) -> F32Bits {
    F32Bits { bits: value.to_bits() }
}

fn ghost(enter: f32, exit: f32) -> GhostModeSettings {
    GhostModeSettings {
        enabled: true,
        enter_speed_max_mps: bits(enter),
        exit_speed_min_mps: bits(exit),
        enter_delay_ms: 1,
        exit_delay_ms: 2,
        until_completed_laps: 3,
        vehicle_overlap_exit_delay_ms: 4,
    }
}

fn sandbox(id: &str) -> SandboxConfigRecord {
    SandboxConfigRecord {
        sandbox_id: id.to_string(),
        config: SandboxConfigInputRecord {
            sandbox_name: format!("name {id}"),
            map_id: "monza".to_string(),
            time_of_day_preset: RuntimeTimeOfDayPreset::Evening,
            ghost_mode: Some(ghost(1.0, 2.0)),
        },
    }
}

fn active(id: &str) -> EngineActiveSandboxState {
    EngineActiveSandboxState {
        sandbox_id: id.to_string(),
        map_id: "monza".to_string(),
        time_of_day_preset: EngineRuntimeTimeOfDayPreset::Night,
    }
}

fn runtime(kind: EngineActivityKind, ids: &[&str]) -> EngineRuntimeState {
    EngineRuntimeState {
        revision: 9,
        activity_kind: kind,
        map_id: "monza".to_string(),
        time_of_day_preset: EngineRuntimeTimeOfDayPreset::Noon,
        active_sandboxes: ids.iter().map(|id| active(id)).collect(),
        active_local_race: None,
    }
}

fn wire() -> SandboxConfigInput {
    sandbox_input_to_proto(sandbox("s").config)
}

fn at(seconds: i64) -> Timestamp {
    Timestamp { seconds, nanos: 0 }
}

#[test]
fn speed_faults_are_found_in_order() {
    let message = |s| ghost_mode_from_proto(s).unwrap_err().message;
    assert_eq!(
        message(ghost(f32::NAN, -1.0)),
        "ghost_mode.enter_speed_max_mps must be finite and >= 0"
    );
    assert_eq!(
        message(ghost(1.0, f32::INFINITY)),
        "ghost_mode.exit_speed_min_mps must be finite and >= 0"
    );
    assert_eq!(
        message(ghost(3.0, 2.0)),
        "ghost_mode.enter_speed_max_mps must be <= ghost_mode.exit_speed_min_mps"
    );
    assert!(ghost_mode_from_proto(ghost(-0.0, 0.0)).is_ok());
}

#[test]
fn ghost_mode_limits_are_checked() {
    assert!(validate_ghost_mode(ghost(1.0, 1.0)).is_ok());
    let message = |s| validate_ghost_mode(s).unwrap_err().message;
    let mut s = ghost(1.0, 1.0);
    s.until_completed_laps = 100_001;
    assert_eq!(message(s), "ghost_mode.until_completed_laps must be <= 100000");
    s.vehicle_overlap_exit_delay_ms = 600_001;
    assert_eq!(message(s), "ghost_mode.vehicle_overlap_exit_delay_ms must be <= 600000");
    s.exit_delay_ms = 600_001;
    assert_eq!(message(s), "ghost_mode.exit_delay_ms must be <= 600000");
    s.enter_delay_ms = 600_001;
    assert_eq!(message(s), "ghost_mode.enter_delay_ms must be <= 600000");
}

#[test]
fn missing_ghost_mode_is_off_in_the_engine() {
    let off = default_engine_ghost_mode_settings();
    assert!(!off.enabled);
    assert_eq!(off.min_speed_enter_mps, bits(0.0));
    assert_eq!(engine_ghost_mode_settings_from_record(None), off);
    let on = engine_ghost_mode_settings_from_record(Some(ghost(1.0, 2.0)));
    assert_eq!(on.min_speed_enter_mps, bits(1.0));
    assert_eq!(on.min_speed_exit_mps, bits(2.0));
    assert_eq!(on.min_completed_laps, 3);
    assert_eq!(on.overlap_exit_delay_ms, 4);
}

#[test]
fn presets_round_trip_through_the_engine() {
    for preset in [
        RuntimeTimeOfDayPreset::Unspecified,
        RuntimeTimeOfDayPreset::Morning,
        RuntimeTimeOfDayPreset::Noon,
        RuntimeTimeOfDayPreset::Evening,
        RuntimeTimeOfDayPreset::Night,
    ] {
        let engine = runtime_time_of_day_preset_from_proto(preset);
        assert_eq!(runtime_time_of_day_preset_to_proto(engine), preset);
    }
}

#[test]
fn sandbox_faults_come_in_order() {
    let message = |i: &SandboxConfigInput| sandbox_input_from_proto(i).unwrap_err().message;
    let mut input = wire();
    input.map_id = " ".to_string();
    assert_eq!(message(&input), "map_id must be non-empty");
    input.sandbox_name = String::new();
    assert_eq!(message(&input), "sandbox_name must be non-empty");
    input.ghost_mode = Some(ghost(-1.0, 1.0));
    assert_eq!(message(&input), "ghost_mode.enter_speed_max_mps must be finite and >= 0");
    input.time_of_day_preset = Some(RuntimeTimeOfDayPreset::Unspecified);
    assert_eq!(message(&input), "time_of_day_preset must be specified");
    input.time_of_day_preset = None;
    assert_eq!(message(&input), "invalid time_of_day_preset");
}

#[test]
fn accepted_sandbox_goes_back_as_it_came() {
    let stored = sandbox_input_from_proto(&wire()).unwrap();
    let shown = sandbox_to_proto(SandboxConfigRecord { sandbox_id: "x".to_string(), config: stored });
    assert_eq!(shown.sandbox_id, "x");
    let config = shown.config.unwrap();
    assert_eq!(config.sandbox_name, wire().sandbox_name);
    assert_eq!(config.map_id, "monza");
    assert_eq!(config.time_of_day_preset, wire().time_of_day_preset);
    assert_eq!(config.ghost_mode, wire().ghost_mode);
}

#[test]
fn name_and_map_of_a_sandbox_are_checked() {
    assert!(validate_sandbox_name_and_map_id(" Test ", " a-B_9 ").is_ok());
    let message = |n: &str, m: &str| validate_sandbox_name_and_map_id(n, m).unwrap_err().message;
    assert_eq!(message(" ", "a"), "sandbox_name must be non-empty");
    assert!(validate_sandbox_name_and_map_id(&"é".repeat(64), "a").is_ok());
    assert_eq!(message(&"é".repeat(65), "a"), "sandbox_name must be at most 64 characters");
    assert_eq!(message("n", ""), "map_id must be non-empty");
    assert_eq!(message("n", "a/b"), "map_id contains invalid characters");
}

#[test]
fn found_sandbox_is_the_first_with_its_id() {
    let mut second = sandbox("a");
    second.config.map_id = "spa".to_string();
    let sandboxes = vec![sandbox("b"), sandbox("a"), second];
    assert_eq!(find_sandbox_by_id(&sandboxes, "a").unwrap().config.map_id, "monza");
    assert!(find_sandbox_by_id(&sandboxes, "c").is_none());
}

#[test]
fn sandbox_id_is_the_uuid_of_its_payload() {
    let config = sandbox("a").config;
    let payload = build_sandbox_id_payload(&config, 3, 7, 11);
    assert_eq!(
        payload,
        "expected_revision=7;sandbox_name=name a;map_id=monza;time_of_day_preset=3;ts_ns=11"
    );
    let expected = uuid::Uuid::new_v5(&uuid::Uuid::NAMESPACE_OID, payload.as_bytes());
    assert_eq!(sandbox_id_v5(&config, 3, 7, 11), expected.to_string());
}

#[test]
fn storage_failures_of_sandboxes_have_codes() {
    let code = |f| map_repo_error_to_status(f, "why".to_string()).code;
    assert_eq!(code(SandboxConfigRepoFailure::RevisionMismatch), Code::FailedPrecondition);
    assert_eq!(code(SandboxConfigRepoFailure::AlreadyExists), Code::AlreadyExists);
    assert_eq!(code(SandboxConfigRepoFailure::NotFound), Code::NotFound);
    assert_eq!(code(SandboxConfigRepoFailure::InvalidTimeOfDayPreset), Code::InvalidArgument);
    assert_eq!(code(SandboxConfigRepoFailure::InvalidGhostConditionLogic), Code::InvalidArgument);
    assert_eq!(code(SandboxConfigRepoFailure::Database), Code::Internal);
    assert_eq!(code(SandboxConfigRepoFailure::StateMissing), Code::Internal);
    assert_eq!(code(SandboxConfigRepoFailure::PartialGhostData), Code::Internal);
    assert_eq!(code(SandboxConfigRepoFailure::NumericOutOfRange), Code::Internal);
    assert_eq!(code(SandboxConfigRepoFailure::RevisionOverflow), Code::Internal);
}

#[test]
fn running_sandbox_is_not_modified() {
    let state = runtime(EngineActivityKind::Sandbox, &["a"]);
    assert!(is_sandbox_running(&state, "a"));
    let err = require_sandbox_not_active(&state, "a").unwrap_err();
    assert_eq!(err.code, Code::FailedPrecondition);
    assert_eq!(err.message, "active sandbox cannot be modified");
    assert!(require_sandbox_not_active(&state, "b").is_ok());
    let racing = runtime(EngineActivityKind::OfficialRace, &["a"]);
    assert!(require_sandbox_not_active(&racing, "a").is_ok());
    assert!(local_admin::require_sandbox_not_active(&racing, "a").is_err());
}

#[test]
fn sandbox_requests_need_their_parts() {
    assert_eq!(require_sandbox_id("  ").unwrap_err().message, "sandbox_id must be non-empty");
    assert!(require_sandbox_id("a").is_ok());
    assert_eq!(require_sandbox_config(&None).unwrap_err().message, "config is required");
    assert_eq!(require_sandbox_config(&Some(wire())).unwrap().map_id, "monza");
    assert_eq!(require_preset(None).unwrap_err().message, "invalid preset");
    assert_eq!(
        require_preset(Some(RuntimeTimeOfDayPreset::Unspecified)).unwrap_err().message,
        "preset must be specified"
    );
    assert_eq!(
        require_preset(Some(RuntimeTimeOfDayPreset::Noon)).unwrap(),
        RuntimeTimeOfDayPreset::Noon
    );
    let service = SandboxAdminServiceImpl::with_repo(1u8, 2u8, 3u8, 4u8);
    assert_eq!((service.repo, service.token_validator), (1, 2));
    assert_eq!((service.engine, service.sandbox_config_invalidation), (3, 4));
}

#[test]
fn time_of_day_is_all_that_changes() {
    let sandboxes = vec![sandbox("a")];
    let planned = plan_time_of_day(&sandboxes, "a", RuntimeTimeOfDayPreset::Morning).unwrap();
    assert_eq!(planned.sandbox_id, "a");
    assert_eq!(planned.config.sandbox_name, "name a");
    assert_eq!(planned.config.ghost_mode, Some(ghost(1.0, 2.0)));
    assert_eq!(planned.config.time_of_day_preset, RuntimeTimeOfDayPreset::Morning);
    let err = plan_time_of_day(&sandboxes, "z", RuntimeTimeOfDayPreset::Noon).unwrap_err();
    assert_eq!(err.code, Code::NotFound);
    assert_eq!(err.message, "sandbox config not found: z");
}

#[test]
fn effective_time_lies_in_the_future() {
    assert_eq!(check_effective_at(&at(11), &at(10)).unwrap(), 11_000);
    let err = check_effective_at(&at(10), &at(10)).unwrap_err();
    assert_eq!(err.message, "effective_at_utc must be in the future");
    let bad = Timestamp { seconds: 0, nanos: -1 };
    assert_eq!(check_effective_at(&bad, &at(1)).unwrap_err().code, Code::InvalidArgument);
    let late = Timestamp { seconds: i64::MAX, nanos: 0 };
    assert_eq!(check_effective_at(&at(1), &late).unwrap_err().code, Code::OutOfRange);
    assert_eq!(effective_time(Some(1_500), at(3)), Timestamp { seconds: 1, nanos: 500_000_000 });
    assert_eq!(effective_time(None, at(3)), at(3));
}

#[test]
fn sandboxes_are_started_and_stopped() {
    let sandboxes = vec![sandbox("a")];
    match plan_activation(&sandboxes, "a", Some(5)).unwrap() {
        SandboxCommand::SetPending(p) => {
            assert!(p.activate);
            assert_eq!((p.sandbox_id.as_str(), p.execute_at_unix_ms), ("a", 5));
            assert_eq!(p.map_id.as_deref(), Some("monza"));
            assert_eq!(p.time_of_day_preset, Some(EngineRuntimeTimeOfDayPreset::Evening));
            assert_eq!(p.ghost_mode_settings.unwrap().min_speed_exit_mps, bits(2.0));
        }
        other => panic!("{other:?}"),
    }
    match plan_activation(&sandboxes, "a", None).unwrap() {
        SandboxCommand::Switch { map_id, sandbox_id, time_of_day_preset, ghost_mode_settings } => {
            assert_eq!((map_id.as_str(), sandbox_id.as_str()), ("monza", "a"));
            assert_eq!(time_of_day_preset, EngineRuntimeTimeOfDayPreset::Evening);
            assert!(ghost_mode_settings.enabled);
        }
        other => panic!("{other:?}"),
    }
    assert_eq!(plan_activation(&sandboxes, "z", None).unwrap_err().code, Code::NotFound);
    match plan_deactivation("z", Some(5)) {
        SandboxCommand::SetPending(p) => {
            assert!(!p.activate && p.map_id.is_none() && p.time_of_day_preset.is_none());
        }
        other => panic!("{other:?}"),
    }
    match plan_deactivation("z", None) {
        SandboxCommand::Deactivate { sandbox_id } => assert_eq!(sandbox_id, "z"),
        other => panic!("{other:?}"),
    }
}

#[test]
fn admin_sees_running_sandboxes_and_what_is_pending() {
    let pending = vec![EnginePendingSandboxActivation {
        activate: true,
        sandbox_id: "b".to_string(),
        execute_at_unix_ms: 2_000,
        map_id: None,
        time_of_day_preset: None,
        ghost_mode_settings: None,
    }];
    let running = vec![active("x"), active("a")];
    let configs = vec![sandbox("a"), sandbox("b")];
    let state = build_admin_runtime_state(
        4,
        EngineActivityKind::Sandbox,
        &running,
        &pending,
        &configs,
        at(1),
    );
    assert_eq!(state.revision, 4);
    assert_eq!(state.server_time_utc, Some(at(1)));
    let mode = state.active_mode.unwrap();
    assert_eq!(mode.sandboxes.len(), 1);
    assert_eq!(mode.sandboxes[0].sandbox_id, "a");
    assert_eq!(mode.sandboxes[0].active_time_of_day_preset, RuntimeTimeOfDayPreset::Night);
    assert_eq!(mode.pending_sandbox_operations[0].execute_at_utc, Some(at(2)));
    let idle = build_admin_runtime_state(
        4,
        EngineActivityKind::Idle,
        &running,
        &pending,
        &configs,
        at(1),
    );
    assert!(idle.active_mode.is_none());
}

#[test]
fn official_race_controls_are_refused() {
    assert_eq!(
        refuse_official_race_control(OfficialRaceControl::StartCountdown).message,
        "official race countdown controls are not implemented yet"
    );
    assert_eq!(
        refuse_official_race_control(OfficialRaceControl::Abort).message,
        "official race abort controls are not implemented yet"
    );
    let close = refuse_official_race_control(OfficialRaceControl::CloseSession);
    assert_eq!(close.message, "official race close controls are not implemented yet");
    assert_eq!(close.code, Code::Unimplemented);
}

#[test]
fn passing_time_does_not_repeat_the_menu() {
    let running = vec![active("a")];
    let configs = vec![sandbox("a")];
    let menu = |t| {
        build_menu_state(EngineActivityKind::Sandbox, &running, &configs, Vec::new(), at(t))
    };
    let mut feed = MenuFeed::new();
    assert!(feed.on_state(&menu(1)));
    assert!(!feed.on_state(&menu(2)));
    let mut renamed = configs.clone();
    renamed[0].config.sandbox_name = "other".to_string();
    let changed =
        build_menu_state(EngineActivityKind::Sandbox, &running, &renamed, Vec::new(), at(3));
    assert!(feed.on_state(&changed));
    let idle = build_menu_state(EngineActivityKind::Idle, &running, &configs, Vec::new(), at(3));
    assert!(idle.runtime.as_ref().unwrap().active_mode.is_none());
    assert!(feed.on_state(&idle));
    assert!(!feed.on_state(&idle));
}

#[test]
fn speeds_that_are_no_numbers_are_always_news() {
    let mut odd = sandbox("a");
    odd.config.ghost_mode = Some(ghost(f32::NAN, 1.0));
    let menu = build_menu_state(
        EngineActivityKind::Sandbox,
        &vec![active("a")],
        &vec![odd],
        Vec::new(),
        at(1),
    );
    let mut feed = MenuFeed::new();
    assert!(feed.on_state(&menu));
    assert!(feed.on_state(&menu));
}

#[test]
fn frontend_menu_compares_with_its_time() {
    let running = vec![active("a")];
    let configs = vec![sandbox("a")];
    let at_one = FrontendMenuState::build(EngineActivityKind::Idle, &running, &configs, at(1));
    assert_eq!(at_one.active_sandboxes.len(), 1);
    assert_eq!(at_one.active_sandboxes[0].active_player_count, 0);
    let same = FrontendMenuState::build(EngineActivityKind::Idle, &running, &configs, at(1));
    assert!(at_one.is_equal(&same));
    let later = FrontendMenuState::build(EngineActivityKind::Idle, &running, &configs, at(2));
    assert!(!at_one.is_equal(&later));
}

fn local_sandbox(id: &str) -> LocalSandboxConfigRecord {
    LocalSandboxConfigRecord {
        sandbox_id: id.to_string(),
        config: LocalSandboxConfigInputRecord {
            sandbox_name: "local".to_string(),
            map_id: "spa".to_string(),
            time_of_day: LocalTimeOfDaySettingsRecord {
                mode: LocalTimeOfDayModeRecord::FixedPreset,
                fixed_preset: RuntimeTimeOfDayPresetRecord::Evening,
            },
            ghost_mode: None,
            weather: LocalWeatherSettingsRecord {
                weather_type: WeatherTypeRecord::LightRain,
                temperature_c: -3,
            },
            spawn_mode: LocalSandboxSpawnModeRecord::InPit,
        },
    }
}

#[test]
fn local_time_of_day_round_trips() {
    let record = local_sandbox("a").config.time_of_day;
    let read = local_time_of_day_from_proto(&local_time_of_day_to_proto(record)).unwrap();
    assert_eq!(read, record);
    assert_eq!(
        resolve_runtime_time_of_day_preset(record),
        EngineRuntimeTimeOfDayPreset::Evening
    );
}

#[test]
fn local_time_of_day_faults() {
    let message = |mode, fixed_preset| {
        local_time_of_day_from_proto(&LocalTimeOfDaySettings { mode, fixed_preset })
            .unwrap_err()
            .message
    };
    let noon = Some(RuntimeTimeOfDayPreset::Noon);
    let unset = Some(RuntimeTimeOfDayPreset::Unspecified);
    assert_eq!(message(None, noon), "invalid time_of_day.mode");
    assert_eq!(
        message(Some(LocalTimeOfDayMode::Unspecified), None),
        "time_of_day.mode must be specified"
    );
    assert_eq!(
        message(Some(LocalTimeOfDayMode::FixedPreset), None),
        "invalid time_of_day.fixed_preset"
    );
    assert_eq!(
        message(Some(LocalTimeOfDayMode::FixedPreset), unset),
        "time_of_day.fixed_preset must be specified for fixed mode"
    );
    let auto = local_time_of_day_from_proto(&LocalTimeOfDaySettings {
        mode: Some(LocalTimeOfDayMode::AutoByLocalTime),
        fixed_preset: unset,
    })
    .unwrap();
    assert_eq!(auto.fixed_preset, RuntimeTimeOfDayPresetRecord::Noon);
}

#[test]
fn local_weather_is_kept_apart() {
    let all = [
        WeatherTypeRecord::Clear,
        WeatherTypeRecord::PartlyCloudy,
        WeatherTypeRecord::Overcast,
        WeatherTypeRecord::LightRain,
        WeatherTypeRecord::MediumRain,
        WeatherTypeRecord::HeavyRain,
    ];
    for weather_type in all {
        let record = LocalWeatherSettingsRecord { weather_type, temperature_c: 7 };
        assert_eq!(local_weather_from_proto(&local_weather_to_proto(record)).unwrap(), record);
    }
    let now = runtime_weather_now_from_local(local_sandbox("a").config.weather);
    assert_eq!(now.weather_type, EngineRuntimeWeatherType::LightRain);
    assert_eq!(now.temperature_c, -3);
    let message = |weather_type| {
        local_weather_from_proto(&LocalWeatherSettings { weather_type, temperature_c: 0 })
            .unwrap_err()
            .message
    };
    assert_eq!(message(None), "invalid weather.weather_type");
    assert_eq!(message(Some(WeatherType::Unspecified)), "weather.weather_type must be specified");
}

#[test]
fn local_settings_must_be_given() {
    let e = local_admin::require_time_of_day(&None).unwrap_err();
    assert_eq!((e.code, e.message.as_str()), (Code::InvalidArgument, "time_of_day is required"));
    let night = LocalTimeOfDaySettings {
        mode: Some(LocalTimeOfDayMode::FixedPreset),
        fixed_preset: Some(RuntimeTimeOfDayPreset::Night),
    };
    let record = local_admin::require_time_of_day(&Some(night)).unwrap();
    assert_eq!(record.mode, LocalTimeOfDayModeRecord::FixedPreset);
    assert_eq!(record.fixed_preset, RuntimeTimeOfDayPresetRecord::Night);
    let e = local_admin::require_weather(&None).unwrap_err();
    assert_eq!((e.code, e.message.as_str()), (Code::InvalidArgument, "weather is required"));
    let rain = LocalWeatherSettings {
        weather_type: Some(WeatherType::HeavyRain),
        temperature_c: 4,
    };
    let record = local_admin::require_weather(&Some(rain)).unwrap();
    assert_eq!((record.weather_type, record.temperature_c), (WeatherTypeRecord::HeavyRain, 4));
    let unset = LocalWeatherSettings { weather_type: None, temperature_c: 4 };
    let e = local_admin::require_weather(&Some(unset)).unwrap_err();
    assert_eq!(e.message, "invalid weather.weather_type");
}

#[test]
fn local_spawn_modes_are_read() {
    for mode in [
        LocalSandboxSpawnModeRecord::StartLine,
        LocalSandboxSpawnModeRecord::RandomOnTrack,
        LocalSandboxSpawnModeRecord::InPit,
        LocalSandboxSpawnModeRecord::RandomStartSlot,
    ] {
        let read = local_spawn_mode_from_proto_value(Some(local_spawn_mode_to_proto(mode)));
        assert_eq!(read.unwrap(), mode);
    }
    assert_eq!(
        local_spawn_mode_from_proto_value(None).unwrap_err().message,
        "invalid spawn_mode"
    );
    assert_eq!(
        local_spawn_mode_from_proto_value(Some(LocalSandboxSpawnMode::Unspecified))
            .unwrap_err()
            .message,
        "spawn_mode must be specified"
    );
    let sandboxes = vec![local_sandbox("a")];
    assert_eq!(
        local_spawn_mode_for_sandbox(&sandboxes, "a").unwrap(),
        LocalSandboxSpawnModeRecord::InPit
    );
    assert_eq!(
        local_spawn_mode_for_sandbox(&sandboxes, "b").unwrap_err().message,
        "local sandbox config not found for sandbox_id=b"
    );
}

#[test]
fn local_sandbox_is_found_by_its_id() {
    let sandboxes = vec![local_sandbox("a"), local_sandbox("b")];
    assert_eq!(find_local_sandbox_by_id(&sandboxes, "b").unwrap().sandbox_id, "b");
    assert!(find_local_sandbox_by_id(&sandboxes, "c").is_none());
    assert_eq!(
        local_admin::require_local_sandbox(&sandboxes, "c").unwrap_err().message,
        "local sandbox config not found: c"
    );
}

#[test]
fn local_limit_is_kept() {
    let state = runtime(EngineActivityKind::Sandbox, &["a", "b"]);
    let plan = |id: &str, revision, max| {
        local_admin::plan_local_activation(&state, revision, max, local_sandbox(id))
    };
    assert_eq!(
        plan("c", 8, 9).unwrap_err().message,
        "runtime revision mismatch: expected 8, actual 9"
    );
    let err = plan("c", 9, 2).unwrap_err();
    assert_eq!(err.code, Code::FailedPrecondition);
    assert_eq!(err.message, "active sandbox limit reached (2)");
    assert!(plan("a", 9, 2).is_ok());
    let ok = plan("c", 9, 3).unwrap();
    assert_eq!((ok.map_id.as_str(), ok.sandbox_id.as_str()), ("spa", "c"));
    assert!(!ok.ghost_mode_settings.enabled);
    assert_eq!(ok.weather_now.temperature_c, -3);
}

#[test]
fn start_times_follow_activation() {
    let mut started: TextMap<Timestamp> = TextMap::new();
    let undo =
        local_admin::finish_local_activation(&mut started, "a", 9, false, at(1)).unwrap_err();
    assert_eq!((undo.expected_revision, undo.sandbox_id.as_str()), (9, "a"));
    assert_eq!(
        (undo.status.code, undo.status.message.as_str()),
        (Code::Internal, "failed to apply local sandbox weather during activation")
    );
    assert!(started.get("a").is_none());
    assert!(local_admin::finish_local_activation(&mut started, "a", 9, true, at(1)).is_ok());
    assert_eq!(started.get("a"), Some(&at(1)));
    local_admin::forget_start(&mut started, "a");
    assert!(started.get("a").is_none());
    assert!(local_admin::reaches_engine(&runtime(EngineActivityKind::Sandbox, &["a"]), "a"));
    let service = local_admin::LocalSandboxAdminServiceImpl::new(1u8, 2u8, 3u8, 4, 5u8, 6u8);
    assert_eq!(service.max_active_sandboxes, 4);
    assert!(service.started_at_utc.keys().is_empty());
}

#[test]
fn local_store_failures_have_codes() {
    let code = |f| local_admin::map_store_err(f, "why".to_string()).code;
    use_codes(&[
        (code(local_admin::LocalStoreFailure::RevisionMismatch), Code::FailedPrecondition),
        (code(local_admin::LocalStoreFailure::AlreadyExists), Code::AlreadyExists),
        (code(local_admin::LocalStoreFailure::NotFound), Code::NotFound),
        (code(local_admin::LocalStoreFailure::InvalidConfig), Code::InvalidArgument),
        (code(local_admin::LocalStoreFailure::Io), Code::Internal),
        (code(local_admin::LocalStoreFailure::Serde), Code::Internal),
    ]);
}

fn use_codes(pairs: &[(Code, Code)]) {
    for (actual, expected) in pairs {
        assert_eq!(actual, expected);
    }
}

#[test]
fn local_sandbox_id_is_the_uuid_of_its_payload() {
    let config = local_sandbox("a").config;
    let payload = local_admin::build_local_sandbox_id_payload(&config, 1, 3, 7, 11);
    assert_eq!(
        payload,
        "expected_revision=7;sandbox_name=local;map_id=spa;mode=1;spawn_mode=3;ts_ns=11"
    );
    let expected = uuid::Uuid::new_v5(&uuid::Uuid::NAMESPACE_OID, payload.as_bytes());
    assert_eq!(local_admin::local_sandbox_id_v5(&config, 1, 3, 7, 11), expected.to_string());
}

#[test]
fn track_of_a_map_must_exist() {
    assert_eq!(
        local_admin::check_track_map_id(" ").unwrap_err().message,
        "map_id must be non-empty"
    );
    assert_eq!(
        local_admin::check_track_map_id(" a").unwrap_err().message,
        "map_id contains invalid characters"
    );
    assert!(local_admin::check_track_map_id("a_1").is_ok());
    assert_eq!(local_admin::track_file_name("a_1"), "a_1.glb");
    assert!(local_admin::track_existence("m", Ok(true)).is_ok());
    assert_eq!(
        local_admin::track_existence("m", Ok(false)).unwrap_err().message,
        "track not found for map_id: m"
    );
    assert_eq!(
        local_admin::track_existence("m", Err("io".to_string())).unwrap_err().message,
        "failed to validate track existence for map_id m: io"
    );
}

#[test]
fn local_runtime_state_is_told_once() {
    let state = runtime(EngineActivityKind::Sandbox, &["a", "x"]);
    let configs = vec![local_sandbox("a")];
    let mut started: TextMap<Timestamp> = TextMap::new();
    started.insert("a".to_string(), at(5));
    let mut counts: TextMap<u32> = TextMap::new();
    counts.insert("a".to_string(), 2);
    let shown = build_runtime_state(&state, &configs, &started, &counts, at(9));
    assert_eq!(shown.revision, 9);
    assert_eq!(shown.active_sandboxes.len(), 1);
    let info = &shown.active_sandboxes[0];
    assert_eq!(info.started_at_utc, Some(at(5)));
    assert_eq!(info.active_player_count, 2);
    assert_eq!(info.spawn_mode, LocalSandboxSpawnMode::InPit);
    let mut feed = LocalRuntimeFeed::new();
    assert!(feed.on_state(&shown));
    let later = build_runtime_state(&state, &configs, &started, &counts, at(10));
    assert!(!feed.on_state(&later));
    counts.insert("a".to_string(), 3);
    let joined = build_runtime_state(&state, &configs, &started, &counts, at(10));
    assert!(feed.on_state(&joined));
}
