use game_server::engine::{
    find_active_sandbox, map_worker_err, EngineActiveSandboxState, EngineCommandTarget,
    EngineRuntimeTimeOfDayPreset, EngineWorkerError,
};
use game_server::float_bits::F32Bits;
use game_server::id_map::{has_id, IdMap};
use game_server::mappers::{
    controls_from_proto, engine_gear_shift_to_proto, gear_number, ghost_mode_blockers_to_proto,
    ghost_mode_phase_to_proto, ground_type_to_proto, proto_dev_to_controls,
    proto_gear_shift_to_engine, runtime_tire_type_from_proto, tire_telemetry_from_state,
    EngineGearShift, EngineGhostModePhase, Gear, GhostModeBlocker, GhostModeBlockerFlags,
    GhostModeRuntimeState, GroundType, PerWheel, TyreType, WireControls, WireGearShift,
    WireGhostModePhase, WireGroundType,
};
use game_server::mode::BackendMode;
use game_server::race::runtime_store::{
    RaceRuntimeStore, RuntimeControlInputSnapshot, RuntimePitTireType,
};
use game_server::sorting::sort_ranked;
use game_server::asset::catalog::MapCatalogEntry;
use game_server::status::Code;
use game_server::telemetry::{
    frontend_full_state, participant_opponent_state, participant_self_state, track_data_to_proto,
    CenterlineCourse, CenterlineSample, CommandCooldownState, GroundWidth, LapTimes, Quaternion,
    TrackData, Vector3, VehicleState,
};
use game_server::text::{
    has_suffix, is_all_alphanumeric, is_all_word, is_same_but_for_case, is_text_before, join2,
    join3, join_path, parse_u64, push_decimal, push_signed_decimal, split, take_prefix,
    take_suffix, trim, without_last,
};
use game_server::text_map::TextMap;

fn bits(value: f32) -> F32Bits {
    F32Bits { bits: value.to_bits() }
}

fn wheels(value: f32) -> PerWheel {
    PerWheel {
        front_left: bits(value),
        front_right: bits(value),
        rear_left: bits(value),
        rear_right: bits(value),
    }
}

#[test]
fn trimming_follows_unicode_whitespace() {
    for s in ["", " ", "a", " a b ", "\u{a0}x\u{3000}", "\t\n"] {
        assert_eq!(trim(s), s.trim());
        assert_eq!(trim(&trim(s)), trim(s));
    }
}

#[test]
fn white_space_is_twenty_five_characters() {
    let spaces: Vec<u32> = ('\0'..=char::MAX)
        .filter(|c| trim(c.to_string().as_str()).is_empty())
        .map(|c| c as u32)
        .collect();
    let mut expected: Vec<u32> = (0x09..=0x0d).collect();
    expected.extend([0x20, 0x85, 0xa0, 0x1680]);
    expected.extend(0x2000..=0x200a);
    expected.extend([0x2028, 0x2029, 0x202f, 0x205f, 0x3000]);
    assert_eq!(spaces, expected);
    assert_eq!(spaces.len(), 25);
}

#[test]
fn numbers_are_written_and_read() {
    let mut s = String::new();
    push_decimal(&mut s, 0);
    push_decimal(&mut s, u128::MAX);
    assert_eq!(s, "0340282366920938463463374607431768211455");
    let mut t = String::new();
    push_signed_decimal(&mut t, i64::MIN);
    assert_eq!(t, "-9223372036854775808");
    assert_eq!(parse_u64("18446744073709551615"), Some(u64::MAX));
    assert_eq!(parse_u64("18446744073709551616"), None);
    assert_eq!(parse_u64("+7"), Some(7));
    for bad in ["", "+", "-1", " 1", "1a"] {
        assert_eq!(parse_u64(bad), None);
    }
}

#[test]
fn texts_are_cut_and_joined() {
    assert_eq!(take_prefix("héllo", 2), "hé");
    assert_eq!(take_suffix("héllo", 4), "éllo");
    assert_eq!(take_suffix("ab", 4), "ab");
    assert_eq!(join2("a", "b"), "ab");
    assert_eq!(join3("a", "b", "c"), "abc");
    assert!(has_suffix("x.glb", ".glb"));
    assert!(!has_suffix("glb", ".glb"));
    assert_eq!(without_last("x.glb", 4), "x");
    assert!(is_all_word("a-B_9") && !is_all_word("a.b"));
    assert!(is_all_alphanumeric("aB9") && !is_all_alphanumeric("a-b"));
    assert!(is_same_but_for_case("BeArEr", "bearer"));
    assert!(!is_same_but_for_case("é", "É"));
}

#[test]
fn paths_are_joined() {
    assert_eq!(join_path("/tracks", "monza"), "/tracks/monza");
    assert_eq!(join_path("/tracks/", "monza"), "/tracks/monza");
    assert_eq!(join_path("", "monza"), "monza");
    assert_eq!(join_path("/tracks", "/monza"), "/monza");
    assert_eq!(join_path("/tracks", ""), "/tracks/");
}

#[test]
fn texts_are_ordered_as_strings_are() {
    for (a, b) in [("a", "b"), ("", "a"), ("a", "ab"), ("Z", "a"), ("é", "ü"), ("x", "x")] {
        assert_eq!(is_text_before(a, b), a < b);
        assert_eq!(is_text_before(b, a), b < a);
    }
}

#[test]
fn splitting_keeps_empty_pieces() {
    assert_eq!(split("a,,b,", ','), vec!["a", "", "b", ""]);
    assert_eq!(split("", ','), vec![""]);
    // Splitting goes on where the first part ended.
    assert_eq!(split("a\nb", '\n').len() + split("c\nd", '\n').len() - 1, split("a\nbc\nd", '\n').len());
}

#[test]
fn text_map_keeps_one_value_for_a_key() {
    let mut m: TextMap<u8> = TextMap::new();
    m.insert("a".to_string(), 1);
    m.insert("b".to_string(), 2);
    m.insert("a".to_string(), 3);
    assert_eq!(m.keys().len(), 2);
    assert_eq!(m.get("a"), Some(&3));
    let keys = m.keys();
    assert!(keys.contains(&"a".to_string()) && keys.contains(&"b".to_string()));
    assert_eq!(m.remove("a"), Some(3));
    assert_eq!(m.remove("a"), None);
    assert!(!m.contains_key("a") && m.contains_key("b"));
}

#[test]
fn id_map_lists_ids_in_order() {
    let mut m: IdMap<&str> = IdMap::new();
    m.insert(9, "x");
    m.insert(2, "y");
    m.insert(5, "z");
    m.insert(9, "w");
    assert_eq!(m.ids(), vec![2, 5, 9]);
    assert_eq!(m.get(9), Some(&"w"));
    m.retain(&vec![9, 2]);
    assert_eq!(m.ids(), vec![2, 9]);
    assert_eq!(m.take(2), Some("y"));
    m.remove(9);
    assert!(!m.contains_key(9) && m.ids().is_empty());
    assert!(has_id(&vec![1, 2], 2) && !has_id(&vec![1], 2));
}

#[test]
fn sorting_is_stable() {
    let entry = |name: &str, id: &str| MapCatalogEntry {
        map_id: id.to_string(),
        display_name: name.to_string(),
    };
    let sorted = sort_ranked(vec![entry("b", "1"), entry("a", "2"), entry("a", "1")]);
    let shown: Vec<(&str, &str)> =
        sorted.iter().map(|e| (e.map_id.as_str(), e.display_name.as_str())).collect();
    assert_eq!(shown, vec![("1", "b"), ("1", "a"), ("2", "a")]);
}

#[test]
fn float_questions_agree_with_the_numbers() {
    let all = [
        0.0,
        -0.0,
        1.0,
        -1.0,
        f32::MIN_POSITIVE,
        f32::MAX,
        f32::MIN,
        f32::INFINITY,
        f32::NEG_INFINITY,
        f32::NAN,
    ];
    for a in all {
        assert_eq!(bits(a).is_finite(), a.is_finite());
        assert_eq!(bits(a).is_nan(), a.is_nan());
        assert_eq!(bits(a).is_zero(), a == 0.0);
        assert_eq!(bits(a).is_below_zero(), a < 0.0);
        for b in all {
            assert_eq!(bits(a).is_above(bits(b)), a > b);
            assert_eq!(bits(a).is_equal(bits(b)), a == b);
        }
    }
}

#[test]
fn backend_modes() {
    assert!(BackendMode::Official.is_official() && !BackendMode::Official.is_local());
    assert!(BackendMode::Local.is_local() && !BackendMode::Local.is_standalone());
    assert!(BackendMode::Standalone.is_local() && BackendMode::Standalone.is_standalone());
}

#[test]
fn engine_errors_have_one_shape() {
    let of = |e| {
        let s = map_worker_err(e);
        (s.code, s.message)
    };
    assert_eq!(
        of(EngineWorkerError::Engine("boom".to_string())),
        (Code::Internal, "engine error: boom".to_string())
    );
    assert_eq!(
        of(EngineWorkerError::WorkerStopped),
        (Code::Unavailable, "engine worker stopped".to_string())
    );
    assert_eq!(
        of(EngineWorkerError::InvalidArgument("bad".to_string())),
        (Code::InvalidArgument, "bad".to_string())
    );
}

#[test]
fn targets_and_sandboxes_are_found() {
    let sandbox = |id: &str| EngineCommandTarget::Sandbox { sandbox_id: id.to_string() };
    assert!(sandbox("a").is_same(&sandbox("a")));
    assert!(!sandbox("a").is_same(&sandbox("b")));
    assert!(!sandbox("a").is_same(&EngineCommandTarget::LocalRace { race_id: "a".to_string() }));
    assert!(EngineCommandTarget::OfficialRace.is_official_race());
    let active = |id: &str| EngineActiveSandboxState {
        sandbox_id: id.to_string(),
        map_id: String::new(),
        time_of_day_preset: EngineRuntimeTimeOfDayPreset::Noon,
    };
    let all = vec![active("a"), active("b"), active("b")];
    assert_eq!(find_active_sandbox(&all, "b"), Some(1));
    assert_eq!(find_active_sandbox(&all, "c"), None);
}

#[test]
fn gear_shifts_round_trip() {
    for shift in [EngineGearShift::Hold, EngineGearShift::Upshift, EngineGearShift::Downshift] {
        let back = proto_gear_shift_to_engine(Some(engine_gear_shift_to_proto(shift)));
        assert_eq!(back.unwrap(), shift);
    }
    assert_eq!(
        proto_gear_shift_to_engine(Some(WireGearShift::Unspecified)).unwrap(),
        EngineGearShift::Hold
    );
    assert_eq!(proto_gear_shift_to_engine(None).unwrap_err().message, "invalid gear_shift");
}

#[test]
fn controls_are_mapped() {
    let wire = WireControls {
        throttle: bits(0.1),
        brake: bits(0.2),
        brake_balancer: bits(0.3),
        differential_lock: bits(0.4),
        steering: bits(-0.5),
        gear_shift: Some(WireGearShift::Upshift),
    };
    let controls = controls_from_proto(wire).unwrap();
    assert_eq!(controls.brake_balancer, bits(0.3));
    assert_eq!(controls.steering, bits(-0.5));
    assert_eq!(controls.gear_shift, EngineGearShift::Upshift);
    let dev = proto_dev_to_controls(bits(1.0), bits(0.0), bits(0.0), Some(WireGearShift::Hold));
    let dev = dev.unwrap();
    assert_eq!(dev.brake_balancer, bits(0.5));
    assert_eq!(dev.differential_lock, bits(0.0));
}

fn vehicle(health: f32) -> VehicleState {
    VehicleState {
        chassis_position: Vector3 { x: bits(1.0), y: bits(2.0), z: bits(3.0) },
        vehicle_orientation: Quaternion { x: bits(0.0), y: bits(0.0), z: bits(0.0), w: bits(1.0) },
        speed: bits(40.0),
        engine_rpm: bits(9000.0),
        gear: Gear::Forward(5),
        ghost_mode_runtime: GhostModeRuntimeState {
            can_collide_now: true,
            phase: EngineGhostModePhase::PendingEnter,
            blockers: GhostModeBlockerFlags {
                laps_requirement_not_met: true,
                exit_speed_not_met: false,
                exit_delay_running: false,
                vehicle_overlap_active: false,
                overlap_exit_delay_running: false,
                in_pit: true,
            },
            exit_delay_remaining_ms: 12,
        },
        pitstop_zone_mask: 6,
        wheels_in_pitstop: 4,
        tyre_type: TyreType::Soft,
        tyre_health: wheels(health),
        tyre_temperature_celsius: wheels(0.0),
        tyre_slip: wheels(0.0),
        wheel_speeds: wheels(100.0),
        front_left_wheel_orientation_rad: bits(0.1),
        front_right_wheel_orientation_rad: bits(0.2),
    }
}

#[test]
fn ghost_mode_is_shown() {
    assert_eq!(
        ghost_mode_phase_to_proto(EngineGhostModePhase::PendingEnter),
        WireGhostModePhase::Inactive
    );
    assert_eq!(
        ghost_mode_phase_to_proto(EngineGhostModePhase::PendingExit),
        WireGhostModePhase::PendingExit
    );
    assert_eq!(
        ghost_mode_blockers_to_proto(vehicle(1.0).ghost_mode_runtime.blockers),
        vec![GhostModeBlocker::LapsRequirementNotMet, GhostModeBlocker::InPit]
    );
}

#[test]
fn gears_and_grounds_are_shown() {
    assert_eq!(gear_number(Gear::Reverse), -1);
    assert_eq!(gear_number(Gear::Neutral), 0);
    assert_eq!(gear_number(Gear::Forward(255)), 255);
    assert_eq!(ground_type_to_proto(GroundType::Sand), WireGroundType::Gravel);
    assert_eq!(ground_type_to_proto(GroundType::Kerb), WireGroundType::Kerb);
    assert_eq!(
        runtime_tire_type_from_proto(Some(RuntimePitTireType::Wet)),
        Ok(RuntimePitTireType::Wet)
    );
    assert!(runtime_tire_type_from_proto(None).is_err());
}

#[test]
fn tyres_without_a_signal_are_not_shown() {
    let none = tire_telemetry_from_state(TyreType::Hard, wheels(-0.0), wheels(0.0), wheels(1.0));
    assert_eq!(none.tire_type, RuntimePitTireType::Unspecified);
    assert!(none.wear.is_none() && none.slip.is_none());
    let odd = tire_telemetry_from_state(TyreType::Hard, wheels(1.0), wheels(1.0), wheels(f32::NAN));
    assert!(odd.wear.is_none());
    let shown = tire_telemetry_from_state(TyreType::Wet, wheels(0.9), wheels(0.0), wheels(0.0));
    assert_eq!(shown.tire_type, RuntimePitTireType::Wet);
    assert_eq!(shown.wear, Some(wheels(0.9)));
}

#[test]
fn cars_are_shown() {
    let store = RaceRuntimeStore::new();
    let pit = store.pit_state_snapshot(7, 100);
    let cooldowns = CommandCooldownState {
        back_to_track_remaining_ms: 5,
        emergency_pitstop_remaining_ms: 6,
    };
    let own = participant_self_state(7, &vehicle(0.8), 3, &pit, cooldowns);
    assert_eq!(own.car_id, 7);
    assert_eq!(own.telemetry.last_applied_client_seq, 3);
    assert_eq!(own.telemetry.gear, 5);
    assert_eq!(own.telemetry.wheels_in_pitstop, 4);
    assert_eq!(own.telemetry.pitstop_zone_flags, 6);
    assert_eq!(own.telemetry.tires.tire_type, RuntimePitTireType::Soft);
    assert_eq!(own.telemetry.command_cooldowns, cooldowns);
    let other = participant_opponent_state(8, &vehicle(0.8));
    assert_eq!(other.kinematics, own.kinematics);
    assert_eq!(other.ghost_mode.exit_delay_remaining_ms, 12);
    let laps = LapTimes {
        current_lap_elapsed_ms: Some(1),
        last_lap_time_ms: None,
        best_lap_time_ms: Some(2),
    };
    let full = frontend_full_state(
        7,
        &vehicle(0.0),
        3,
        &pit,
        cooldowns,
        RuntimePitTireType::Hard,
        RuntimeControlInputSnapshot::default(),
        laps,
    );
    assert_eq!(full.telemetry.tires.tire_type, RuntimePitTireType::Unspecified);
    assert_eq!(full.render.front_right_wheel_orientation_rad, bits(0.2));
    assert_eq!(full.frontend_next_pit_tire_override, RuntimePitTireType::Hard);
    assert_eq!(full.laps, laps);
    assert_eq!(full.controls_input.current_brake_balancer, bits(0.5));
}

#[test]
fn tracks_are_shown() {
    let zero = Vector3 { x: bits(0.0), y: bits(0.0), z: bits(0.0) };
    let sample = |s: f32| CenterlineSample {
        course: CenterlineCourse {
            s_m: bits(s),
            position: zero,
            tangent: zero,
            normal: zero,
            right: zero,
            left_width_m: bits(4.0),
            right_width_m: bits(5.0),
            curvature_1pm: bits(0.0),
            grade_rad: bits(0.0),
            bank_rad: bits(0.0),
            max_left_width_m: bits(6.0),
            max_right_width_m: bits(7.0),
        },
        left_grounds: vec![GroundWidth { width: bits(1.0), ground_type: GroundType::Sand }],
        right_grounds: vec![],
    };
    let track = track_data_to_proto(TrackData {
        map_id: "monza".to_string(),
        lap_length_m: bits(5793.0),
        centerline_samples: vec![sample(0.0), sample(1.0)],
        pit_enter_samples: vec![sample(2.0)],
        pit_fix_samples: vec![],
        pit_exit_samples: vec![sample(3.0)],
        pit_length_m: bits(300.0),
    });
    assert_eq!(track.map_id, "monza");
    assert_eq!(track.centerline_samples[1].course.s_m, bits(1.0));
    assert_eq!(track.centerline_samples[0].left_grounds[0].ground_type, WireGroundType::Gravel);
    assert_eq!(track.pit_enter_samples[0].course.s_m, bits(2.0));
    assert!(track.pit_fix_samples.is_empty());
    assert_eq!(track.pit_exit_samples[0].course.s_m, bits(3.0));
    assert_eq!(track.pit_length_m, bits(300.0));
}
