use game_server::achievement::{
    achievement_tire_type_from_engine, announce, check_requested_hz, collect_active_sources,
    place_source_cars, resolve_achievement_rate, source_matches_target, team_of,
    AchievementMessage, AchievementSourceKey, AchievementStream, AchievementTireType, ActiveSource,
    DescriptorCache, SourceMap,
};
use game_server::asset::catalog::{
    cached_map_entry, check_bundle_complete, check_list_all, check_map_name, file_status,
    find_bundle_map_id, finish_catalog, is_flat_layout, is_listed, keep_or_skip,
    map_list_source, must_fetch_map, refuse_on_local, require_asset_admin, require_serving,
    storage_key_of, BundleFiles, FileFailure, MapBundleMetaCache, MapCatalogEntry, MapListSource,
};
use game_server::asset::chunks::{
    begin_chunks, check_content_hash, choose_chunk_size, ChunkStart, ChunkStream,
};
use game_server::asset::files::{
    content_type_for_kind, internal_map_id_from_main_glb_name, is_valid_storage_key,
    resolve_main_glb_path, resolve_map_metadata_path, resolve_minimap_metadata_path,
    resolve_path_for_glb_kind, resolve_path_for_kind, sanitize_id, sanitize_internal_map_id,
    validate_requested_map_id, AssetServiceImpl, MapAssetKind, MapGlbKind, MimeType,
};
use game_server::engine::{
    EngineActiveSandboxState, EngineActivityKind, EngineCommandTarget, EngineRuntimeState,
    EngineRuntimeTimeOfDayPreset,
};
use game_server::float_bits::F32Bits;
use game_server::mappers::TyreType;
use game_server::mode::BackendMode;
use game_server::race::frame_hub::{RuntimeCarFrame, VehicleRaceMetrics, VehicleState};
use game_server::race::runtime_store::{RuntimeCarIdentity, VehiclePitReading};
use game_server::race::stream_settings::StreamClampReason;
use game_server::status::{Code, Status};

fn names(list: &[&str]) -> Vec<String> {
    list.iter().map(|s| s.to_string()).collect()
}

fn complete() -> BundleFiles {
    BundleFiles { main_glb: true, minimap_svg: true, minimap_metadata: true, map_metadata: true }
}

#[test]
fn asset_services_know_their_sidecars() {
    assert_eq!(AssetServiceImpl::for_official("/m".to_string()).hash_sidecar_dir, None);
    let local = AssetServiceImpl::for_local("/m".to_string());
    assert_eq!(local.hash_sidecar_dir.as_deref(), Some("/m/.hashes"));
    assert_eq!(local.mode, BackendMode::Local);
    let tracks = AssetServiceImpl::new("/t".to_string());
    assert_eq!(tracks.hash_sidecar_dir.as_deref(), Some("/t/.hashes"));
    assert!(tracks.serving_enabled);
}

#[test]
fn map_ids_are_sanitized() {
    assert!(sanitize_id("a-b_1").is_ok());
    assert_eq!(sanitize_id("../x").unwrap_err().message, "Invalid ID");
    assert_eq!(sanitize_internal_map_id("a.b").unwrap_err().message, "invalid internal map id");
    assert!(is_valid_storage_key("ab1") && !is_valid_storage_key("a-b"));
    let message = |mode, id: &str| validate_requested_map_id(mode, id).unwrap_err().message;
    assert_eq!(message(BackendMode::Official, " "), "map_id is required");
    assert_eq!(
        message(BackendMode::Official, "a-b"),
        "map_id(storage_key) must be alphanumeric"
    );
    assert_eq!(validate_requested_map_id(BackendMode::Official, " ab ").unwrap(), "ab");
}

#[test]
fn asset_paths_are_resolved() {
    assert_eq!(resolve_main_glb_path("/r", "m"), "/r/m.glb");
    assert_eq!(resolve_minimap_metadata_path("/r", "m"), "/r/m.minimap.json");
    assert_eq!(resolve_map_metadata_path("/r", "m"), "/r/m.json");
    assert_eq!(
        resolve_path_for_glb_kind("/r", "m", Some(MapGlbKind::Animation)).unwrap(),
        "/r/m.animation.glb"
    );
    assert_eq!(
        resolve_path_for_glb_kind("/r", "m", None).unwrap_err().message,
        "glb kind is required"
    );
    assert_eq!(
        resolve_path_for_kind("/r", "m", Some(MapAssetKind::MinimapSvg)).unwrap(),
        "/r/m.minimap.svg"
    );
    assert_eq!(
        resolve_path_for_kind("/r", "m", Some(MapAssetKind::Unspecified)).unwrap_err().message,
        "map asset kind is required"
    );
    assert_eq!(content_type_for_kind(MapAssetKind::MainGlb).unwrap(), MimeType::GltfBinary);
    assert_eq!(content_type_for_kind(MapAssetKind::MinimapSvg).unwrap(), MimeType::ImageSvgXml);
    assert!(content_type_for_kind(MapAssetKind::Unspecified).is_err());
}

#[test]
fn main_model_names_give_their_id() {
    assert_eq!(internal_map_id_from_main_glb_name("monza.glb").as_deref(), Some("monza"));
    assert_eq!(internal_map_id_from_main_glb_name("monza.animation.glb"), None);
    assert_eq!(internal_map_id_from_main_glb_name("monza.json"), None);
    let path = resolve_main_glb_path("", "spa");
    assert_eq!(path, "spa.glb");
    assert_eq!(internal_map_id_from_main_glb_name(&path).as_deref(), Some("spa"));
    assert_eq!(resolve_main_glb_path("maps/", "spa"), "maps/spa.glb");
}

#[test]
fn bundles_have_one_model() {
    assert_eq!(
        find_bundle_map_id(&names(&["a.json", "m.glb", "m.animation.glb", "b d.glb"])).unwrap(),
        "m"
    );
    assert_eq!(
        find_bundle_map_id(&names(&["a.glb", "b.glb"])).unwrap_err().message,
        "map bundle contains multiple main glb files"
    );
    assert_eq!(
        find_bundle_map_id(&names(&["a.json"])).unwrap_err().message,
        "map bundle does not contain main glb"
    );
    assert!(check_bundle_complete(complete()).is_ok());
    let mut part = complete();
    part.minimap_svg = false;
    let err = check_bundle_complete(part).unwrap_err();
    assert_eq!(err.code, Code::FailedPrecondition);
    assert_eq!(err.message, "map bundle is incomplete");
}

#[test]
fn catalogs_are_finished() {
    assert_eq!(file_status(FileFailure::NotFound, "gone", "broken").code, Code::NotFound);
    assert_eq!(file_status(FileFailure::Other, "gone", "broken").message, "broken");
    assert_eq!(
        check_map_name(" ").unwrap_err().message,
        "map metadata map_name must be non-empty"
    );
    let entry = |id: &str| MapCatalogEntry { map_id: id.to_string(), display_name: id.to_string() };
    let listed = finish_catalog(vec![entry("b"), entry("a")]);
    assert_eq!(listed[0].map_id, "a");
    assert_eq!(storage_key_of("ab1").as_deref(), Some("ab1"));
    assert_eq!(storage_key_of("a b"), None);
    assert_eq!(keep_or_skip::<u8>(Ok(1)).unwrap(), Some(1));
    assert_eq!(keep_or_skip::<u8>(Err(Status::not_found("x"))).unwrap(), None);
    assert!(keep_or_skip::<u8>(Err(Status::internal("x"))).is_err());
    assert!(is_listed(false, false) && is_listed(true, true) && !is_listed(true, false));
    assert_eq!(cached_map_entry("m.glb", complete()).unwrap().map_id, "m");
    assert!(cached_map_entry("m.json", complete()).is_none());
}

#[test]
fn serving_depends_on_the_mode() {
    assert_eq!(map_list_source(BackendMode::Local, true, true), MapListSource::Synchronized);
    assert_eq!(map_list_source(BackendMode::Official, false, false), MapListSource::Empty);
    let mut missing = complete();
    missing.main_glb = false;
    assert!(must_fetch_map(BackendMode::Local, true, missing));
    assert!(!must_fetch_map(BackendMode::Official, false, missing));
    assert_eq!(
        refuse_on_local(BackendMode::Local, true, "GetX").unwrap_err().message,
        "GetX is not supported on local backend"
    );
    assert!(refuse_on_local(BackendMode::Official, false, "GetX").is_ok());
    assert!(is_flat_layout(BackendMode::Local));
    assert!(!is_flat_layout(BackendMode::Standalone) && !is_flat_layout(BackendMode::Official));
    assert!(check_list_all(BackendMode::Official).is_ok());
    let e = check_list_all(BackendMode::Standalone).unwrap_err();
    assert_eq!(
        (e.code, e.message.as_str()),
        (Code::Unimplemented, "ListAllMaps is supported only in official backend mode")
    );
    assert!(require_serving(true, "gone").is_ok());
    assert_eq!(require_serving(false, "gone").unwrap_err().message, "gone");
    assert_eq!(
        require_asset_admin(None).unwrap_err().message,
        "asset admin validator is not configured"
    );
    assert_eq!(require_asset_admin(Some(false)).unwrap_err().code, Code::PermissionDenied);
    assert!(require_asset_admin(Some(true)).is_ok());
}

#[test]
fn stored_bundles_are_read_back_for_two_minutes() {
    let mut cache: MapBundleMetaCache<u8> = MapBundleMetaCache::new();
    cache.store_cached_bundle_meta("m".to_string(), 7, 1_000);
    assert_eq!(cache.try_get_cached_bundle_meta("m", 120_999), Some(&7));
    assert_eq!(cache.try_get_cached_bundle_meta("n", 1_000), None);
    assert_eq!(cache.try_get_cached_bundle_meta("m", 500_000), None);
    assert!(cache.entries.keys().is_empty());
}

#[test]
fn chunk_sizes_are_limited() {
    assert_eq!(choose_chunk_size(0).unwrap(), 65_536);
    assert_eq!(choose_chunk_size(10).unwrap(), 10);
    assert_eq!(choose_chunk_size(2_097_152).unwrap(), 2_097_152);
    assert_eq!(choose_chunk_size(2_097_153).unwrap_err().message, "limit too large");
    assert!(check_content_hash("", "abc").is_ok());
    assert!(check_content_hash("abc", "abc").is_ok());
    assert_eq!(check_content_hash("x", "abc").unwrap_err().message, "hash mismatch");
}

#[test]
fn chunks_follow_one_another_to_the_end() {
    let mut stream = match begin_chunks(10, 35, 0).unwrap() {
        ChunkStart::Read { stream, chunk_size } => {
            assert_eq!(chunk_size, 65_536);
            stream
        }
        other => panic!("{other:?}"),
    };
    let a = stream.on_read(20);
    assert_eq!((a.offset, a.size, a.eof), (10, 20, false));
    let b = stream.on_read(5);
    assert_eq!((b.offset, b.size, b.eof), (30, 5, true));
    match begin_chunks(35, 35, u64::MAX).unwrap() {
        ChunkStart::AtEnd(chunk) => assert!(chunk.eof && chunk.size == 0 && chunk.offset == 35),
        other => panic!("{other:?}"),
    }
    assert!(begin_chunks(0, 35, u64::MAX).is_err());
}

#[test]
fn track_reads_end_quietly() {
    let mut empty = ChunkStream { start: 4, pos: 4, total_len: 9 };
    assert!(empty.on_track_read(0).unwrap().eof);
    let mut moved = ChunkStream { start: 4, pos: 4, total_len: 9 };
    let chunk = moved.on_track_read(3).unwrap();
    assert_eq!((chunk.offset, chunk.size, chunk.eof), (4, 3, false));
    assert!(moved.on_track_read(0).is_none());
}

fn sandbox_key(id: &str) -> AchievementSourceKey {
    AchievementSourceKey::OfficialSandbox(id.to_string())
}

fn state(kind: EngineActivityKind, ids: &[&str]) -> EngineRuntimeState {
    EngineRuntimeState {
        revision: 1,
        activity_kind: kind,
        map_id: "monza".to_string(),
        time_of_day_preset: EngineRuntimeTimeOfDayPreset::Noon,
        active_sandboxes: ids
            .iter()
            .map(|id| EngineActiveSandboxState {
                sandbox_id: id.to_string(),
                map_id: format!("map-{id}"),
                time_of_day_preset: EngineRuntimeTimeOfDayPreset::Noon,
            })
            .collect(),
        active_local_race: None,
    }
}

#[test]
fn achievement_sources_are_collected() {
    assert!(collect_active_sources(None).is_empty());
    let race = collect_active_sources(Some(&state(EngineActivityKind::OfficialRace, &[])));
    assert_eq!(race.len(), 1);
    assert_eq!(race[0].map_id, "monza");
    let sandboxes = collect_active_sources(Some(&state(EngineActivityKind::Sandbox, &["b", "a"])));
    let maps: Vec<&str> = sandboxes.iter().map(|s| s.map_id.as_str()).collect();
    assert_eq!(maps, vec!["map-a", "map-b"]);
    assert!(source_matches_target(
        &sandbox_key("a"),
        &EngineCommandTarget::Sandbox { sandbox_id: "a".to_string() }
    ));
    assert!(!source_matches_target(&sandbox_key("a"), &EngineCommandTarget::OfficialRace));
    assert!(AchievementSourceKey::OfficialRace.to_engine_target().is_official_race());
}

#[test]
fn stored_tracks_are_found_on_their_map() {
    let source = |map: &str| ActiveSource { key: sandbox_key("a"), map_id: map.to_string() };
    let mut cache: DescriptorCache<u8> = DescriptorCache::new();
    cache.store(&source("m"), 5);
    assert_eq!(cache.cached_descriptor(&source("m")), Some(&5));
    assert_eq!(cache.cached_descriptor(&source("n")), None);
}

#[test]
fn announced_sources_are_no_news() {
    let sources = collect_active_sources(Some(&state(EngineActivityKind::Sandbox, &["a", "b"])));
    let (news, announced) = announce(&SourceMap::new(), &sources);
    assert_eq!(news, vec![0, 1]);
    let (again, announced) = announce(&announced, &sources);
    assert!(again.is_empty());
    let mut moved = collect_active_sources(Some(&state(EngineActivityKind::Sandbox, &["a", "b"])));
    moved[1].map_id = "other".to_string();
    let (changed, _) = announce(&announced, &moved);
    assert_eq!(changed, vec![1]);
}

#[test]
fn achievement_stream_tells_the_sources_before_their_cars() {
    let at = |ids: &[&str]| collect_active_sources(Some(&state(EngineActivityKind::Sandbox, ids)));
    let rate = resolve_achievement_rate(30, 60);
    let (mut stream, first) = AchievementStream::begin(rate);
    assert!(matches!(first, AchievementMessage::Settings(r) if r.effective_hz == 30));
    let opened = stream.on_sources(&at(&["a"]));
    assert!(matches!(
        opened.as_slice(),
        [AchievementMessage::Bootstrap(all), AchievementMessage::Snapshot] if all == &vec![0]
    ));
    assert!(matches!(stream.on_sources(&at(&["a"])).as_slice(), [AchievementMessage::Snapshot]));
    let grown = stream.on_sources(&at(&["b", "a"]));
    assert!(matches!(
        grown.as_slice(),
        [AchievementMessage::TopologyUpdate(news), AchievementMessage::Snapshot]
            if news == &vec![1]
    ));
    assert!(matches!(stream.on_sources(&at(&["b"])).as_slice(), [AchievementMessage::Snapshot]));
    let back = stream.on_sources(&at(&["a", "b"]));
    assert!(matches!(
        back.as_slice(),
        [AchievementMessage::TopologyUpdate(news), AchievementMessage::Snapshot]
            if news == &vec![0]
    ));
    let (mut idle, _) = AchievementStream::begin(rate);
    assert!(matches!(
        idle.on_sources(&vec![]).as_slice(),
        [AchievementMessage::Bootstrap(all), AchievementMessage::Snapshot] if all.is_empty()
    ));
}

#[test]
fn achievement_rates_are_clamped() {
    assert_eq!(
        check_requested_hz(0).unwrap_err().message,
        "requested_hz must be >= 1 for achievement stream"
    );
    assert!(check_requested_hz(1).is_ok());
    let rate = resolve_achievement_rate(500, 60);
    assert_eq!((rate.requested_hz, rate.effective_hz), (500, 60));
    assert_eq!(rate.clamp_reason, StreamClampReason::ServerLimit);
    assert_eq!(resolve_achievement_rate(30, 60).clamp_reason, StreamClampReason::NotClamped);
}

fn car(id: u64, target: EngineCommandTarget, laps: u32, progress: f32) -> RuntimeCarFrame<()> {
    RuntimeCarFrame {
        public_car_id: id,
        engine_car_id: id,
        target,
        state: VehicleState {
            in_any_pit_zone: false,
            pit: VehiclePitReading {
                in_fix_zone: false,
                wheels_in_pitstop: 0,
                speed: F32Bits { bits: 0 },
            },
            telemetry: (),
        },
        race_metrics: Some(VehicleRaceMetrics {
            completed_laps: laps,
            lap_progress_m: F32Bits { bits: progress.to_bits() },
            last_lap_time_ms: None,
            best_lap_time_ms: None,
        }),
        last_client_seq: 0,
        identity: None,
    }
}

#[test]
fn cars_are_placed_by_progress() {
    let official = || EngineCommandTarget::OfficialRace;
    let sandbox = EngineCommandTarget::Sandbox { sandbox_id: "a".to_string() };
    let cars = vec![
        car(1, official(), 1, 10.0),
        car(2, sandbox, 9, 0.0),
        car(3, official(), 1, 20.0),
        car(4, official(), 2, 0.0),
    ];
    let placed = place_source_cars(&cars, &AchievementSourceKey::OfficialRace);
    let mut positions: Vec<(u64, u32)> =
        placed.iter().map(|p| (cars[p.place].public_car_id, p.race_position)).collect();
    positions.sort();
    assert_eq!(positions, vec![(1, 3), (3, 2), (4, 1)]);
}

#[test]
fn distances_that_are_no_numbers_leave_it_to_the_ids() {
    let run = |list: &[(u64, f32)]| -> Vec<u64> {
        let cars: Vec<RuntimeCarFrame<()>> = list
            .iter()
            .map(|(id, progress)| car(*id, EngineCommandTarget::OfficialRace, 1, *progress))
            .collect();
        place_source_cars(&cars, &AchievementSourceKey::OfficialRace)
            .iter()
            .map(|p| cars[p.place].public_car_id)
            .collect()
    };
    assert_eq!(run(&[(2, f32::NAN), (1, 5.0)]), vec![1, 2]);
    assert_eq!(run(&[(2, 5.0), (1, f32::NAN)]), vec![1, 2]);
    assert_eq!(run(&[(2, -f32::NAN), (1, f32::NAN)]), vec![1, 2]);
    assert_eq!(run(&[(1, 5.0), (2, 7.0), (3, f32::NAN)]), vec![2, 1, 3]);
    assert_eq!(run(&[(3, -0.0), (2, 0.0), (1, -1.0)]), vec![2, 3, 1]);
}

#[test]
fn teams_and_tyres_of_achievements() {
    assert_eq!(team_of(&None), "unknown");
    let identity = RuntimeCarIdentity {
        team_id: Some("reds".to_string()),
        ..RuntimeCarIdentity::default()
    };
    assert_eq!(team_of(&Some(identity)), "reds");
    assert_eq!(achievement_tire_type_from_engine(TyreType::Wet), AchievementTireType::Wet);
}
