use game_server::builds::client::{BuildGrpcClient, BuildGrpcClientError, CallOutcome};
use game_server::builds::staging::{
    check_zip_file_name, sha256_hex, to_hex, validate_safe_id, validate_zip_file_name,
    FsUploadStager, UploadStageInput, UploadStagingError,
};
use game_server::builds::submission::{
    cancellation_reason, check_cancellation, check_lookup, check_submission, effective_limit,
    ensure_team_match, finish_submit, make_idempotency_key, plan_new_submission, plan_submit,
    require_build, require_build_id, require_submitted_build, validate_required, BuildJob,
    BuildSubmissionRecord, BuildSubmissionService, BuildSubmissionServiceError,
    CancelSubmissionInput, SubmitBuildUploadInput, SubmitStep,
};
use game_server::builds::team_resolver::{
    now_ms, BuildTeamResolver, BuildTeamResolverError, TeamAnswer,
};
use game_server::config::Config;
use game_server::connect::{
    validate_registered, ConnectServiceImpl, ConnectStatus, ValidateConnectionRequest,
};
use game_server::engine::EngineRuntimeTimeOfDayPreset;
use game_server::local_race::{
    abort_race, check_countdown, map_state_err, normalize_config, plan_close, plan_local_race,
    plan_local_race_as, resolve_time_of_day_preset, stage_local_race, start_countdown,
    CloseCommand, LocalRaceAdminServiceImpl, LocalRaceConfigInput, LocalRacePhase,
    LocalRaceRuntimeInfo,
};
use game_server::local_sandbox::records::{
    LocalTimeOfDayMode, LocalTimeOfDaySettings, WeatherType,
};
use game_server::log_redaction::{mask_secret_value, redact_log_line, replace_secrets, split_wrapping_quotes};
use game_server::mode::BackendMode;
use game_server::participant::join::LocalRaceStateError;
use game_server::server::frontend::{
    build_runtime_config_js, check_frontend, cors_policy, FrontendStart, OriginPolicy,
};
use game_server::server::requests::{
    choose_client_ip, client_ip_from_headers, log_grpc_request, RequestLog,
};
use game_server::server::shutdown::{ShutdownAction, ShutdownEvent, ShutdownState};
use game_server::status::Code;
use game_server::time_of_day::RuntimeTimeOfDayPreset;

fn race_input() -> LocalRaceConfigInput {
    LocalRaceConfigInput {
        race_name: " Grand Prix ".to_string(),
        map_id: " monza1 ".to_string(),
        race_duration_sec: 90,
        time_of_day: None,
        ghost_mode: None,
        weather: None,
        max_participants: 0,
    }
}

fn staged_race() -> LocalRaceRuntimeInfo {
    let plan = plan_local_race_as(Some(race_input()), "race".to_string()).unwrap();
    stage_local_race(plan, 1_000)
}

#[test]
fn race_setup_is_filled_in() {
    let once = normalize_config(race_input()).unwrap();
    assert_eq!((once.race_name.as_str(), once.map_id.as_str()), ("Grand Prix", "monza1"));
    assert_eq!(once.max_participants, 33);
    assert_eq!(once.weather.unwrap().weather_type, Some(WeatherType::Clear));
    assert_eq!(once.weather.unwrap().temperature_c, 20);
    assert_eq!(
        once.time_of_day.unwrap().fixed_preset,
        Some(RuntimeTimeOfDayPreset::Noon)
    );
    let weather = once.weather;
    let twice = normalize_config(once).unwrap();
    assert_eq!(twice.race_name, "Grand Prix");
    assert_eq!(twice.weather, weather);
    let mut unnamed = race_input();
    unnamed.race_name = "\t".to_string();
    assert_eq!(normalize_config(unnamed).unwrap().race_name, "Local race");
}

#[test]
fn race_setup_faults() {
    let message = |f: &dyn Fn(&mut LocalRaceConfigInput)| {
        let mut input = race_input();
        f(&mut input);
        normalize_config(input).unwrap_err().message
    };
    assert_eq!(message(&|i| i.map_id = " ".to_string()), "map_id must be non-empty");
    assert_eq!(
        message(&|i| i.map_id = "a-b".to_string()),
        "map_id must be an alphanumeric standalone storage key"
    );
    assert_eq!(
        message(&|i| i.race_duration_sec = 0),
        "race_duration_sec must be greater than zero"
    );
}

#[test]
fn race_preset_faults() {
    let resolve = |mode, fixed_preset| {
        resolve_time_of_day_preset(&LocalTimeOfDaySettings { mode, fixed_preset })
    };
    let fixed = Some(LocalTimeOfDayMode::FixedPreset);
    let noon = Some(RuntimeTimeOfDayPreset::Noon);
    assert_eq!(resolve(None, noon).unwrap_err().message, "invalid time_of_day.mode");
    assert_eq!(
        resolve(Some(LocalTimeOfDayMode::Unspecified), noon).unwrap_err().message,
        "time_of_day.mode must be specified"
    );
    assert_eq!(resolve(fixed, None).unwrap_err().message, "invalid time_of_day.fixed_preset");
    assert_eq!(
        resolve(fixed, Some(RuntimeTimeOfDayPreset::Unspecified)).unwrap_err().message,
        "time_of_day.fixed_preset must be specified"
    );
    assert_eq!(
        resolve(fixed, Some(RuntimeTimeOfDayPreset::Night)).unwrap(),
        EngineRuntimeTimeOfDayPreset::Night
    );
}

#[test]
fn race_ids_are_random() {
    assert_eq!(plan_local_race(None).unwrap_err().message, "config is required");
    let a = plan_local_race(Some(race_input())).unwrap();
    let b = plan_local_race(Some(race_input())).unwrap();
    assert_eq!(a.race_id.len(), 36);
    assert_eq!(a.race_id.as_bytes()[14], b'4');
    assert_ne!(a.race_id, b.race_id);
    let service = LocalRaceAdminServiceImpl::new(1u8, 2u8);
    assert_eq!((service.engine, service.state), (1, 2));
}

#[test]
fn countdown_begins_once_only() {
    let active = Some(staged_race());
    let check = |active: &Option<LocalRaceRuntimeInfo>, revision, id: &str| {
        check_countdown(revision, 4, active, id, 10, 5_000)
    };
    assert_eq!(
        check(&active, 3, "race").unwrap_err().message,
        "runtime revision mismatch: expected 3, actual 4"
    );
    assert_eq!(check(&None, 4, "race").unwrap_err().message, "no active local race");
    assert_eq!(
        check(&active, 4, "other").unwrap_err().message,
        "active local race id does not match request"
    );
    assert_eq!(check(&active, 4, "race").unwrap(), 15_000);
    let mut race = staged_race();
    start_countdown(&mut race, 10, 15_000);
    assert_eq!(race.phase, Some(LocalRacePhase::Countdown));
    assert_eq!(race.countdown_end_at_ms, Some(15_000));
    assert_eq!(race.running_started_at_ms, None);
    let err = check(&Some(race), 4, "race").unwrap_err();
    assert_eq!(err.code, Code::FailedPrecondition);
    assert_eq!(err.message, "local race countdown can be started only in staging phase");
}

#[test]
fn race_without_countdown_runs_at_once() {
    let mut race = staged_race();
    start_countdown(&mut race, 0, 7_000);
    assert_eq!(race.phase, Some(LocalRacePhase::Running));
    assert_eq!(race.running_started_at_ms, Some(7_000));
    assert_eq!(race.planned_end_at_ms, Some(97_000));
    let mut last = staged_race();
    start_countdown(&mut last, 0, u64::MAX - 1);
    assert_eq!(last.planned_end_at_ms, Some(u64::MAX));
}

#[test]
fn race_is_closed_at_its_end() {
    let mut race = staged_race();
    let err = plan_close(&Some(staged_race()), "race").unwrap_err();
    assert_eq!(err.message, "local race can be closed only when finished or aborted");
    abort_race(&mut race);
    assert_eq!(plan_close(&Some(race), "race").unwrap(), CloseCommand::BumpRevision);
    let mut finished = staged_race();
    finished.phase = Some(LocalRacePhase::Finished);
    assert_eq!(plan_close(&Some(finished), "race").unwrap(), CloseCommand::Deactivate);
    assert_eq!(plan_close(&None, "race").unwrap_err().code, Code::NotFound);
    assert_eq!(plan_close(&Some(staged_race()), "x").unwrap_err().code, Code::NotFound);
}

#[test]
fn race_state_errors_have_statuses() {
    let of = |e| {
        let s = map_state_err(e);
        (s.code, s.message)
    };
    assert_eq!(
        of(LocalRaceStateError::NoActiveRace),
        (Code::NotFound, "no active local race".to_string())
    );
    assert_eq!(
        of(LocalRaceStateError::RaceMismatch),
        (Code::NotFound, "active local race id does not match request".to_string())
    );
    assert_eq!(
        of(LocalRaceStateError::JoinClosed),
        (
            Code::FailedPrecondition,
            "local race join is allowed only in staging phase".to_string()
        )
    );
    assert_eq!(
        of(LocalRaceStateError::ParticipantLimitReached),
        (Code::ResourceExhausted, "local race participant limit reached".to_string())
    );
}

fn connection(backend: &str, version: &str) -> ValidateConnectionRequest {
    ValidateConnectionRequest {
        backend_id: backend.to_string(),
        protocol_version: version.to_string(),
        nonce: vec![1, 2, 3],
    }
}

#[test]
fn registered_backend_accepts_its_own_name() {
    let judge = |registered: Option<&str>, backend: &str, version: &str| {
        let r = validate_registered(registered.map(str::to_string), connection(backend, version));
        assert_eq!(r.nonce_echo, vec![1, 2, 3]);
        (r.status, r.backend_id, r.message)
    };
    let expect = |s, b: &str, m: &str| (s, b.to_string(), m.to_string());
    assert_eq!(
        judge(Some("me"), " me ", " 1 "),
        expect(ConnectStatus::Accepted, "me", "connection validated")
    );
    assert_eq!(
        judge(Some("me"), " ", "2"),
        expect(ConnectStatus::InvalidArgument, "me", "backend_id is required")
    );
    assert_eq!(
        judge(None, "me", ""),
        expect(ConnectStatus::InvalidArgument, "", "protocol_version is required")
    );
    assert_eq!(
        judge(None, "me", "2"),
        expect(
            ConnectStatus::UnsupportedProtocol,
            "",
            "unsupported protocol_version `2`; expected `1`"
        )
    );
    assert_eq!(
        judge(None, "me", "1"),
        expect(ConnectStatus::InternalError, "", "broker registration state is not ready")
    );
    assert_eq!(
        judge(Some("me"), "you", "1"),
        expect(
            ConnectStatus::BackendMismatch,
            "me",
            "requested backend_id does not match current backend"
        )
    );
}

#[test]
fn standalone_backend_is_whichever_is_asked_for() {
    let service = ConnectServiceImpl::<u8>::new_standalone();
    let r = service.validate_standalone(connection("", "1"));
    assert_eq!((r.status, r.backend_id.as_str()), (ConnectStatus::Accepted, "standalone"));
    assert_eq!(r.message, "connection validated (standalone mode)");
    let r = service.validate_standalone(connection(" x ", "1"));
    assert_eq!(r.backend_id, "x");
    let r = service.validate_standalone(connection("x", "9"));
    assert_eq!((r.status, r.backend_id.as_str()), (ConnectStatus::UnsupportedProtocol, "standalone"));
    assert_eq!(ConnectServiceImpl::new(5u8).broker_registration_state, Some(5));
}

#[test]
fn secrets_are_masked_by_length() {
    assert_eq!(mask_secret_value(""), "");
    assert_eq!(mask_secret_value("a"), "***");
    assert_eq!(mask_secret_value("ab"), "***");
    assert_eq!(mask_secret_value("abc"), "a***c");
    assert_eq!(mask_secret_value("abcdefg"), "a***g");
    assert_eq!(mask_secret_value("abcdefgh"), "ab***gh");
    assert_eq!(mask_secret_value("\"abcdefgh\""), "\"ab***gh\"");
    assert_eq!(mask_secret_value("'abc'"), "'a***c'");
    assert_eq!(mask_secret_value("\"\""), "\"\"");
    assert_eq!(mask_secret_value("\"abc'"), "\"***'");
    assert_eq!(mask_secret_value("éèàç"), "é***ç");
}

#[test]
fn masking_twice_changes_nothing() {
    for value in ["a", "abcdef", "abcdefghij", "'abcdefghij'", "x***y", "\"\""] {
        let once = mask_secret_value(value);
        assert_eq!(mask_secret_value(&once), once);
        assert!(once.chars().count() <= 9);
    }
}

#[test]
fn mask_shows_nothing_of_the_middle() {
    assert_eq!(mask_secret_value("abSECRET1yz"), mask_secret_value("abother-valueyz"));
}

#[test]
fn quotes_are_split_off() {
    assert_eq!(split_wrapping_quotes("'a'"), ("'", "a", "'"));
    assert_eq!(split_wrapping_quotes("'"), ("", "'", ""));
    assert_eq!(split_wrapping_quotes("\"a'"), ("", "\"a'", ""));
    assert_eq!(split_wrapping_quotes("é"), ("", "é", ""));
}

#[test]
fn secrets_at_spans_are_replaced() {
    let line = "key=abcdefgh, x";
    assert_eq!(replace_secrets(line, &vec![(0, 3, 4, 12)]), "key=ab***gh, x");
    assert_eq!(replace_secrets(line, &vec![]), line);
    let bearer = "Authorization: BEARER";
    assert_eq!(replace_secrets(bearer, &vec![(0, 13, 15, 21)]), bearer);
}

#[test]
fn log_lines_are_redacted() {
    assert_eq!(redact_log_line("nothing here"), "nothing here");
    assert_eq!(redact_log_line("é API_KEY=supersecretvalue; ok"), "é API_KEY=su***ue; ok");
    assert_eq!(redact_log_line("my_token : 'abcdefgh'"), "my_token : 'ab***gh'");
    assert_eq!(
        redact_log_line("Authorization: Bearer abcdefghijkl"),
        "Authorization: Bearer ab***kl"
    );
    assert_eq!(
        redact_log_line("got aaaaaa.bbbbbb.cccccc!"),
        "got aa***cc!"
    );
    assert_eq!(redact_log_line("password=abc password=xyz"), "password=a***c password=x***z");
}

fn config() -> Config {
    Config {
        build_uploads_root: "/data/uploads".to_string(),
        build_upload_max_size_bytes: 4,
        build_service_grpc_endpoint: "http://builder:50061".to_string(),
        build_service_submit_timeout_ms: 1,
        build_service_get_timeout_ms: 2,
        build_service_list_timeout_ms: 3,
        build_service_cancel_timeout_ms: 4,
        hps_endpoint: "http://teams:50062".to_string(),
        hps_get_timeout_ms: 5,
        hps_edition: "ha3".to_string(),
        hps_cache_ttl_ms: 1_000,
    }
}

fn stager() -> FsUploadStager {
    FsUploadStager::from_config(&config())
}

fn upload(team: &str, id: &str, name: &str, bytes: &[u8]) -> UploadStageInput {
    UploadStageInput {
        team_id: team.to_string(),
        upload_id: id.to_string(),
        original_file_name: name.to_string(),
        archive_bytes: bytes.to_vec(),
    }
}

#[test]
fn uploads_are_checked_in_order() {
    let message = |u: &UploadStageInput| stager().check_upload(u).unwrap_err().message();
    assert_eq!(
        message(&upload("a/b", "", "", b"")),
        "team_id must be non-empty and contain only [A-Za-z0-9_-]"
    );
    assert_eq!(
        message(&upload("a", " ", "", b"")),
        "upload_id must be non-empty and contain only [A-Za-z0-9_-]"
    );
    assert_eq!(
        message(&upload("a", "u", "x/bot.zip", b"")),
        "original_file_name must be a plain file name without path segments"
    );
    assert_eq!(message(&upload("a", "u", "bot.tar", b"")), "archive must have .zip extension");
    assert_eq!(message(&upload("a", "u", "bot.ZIP", b"")), "archive payload is empty");
    assert_eq!(
        message(&upload("a", "u", "bot.zip", b"12345")),
        "archive is too large: 5 bytes (max 4 bytes)"
    );
    assert_eq!(stager().check_upload(&upload("a", "u", "bot.zip", b"1234")).unwrap(), 4);
    assert_eq!(stager().root_dir(), "/data/uploads");
    assert_eq!(stager().max_upload_size_bytes(), 4);
}

#[test]
fn file_names_are_judged() {
    assert!(validate_zip_file_name(" my bot.Zip ").is_ok());
    for bad in ["", "  ", "..", ".", "a/", "/bot.zip", "a/../b.zip"] {
        assert!(matches!(
            validate_zip_file_name(bad),
            Err(UploadStagingError::InvalidOriginalFileName)
        ));
    }
    assert!(matches!(
        validate_zip_file_name("zip"),
        Err(UploadStagingError::InvalidArchiveExtension)
    ));
    assert!(matches!(
        check_zip_file_name("a.zip", false),
        Err(UploadStagingError::InvalidOriginalFileName)
    ));
    assert!(check_zip_file_name(".zip", true).is_ok());
    assert!(validate_safe_id("ok-1_", "f").is_ok());
    for bad in ["", " ", " team1 ", "a b", "a/b", "a.b"] {
        assert!(matches!(
            validate_safe_id(bad, "team_id"),
            Err(UploadStagingError::InvalidIdentifier { field: "team_id" })
        ));
    }
}

#[test]
fn staged_uploads_know_their_digest_and_place() {
    let staged = stager().finish_staging(upload("team", "up", "bot.zip", b"abc"), 3);
    assert_eq!(
        staged.sha256_hex,
        "ba7816bf8f01cfea414140de5dae2223b00361a396177a9cb410ff61f20015ad"
    );
    assert_eq!(staged.staged_path, "/data/uploads/team/up.zip");
    assert_eq!(staged.file_size, 3);
    assert_eq!(stager().team_dir("team"), "/data/uploads/team");
    let under = |root: &str| FsUploadStager {
        root_dir: root.to_string(),
        max_upload_size_bytes: 4,
    };
    assert_eq!(under("").staged_path("t", "u"), "t/u.zip");
    assert_eq!(under("up/").staged_path("t", "u"), "up/t/u.zip");
    assert_eq!(under("/").staged_path("t", "u"), "/t/u.zip");
    assert_eq!(to_hex(&vec![0, 15, 16, 255]), "000f10ff");
    assert_ne!(sha256_hex(&b"a".to_vec()), sha256_hex(&b"b".to_vec()));
}

#[test]
fn uploads_have_places_of_their_own() {
    let a = stager().staged_path("t1", "u");
    assert_ne!(a, stager().staged_path("t", "1u"));
    assert_ne!(a, stager().staged_path("t1", "v"));
    let exists = stager().open_failed(&upload("t", "u", "n", b""), true, "why".to_string());
    assert_eq!(
        exists.message(),
        "upload already exists for team `t` and upload `u` at `/data/uploads/t/u.zip`"
    );
    let failed = stager().open_failed(&upload("t", "u", "n", b""), false, "why".to_string());
    assert_eq!(failed.message(), "filesystem open failed for `/data/uploads/t/u.zip`: why");
}

#[test]
fn builder_calls_end() {
    let client = BuildGrpcClient::from_config(&config()).unwrap();
    assert_eq!(client.get_build(CallOutcome::Answered(7)).unwrap(), 7);
    let timeouts = [
        client.submit_build::<u8>(CallOutcome::TimedOut),
        client.get_build::<u8>(CallOutcome::TimedOut),
        client.list_builds::<u8>(CallOutcome::TimedOut),
        client.cancel_build::<u8>(CallOutcome::TimedOut),
    ];
    let messages: Vec<String> =
        timeouts.into_iter().map(|timeout| timeout.unwrap_err().message()).collect();
    assert_eq!(
        messages,
        vec![
            "SubmitBuild timed out after 1 ms",
            "GetBuild timed out after 2 ms",
            "ListBuilds timed out after 3 ms",
            "CancelBuild timed out after 4 ms",
        ]
    );
    let refused = client.list_builds::<u8>(CallOutcome::Refused("no".to_string()));
    assert_eq!(refused.unwrap_err().message(), "ListBuilds failed: no");
    let endpoint = BuildGrpcClientError::InvalidEndpoint {
        endpoint: "x".to_string(),
        source: "bad".to_string(),
    };
    assert_eq!(endpoint.message(), "invalid BUILD_SERVICE_GRPC_ENDPOINT `x`: bad");
    assert_eq!(now_ms(12), 12);
    assert_eq!(now_ms(u128::MAX), i64::MAX);
}

fn resolver(ttl: u64) -> Result<BuildTeamResolver, BuildTeamResolverError> {
    BuildTeamResolver::from_config(&Config { hps_cache_ttl_ms: ttl, ..config() })
}

#[test]
fn clients_need_an_address() {
    for endpoint in ["http://[::1]:50051", "builder:50061", "unix:/run/builder.sock"] {
        let settings =
            Config { build_service_grpc_endpoint: endpoint.to_string(), ..config() };
        let client = BuildGrpcClient::from_config(&settings).unwrap();
        assert_eq!(
            client,
            BuildGrpcClient {
                submit_timeout_ms: 1,
                get_timeout_ms: 2,
                list_timeout_ms: 3,
                cancel_timeout_ms: 4,
            }
        );
    }
    for endpoint in ["", "http://a b", "http://"] {
        let settings = Config {
            build_service_grpc_endpoint: endpoint.to_string(),
            hps_endpoint: endpoint.to_string(),
            hps_cache_ttl_ms: u64::MAX,
            ..config()
        };
        assert_eq!(
            BuildGrpcClient::from_config(&settings).unwrap_err().message(),
            format!("invalid BUILD_SERVICE_GRPC_ENDPOINT `{endpoint}`: invalid URI")
        );
        assert_eq!(
            BuildTeamResolver::from_config(&settings).unwrap_err().message(),
            format!("invalid HPS_ENDPOINT `{endpoint}`: invalid URI")
        );
    }
    let fault = || Some("no".to_string());
    assert!(matches!(
        BuildGrpcClient::from_checked_config(&config(), fault()),
        Err(BuildGrpcClientError::InvalidEndpoint { endpoint, source })
            if endpoint == "http://builder:50061" && source == "no"
    ));
    assert!(matches!(
        BuildTeamResolver::from_checked_config(&config(), fault()),
        Err(BuildTeamResolverError::InvalidEndpoint { endpoint, source })
            if endpoint == "http://teams:50062" && source == "no"
    ));
    let resolver = BuildTeamResolver::from_checked_config(&config(), None).unwrap();
    assert_eq!((resolver.get_timeout_ms, resolver.cache_ttl_ms), (5, 1_000));
}

#[test]
fn teams_are_remembered_for_a_while() {
    let mut r = resolver(1_000).unwrap();
    assert_eq!(r.edition, "ha3");
    assert!(r.cached_team("sub", 0).is_none());
    let answer = TeamAnswer { id: Some(" t1 ".to_string()), name: "Reds".to_string() };
    let team = r.on_answer("sub", CallOutcome::Answered(Some(answer)), 500).unwrap();
    assert_eq!((team.team_id.as_str(), team.team_name.as_str()), ("t1", "Reds"));
    assert_eq!(r.cached_team("sub", 1_499), Some(team));
    assert!(r.cached_team("sub", 1_500).is_none());
    assert!(r.cached_team("other", 600).is_none());
}

#[test]
fn team_resolver_errors() {
    assert_eq!(
        resolver(u64::MAX).unwrap_err().message(),
        "HPS cache ttl does not fit into i64"
    );
    assert_eq!(
        BuildTeamResolver::check_subject(" ").unwrap_err().message(),
        "subject (`sub`) must be non-empty"
    );
    assert_eq!(BuildTeamResolver::check_subject(" s ").unwrap(), "s");
    let mut r = resolver(1).unwrap();
    assert_eq!(
        r.on_answer("s", CallOutcome::Answered(None), 0).unwrap_err().message(),
        "no team found for subject `s`"
    );
    let nameless = TeamAnswer { id: None, name: "n".to_string() };
    assert_eq!(
        r.on_answer("s", CallOutcome::Answered(Some(nameless)), 0).unwrap_err().message(),
        "team response for subject `s` did not contain team id"
    );
    assert_eq!(
        r.on_answer("s", CallOutcome::TimedOut, 0).unwrap_err().message(),
        "GetTeamByUser timed out after 5 ms"
    );
    assert_eq!(
        r.on_answer("s", CallOutcome::Refused("x".to_string()), 0).unwrap_err().message(),
        "GetTeamByUser failed: x"
    );
    let endpoint = BuildTeamResolverError::InvalidEndpoint {
        endpoint: "e".to_string(),
        source: "s".to_string(),
    };
    assert_eq!(endpoint.message(), "invalid HPS_ENDPOINT `e`: s");
}

fn submission(team: &str) -> SubmitBuildUploadInput {
    SubmitBuildUploadInput {
        submission_id: "sub".to_string(),
        upload_id: "up".to_string(),
        team_id: team.to_string(),
        requested_by_subject: "user".to_string(),
        original_file_name: "bot.zip".to_string(),
        retry_of_submission_id: Some("old".to_string()),
    }
}

fn stored(team: &str) -> BuildSubmissionRecord {
    let staged = stager().finish_staging(upload(team, "up", "bot.zip", b"abc"), 3);
    plan_new_submission(&submission(team), &staged, 42).0
}

#[test]
fn retried_submission_keeps_its_key() {
    let staged = stager().finish_staging(upload("t", "up", "bot.zip", b"abc"), 3);
    let (record, key) = plan_new_submission(&submission("t"), &staged, 42);
    assert_eq!(key, format!("t:sub:up:{}", staged.sha256_hex));
    assert_eq!(make_idempotency_key("t", "sub", "up", &staged.sha256_hex), key);
    assert_eq!((record.created_at_ms, record.updated_at_ms), (42, 42));
    assert_eq!(record.retry_of_submission_id.as_deref(), Some("old"));
    assert_eq!(record.file_size_bytes, 3);
    match plan_submit(&Some(record), &submission("t")).unwrap() {
        SubmitStep::SendStored { idempotency_key } => assert_eq!(idempotency_key, key),
        other => panic!("{other:?}"),
    }
}

#[test]
fn submissions_go_on_from_what_is_stored() {
    assert!(matches!(plan_submit(&None, &submission("t")), Ok(SubmitStep::StageUpload)));
    let foreign = plan_submit(&Some(stored("other")), &submission("t")).unwrap_err();
    assert_eq!(foreign.message(), "submission does not belong to team `t`");
    let mut built = stored("t");
    built.builder_build_id = Some("b1".to_string());
    built.upload_id = "another".to_string();
    let step = plan_submit(&Some(built), &submission("t")).unwrap();
    assert!(matches!(&step, SubmitStep::FetchBuild { build_id } if build_id == "b1"));
    let job = BuildJob { build_id: "b1".to_string(), status: 2 };
    let done = finish_submit(&step, "sub".to_string(), "up".to_string(), job);
    assert!(done.deduplicated);
    assert_eq!(done.build.status, 2);
    let mut other_upload = stored("t");
    other_upload.upload_id = "another".to_string();
    let err = plan_submit(&Some(other_upload), &submission("t")).unwrap_err();
    assert_eq!(err.message(), "submission already exists: sub");
}

#[test]
fn submissions_need_their_fields() {
    let field = |f: &dyn Fn(&mut SubmitBuildUploadInput)| {
        let mut input = submission("t");
        f(&mut input);
        check_submission(&input).unwrap_err().message()
    };
    assert!(check_submission(&submission("t")).is_ok());
    assert_eq!(field(&|i| i.submission_id.clear()), "submission_id must be non-empty");
    assert_eq!(field(&|i| i.upload_id.clear()), "upload_id must be non-empty");
    assert_eq!(field(&|i| i.team_id.clear()), "team_id must be non-empty");
    assert_eq!(
        field(&|i| i.requested_by_subject.clear()),
        "requested_by_subject must be non-empty"
    );
    assert_eq!(check_lookup("", "").unwrap_err().message(), "team_id must be non-empty");
    assert_eq!(check_lookup("t", " ").unwrap_err().message(), "submission_id must be non-empty");
    assert!(check_lookup("t", "s").is_ok());
    assert!(validate_required("x", "f").is_ok());
    let cancel = |s: &str, t: &str, r: &str| {
        check_cancellation(&CancelSubmissionInput {
            submission_id: s.to_string(),
            team_id: t.to_string(),
            requested_by_subject: r.to_string(),
            reason: String::new(),
        })
    };
    assert!(cancel("s", "t", "r").is_ok());
    assert_eq!(cancel("", "", "").unwrap_err().message(), "submission_id must be non-empty");
    assert_eq!(cancel("s", "", "").unwrap_err().message(), "team_id must be non-empty");
    assert_eq!(
        cancel("s", "t", "").unwrap_err().message(),
        "requested_by_subject must be non-empty"
    );
}

#[test]
fn builds_are_required_from_the_builder() {
    assert_eq!(
        require_build("CancelBuild", None).unwrap_err().message(),
        "builder response for CancelBuild did not contain build"
    );
    assert_eq!(
        require_submitted_build("s", None).unwrap_err().message(),
        "builder response for SubmitBuild did not contain build"
    );
    let blank = BuildJob { build_id: " ".to_string(), status: 1 };
    assert_eq!(
        require_submitted_build("s", Some(blank)).unwrap_err().message(),
        "builder response did not contain build_id for submission: s"
    );
    let job = BuildJob { build_id: "b".to_string(), status: 1 };
    assert_eq!(require_submitted_build("s", Some(job)).unwrap().build_id, "b");
}

#[test]
fn foreign_submissions_are_refused() {
    assert_eq!(
        require_build_id(&None, "t", "s").unwrap_err().message(),
        "submission not found: s"
    );
    assert!(matches!(
        require_build_id(&Some(stored("other")), "t", "s"),
        Err(BuildSubmissionServiceError::TeamMismatch { .. })
    ));
    assert_eq!(
        require_build_id(&Some(stored("t")), "t", "s").unwrap_err().message(),
        "builder build_id is not attached to submission: s"
    );
    let mut built = stored("t");
    built.builder_build_id = Some("b1".to_string());
    assert!(ensure_team_match(&built, "t").is_ok());
    assert_eq!(require_build_id(&Some(built), "t", "s").unwrap(), "b1");
    assert_eq!(effective_limit(0), 50);
    assert_eq!(effective_limit(7), 7);
    assert_eq!(cancellation_reason(" "), "cancelled by backend orchestration");
    assert_eq!(cancellation_reason(" because "), " because ");
    let service = BuildSubmissionService::new(1u8, stager(), 2u8);
    assert_eq!((service.repo, service.client), (1, 2));
}

#[test]
fn config_script_names_the_port() {
    let js = build_runtime_config_js(50051);
    assert!(js.starts_with("(function () {\n  var origin = window.location.origin;\n"));
    assert!(js.contains("  grpc.port = \"50051\";\n  var backendUrl = grpc.origin;\n"));
    assert!(js.contains("window.__ENV__ = Object.assign({}, window.__ENV__, {\n"));
    assert!(js.ends_with("  }\n})();\n"));
    assert!(js.contains("    \"ha3-manual-backend-url\": backendUrl\n  };\n"));
    for line in js.lines().map(str::trim) {
        let key = line.split(": ").next().unwrap_or("");
        let is_entry = line.ends_with(": origin,") || line.contains(": backendUrl");
        if is_entry && !key.starts_with('"') {
            assert!(key.chars().all(|c| c.is_ascii_alphanumeric() || c == '_'), "{}", line);
        }
    }
    for (open, close) in [('(', ')'), ('{', '}')] {
        assert_eq!(js.matches(open).count(), js.matches(close).count());
    }
}

#[test]
fn frontend_needs_an_index() {
    assert_eq!(check_frontend(false, false, "/x").unwrap(), FrontendStart::Disabled);
    assert_eq!(check_frontend(true, true, "/x").unwrap(), FrontendStart::Serve);
    assert_eq!(
        check_frontend(true, false, "/x").unwrap_err(),
        "frontend index.html not found in FRONTEND_DIR: /x"
    );
}

#[test]
fn origins_are_mirrored_only_standalone() {
    let any = cors_policy(BackendMode::Standalone, true);
    assert_eq!(any.origins, OriginPolicy::MirrorRequest);
    assert!(any.allow_credentials);
    assert_eq!(cors_policy(BackendMode::Standalone, false).origins, OriginPolicy::Configured);
    assert_eq!(cors_policy(BackendMode::Local, true).origins, OriginPolicy::Configured);
    assert!(cors_policy(BackendMode::Local, true).allow_credentials);
    assert!(!cors_policy(BackendMode::Official, true).allow_credentials);
}

fn headers(pairs: &[(&'static str, &str)]) -> http::HeaderMap {
    let mut map = http::HeaderMap::new();
    for (name, value) in pairs {
        map.append(*name, http::HeaderValue::from_bytes(value.as_bytes()).unwrap());
    }
    map
}

#[test]
fn client_address_comes_from_headers() {
    let both = headers(&[("x-forwarded-for", " 1.2.3.4 , 5.6.7.8"), ("x-real-ip", "9.9.9.9")]);
    assert_eq!(client_ip_from_headers(&both), "1.2.3.4");
    let twice = headers(&[("x-forwarded-for", "1.1.1.1"), ("x-forwarded-for", "2.2.2.2")]);
    assert_eq!(client_ip_from_headers(&twice), "1.1.1.1");
    let blank = headers(&[("x-forwarded-for", " ,1.1.1.1"), ("x-real-ip", " 9.9.9.9 ")]);
    assert_eq!(client_ip_from_headers(&blank), "9.9.9.9");
    let odd = headers(&[("x-forwarded-for", "é")]);
    assert_eq!(client_ip_from_headers(&odd), "unknown");
    assert_eq!(client_ip_from_headers(&headers(&[])), "unknown");
    assert_eq!(choose_client_ip(None, Some("a".to_string())), "a");
}

#[test]
fn requests_are_logged_by_path() {
    let map = headers(&[("x-real-ip", "9.9.9.9"), ("content-type", "application/grpc")]);
    assert!(matches!(
        log_grpc_request(&map, "/grpc.health.v1.Health/Check"),
        RequestLog::HealthCheck
    ));
    match log_grpc_request(&map, "/race") {
        RequestLog::Request { client_ip, method, content_type } => {
            assert_eq!(client_ip, "9.9.9.9");
            assert_eq!(method, "/race");
            assert_eq!(content_type, "application/grpc");
        }
        other => panic!("{other:?}"),
    }
    match log_grpc_request(&headers(&[]), "/race") {
        RequestLog::Request { content_type, .. } => assert_eq!(content_type, "unknown"),
        other => panic!("{other:?}"),
    }
}

#[test]
fn shutdown_follows_its_cause() {
    let run = |events: &[ShutdownEvent]| {
        let mut state = ShutdownState::Running;
        let actions: Vec<ShutdownAction> = events.iter().map(|e| state.on_event(*e)).collect();
        (state, actions)
    };
    let tick = |elapsed_ms| ShutdownEvent::Tick { elapsed_ms };
    assert_eq!(
        run(&[
            ShutdownEvent::Interrupted,
            tick(2_999),
            ShutdownEvent::GrpcFinished,
            ShutdownEvent::EngineFinished,
        ]),
        (
            ShutdownState::Stopped,
            vec![
                ShutdownAction::TellGrpc,
                ShutdownAction::Wait,
                ShutdownAction::TellEngine,
                ShutdownAction::Wait,
            ]
        )
    );
    assert_eq!(
        run(&[ShutdownEvent::Interrupted, tick(3_000), ShutdownEvent::GrpcFinished]),
        (
            ShutdownState::StoppingEngine,
            vec![ShutdownAction::TellGrpc, ShutdownAction::AbortGrpc, ShutdownAction::TellEngine]
        )
    );
    assert_eq!(
        run(&[ShutdownEvent::GrpcFinished]),
        (ShutdownState::Stopped, vec![ShutdownAction::TellEngine])
    );
    assert_eq!(
        run(&[ShutdownEvent::EngineFinished]),
        (ShutdownState::Stopped, vec![ShutdownAction::TellGrpc])
    );
}
