//! The administration of local sandboxes: which change is in order, and how a sandbox
//! is started and stopped.

use vstd::prelude::*;
use crate::engine::{
    find_active_sandbox, has_sandbox, EngineRuntimeState, EngineRuntimeTimeOfDayPreset,
};
use crate::ghost_mode::{
    engine_ghost_mode_settings_from_local_record, no_ghost_mode, GhostModeSettings,
};
use crate::ids::{oid_uuid, uuid_v5};
use crate::local_sandbox::records::{
    find_local_sandbox_by_id, is_time_of_day_of, is_weather_of, local_sandbox_with_id,
    local_time_of_day_from_proto, local_weather_from_proto, resolve_runtime_time_of_day_preset,
    runtime_weather_now_from_local, time_of_day_fault, weather_fault, weather_in_engine,
    EngineRuntimeWeatherNow, LocalSandboxConfigInputRecord, LocalSandboxConfigRecord,
    LocalTimeOfDaySettings, LocalTimeOfDaySettingsRecord, LocalWeatherSettings,
    LocalWeatherSettingsRecord,
};
use crate::status::{Code, Status};
use crate::text;
use crate::text_map::TextMap;
use crate::time_of_day::{preset_in_engine, record_on_wire};
use crate::timestamp::Timestamp;

verus! {

/// The service: where sandboxes are stored, the engine, what is known of cars, the
/// largest number of sandboxes that may run, the maps, when each running sandbox was
/// started, and the hub to which changes of the weather are published.
#[derive(Debug)]
pub struct LocalSandboxAdminServiceImpl<S, E, R, M, W> {
    pub store: S,
    pub engine: E,
    pub runtime_store: R,
    pub max_active_sandboxes: u32,
    pub map_assets_sync: M,
    pub started_at_utc: TextMap<Timestamp>,
    pub weather_events: W,
}

impl<S, E, R, M, W> LocalSandboxAdminServiceImpl<S, E, R, M, W> {
    pub fn new(
        store: S,
        engine: E,
        runtime_store: R,
        max_active_sandboxes: u32,
        map_assets_sync: M,
        weather_events: W,
    ) -> (r: Self)
        ensures
            r.store == store,
            r.engine == engine,
            r.runtime_store == runtime_store,
            r.max_active_sandboxes == max_active_sandboxes,
            r.map_assets_sync == map_assets_sync,
            r.started_at_utc@ == Map::<Seq<char>, Timestamp>::empty(),
            r.weather_events == weather_events,
    {
        LocalSandboxAdminServiceImpl {
            store,
            engine,
            runtime_store,
            max_active_sandboxes,
            map_assets_sync,
            started_at_utc: TextMap::new(),
            weather_events,
        }
    }
}

/// A sandbox that runs cannot be changed.
pub fn require_sandbox_not_active(runtime: &EngineRuntimeState, sandbox_id: &str) -> (r: Result<
    (),
    Status,
>)
    ensures
        !has_sandbox(runtime.active_sandboxes@, sandbox_id@) ==> r == Ok::<(), Status>(()),
        has_sandbox(runtime.active_sandboxes@, sandbox_id@) ==> (r matches Err(e) && e@ == (
            Code::FailedPrecondition,
            "active sandbox cannot be modified"@,
        )),
{
    match find_active_sandbox(&runtime.active_sandboxes, sandbox_id) {
        Some(_) => Err(Status::failed_precondition("active sandbox cannot be modified")),
        None => Ok(()),
    }
}

/// Why the store refused.
#[derive(Clone, Copy, PartialEq, Eq, Debug, Structural)]
pub enum LocalStoreFailure {
    RevisionMismatch,
    AlreadyExists,
    NotFound,
    InvalidConfig,
    Io,
    Serde,
}

pub fn map_store_err(failure: LocalStoreFailure, message: String) -> (r: Status)
    ensures
        r@ == (
            match failure {
                LocalStoreFailure::RevisionMismatch => Code::FailedPrecondition,
                LocalStoreFailure::AlreadyExists => Code::AlreadyExists,
                LocalStoreFailure::NotFound => Code::NotFound,
                LocalStoreFailure::InvalidConfig => Code::InvalidArgument,
                LocalStoreFailure::Io => Code::Internal,
                LocalStoreFailure::Serde => Code::Internal,
            },
            message@,
        ),
{
    let code: Code = match failure {
        LocalStoreFailure::RevisionMismatch => Code::FailedPrecondition,
        LocalStoreFailure::AlreadyExists => Code::AlreadyExists,
        LocalStoreFailure::NotFound => Code::NotFound,
        LocalStoreFailure::InvalidConfig => Code::InvalidArgument,
        LocalStoreFailure::Io => Code::Internal,
        LocalStoreFailure::Serde => Code::Internal,
    };
    Status::with_message(code, message)
}

/// The text from which the id of a local sandbox is made.
pub open spec fn local_sandbox_id_payload(
    config: LocalSandboxConfigInputRecord,
    mode_number: i32,
    spawn_mode_number: i32,
    expected_revision: u64,
    ts_ns: u128,
) -> Seq<char> {
    "expected_revision="@ + text::decimal(expected_revision as nat) + ";sandbox_name="@
        + config.sandbox_name@ + ";map_id="@ + config.map_id@ + ";mode="@ + text::signed_decimal(
        mode_number as int,
    ) + ";spawn_mode="@ + text::signed_decimal(spawn_mode_number as int) + ";ts_ns="@
        + text::decimal(ts_ns as nat)
}

/// The text from which the id of a local sandbox is made. The numbers are those of
/// the time of day's mode and of the spawn mode on the wire.
pub fn build_local_sandbox_id_payload(
    config: &LocalSandboxConfigInputRecord,
    mode_number: i32,
    spawn_mode_number: i32,
    expected_revision: u64,
    ts_ns: u128,
) -> (payload: String)
    ensures
        payload@ == local_sandbox_id_payload(
            *config,
            mode_number,
            spawn_mode_number,
            expected_revision,
            ts_ns,
        ),
{
    let mut payload: String = "expected_revision=".to_owned();
    text::push_decimal(&mut payload, expected_revision as u128);
    payload.append(";sandbox_name=");
    payload.append(config.sandbox_name.as_str());
    payload.append(";map_id=");
    payload.append(config.map_id.as_str());
    payload.append(";mode=");
    text::push_signed_decimal(&mut payload, mode_number as i64);
    payload.append(";spawn_mode=");
    text::push_signed_decimal(&mut payload, spawn_mode_number as i64);
    payload.append(";ts_ns=");
    text::push_decimal(&mut payload, ts_ns);
    payload
}

/// The id of a new local sandbox: it is made of the sandbox itself and of the time.
pub fn local_sandbox_id_v5(
    config: &LocalSandboxConfigInputRecord,
    mode_number: i32,
    spawn_mode_number: i32,
    expected_revision: u64,
    ts_ns: u128,
) -> (r: String)
    ensures
        r@ == oid_uuid(
            local_sandbox_id_payload(
                *config,
                mode_number,
                spawn_mode_number,
                expected_revision,
                ts_ns,
            ),
        ),
{
    let payload: String = build_local_sandbox_id_payload(
        config,
        mode_number,
        spawn_mode_number,
        expected_revision,
        ts_ns,
    );
    uuid_v5(payload.as_str())
}

/// The status for a revision of the runtime that is not the current one.
pub open spec fn runtime_mismatch(expected: u64, actual: u64) -> (Code, Seq<char>) {
    (
        Code::FailedPrecondition,
        "runtime revision mismatch: expected "@ + text::decimal(expected as nat) + ", actual "@
            + text::decimal(actual as nat),
    )
}

/// The revision of a request must be the current one of the runtime.
pub fn require_runtime_revision(expected: u64, actual: u64) -> (r: Result<(), Status>)
    ensures
        expected == actual ==> r == Ok::<(), Status>(()),
        expected != actual ==> (r matches Err(e) && e@ == runtime_mismatch(expected, actual)),
{
    if expected == actual {
        return Ok(());
    }
    let mut message: String = "runtime revision mismatch: expected ".to_owned();
    text::push_decimal(&mut message, expected as u128);
    message.append(", actual ");
    text::push_decimal(&mut message, actual as u128);
    Err(Status::with_message(Code::FailedPrecondition, message))
}

/// The time of day of a request, which must be there and in order.
pub fn require_time_of_day(time_of_day: &Option<LocalTimeOfDaySettings>) -> (r: Result<
    LocalTimeOfDaySettingsRecord,
    Status,
>)
    ensures
        match time_of_day {
            None => r matches Err(e) && e@ == (Code::InvalidArgument, "time_of_day is required"@),
            Some(settings) => match time_of_day_fault(*settings) {
                Some(fault) => r matches Err(e) && e@ == (Code::InvalidArgument, fault),
                None => r matches Ok(record) && is_time_of_day_of(record, *settings),
            },
        },
{
    match time_of_day {
        None => Err(Status::invalid_argument("time_of_day is required")),
        Some(settings) => local_time_of_day_from_proto(settings),
    }
}

/// The weather of a request, which must be there and in order.
pub fn require_weather(weather: &Option<LocalWeatherSettings>) -> (r: Result<
    LocalWeatherSettingsRecord,
    Status,
>)
    ensures
        match weather {
            None => r matches Err(e) && e@ == (Code::InvalidArgument, "weather is required"@),
            Some(settings) => match weather_fault(*settings) {
                Some(fault) => r matches Err(e) && e@ == (Code::InvalidArgument, fault),
                None => r matches Ok(record) && is_weather_of(record, *settings),
            },
        },
{
    match weather {
        None => Err(Status::invalid_argument("weather is required")),
        Some(settings) => local_weather_from_proto(settings),
    }
}

/// The sandbox of a request that is to be started.
pub fn require_local_sandbox(sandboxes: &Vec<LocalSandboxConfigRecord>, sandbox_id: &str) -> (r:
    Result<LocalSandboxConfigRecord, Status>)
    ensures
        match local_sandbox_with_id(sandboxes@, sandbox_id@) {
            Some(sandbox) => r == Ok::<LocalSandboxConfigRecord, Status>(sandbox),
            None => r matches Err(e) && e@ == (
                Code::NotFound,
                "local sandbox config not found: "@ + sandbox_id@,
            ),
        },
{
    match find_local_sandbox_by_id(sandboxes, sandbox_id) {
        Some(sandbox) => Ok(sandbox),
        None => Err(
            Status::with_message(
                Code::NotFound,
                text::join2("local sandbox config not found: ", sandbox_id),
            ),
        ),
    }
}

/// What the engine is told in order to run a sandbox, and what weather it gets then.
#[derive(Debug)]
pub struct LocalActivation {
    pub map_id: String,
    pub sandbox_id: String,
    pub time_of_day_preset: EngineRuntimeTimeOfDayPreset,
    pub ghost_mode_settings: GhostModeSettings,
    pub weather_now: EngineRuntimeWeatherNow,
}

/// The limit leaves no room for another sandbox. The number of running ones is taken
/// as a 32-bit number.
pub open spec fn is_full(runtime: EngineRuntimeState, max_active_sandboxes: u32) -> bool {
    (runtime.active_sandboxes@.len() as u32) >= max_active_sandboxes
}

/// A sandbox that may be started runs already or leaves the number of running ones
/// within the limit.
pub proof fn started_sandbox_keeps_the_limit(
    runtime: EngineRuntimeState,
    max_active_sandboxes: u32,
    sandbox_id: Seq<char>,
)
    requires
        runtime.active_sandboxes@.len() <= u32::MAX,
        has_sandbox(runtime.active_sandboxes@, sandbox_id) || !is_full(
            runtime,
            max_active_sandboxes,
        ),
    ensures
        has_sandbox(runtime.active_sandboxes@, sandbox_id) || runtime.active_sandboxes@.len() + 1
            <= max_active_sandboxes,
{
}

/// How a stored sandbox is started: the runtime must be the one that the request
/// knows, and there must be room for the sandbox unless it runs already.
pub fn plan_local_activation(
    runtime: &EngineRuntimeState,
    expected_revision: u64,
    max_active_sandboxes: u32,
    sandbox: LocalSandboxConfigRecord,
) -> (r: Result<LocalActivation, Status>)
    ensures
        if runtime.revision != expected_revision {
            r matches Err(e) && e@ == runtime_mismatch(expected_revision, runtime.revision)
        } else if !has_sandbox(runtime.active_sandboxes@, sandbox.sandbox_id@) && is_full(
            *runtime,
            max_active_sandboxes,
        ) {
            r matches Err(e) && e@ == (
                Code::FailedPrecondition,
                "active sandbox limit reached ("@ + text::decimal(max_active_sandboxes as nat)
                    + ")"@,
            )
        } else {
            r matches Ok(plan) && {
                &&& plan.map_id == sandbox.config.map_id
                &&& plan.sandbox_id == sandbox.sandbox_id
                &&& plan.time_of_day_preset == preset_in_engine(
                    record_on_wire(sandbox.config.time_of_day.fixed_preset),
                )
                &&& plan.ghost_mode_settings == match sandbox.config.ghost_mode {
                    Some(settings) => settings,
                    None => no_ghost_mode(),
                }
                &&& plan.weather_now.weather_type == weather_in_engine(
                    sandbox.config.weather.weather_type,
                )
                &&& plan.weather_now.temperature_c == sandbox.config.weather.temperature_c
            }
        },
{
    match require_runtime_revision(expected_revision, runtime.revision) {
        Err(e) => {
            return Err(e);
        },
        Ok(()) => {},
    }
    let already_active: bool = find_active_sandbox(
        &runtime.active_sandboxes,
        sandbox.sandbox_id.as_str(),
    ).is_some();
    let running: u32 = #[verifier::truncate]
    (runtime.active_sandboxes.len() as u32);
    if !already_active && running >= max_active_sandboxes {
        let mut message: String = "active sandbox limit reached (".to_owned();
        text::push_decimal(&mut message, max_active_sandboxes as u128);
        message.append(")");
        return Err(Status::with_message(Code::FailedPrecondition, message));
    }
    Ok(
        LocalActivation {
            map_id: sandbox.config.map_id,
            sandbox_id: sandbox.sandbox_id,
            time_of_day_preset: resolve_runtime_time_of_day_preset(sandbox.config.time_of_day),
            ghost_mode_settings: engine_ghost_mode_settings_from_local_record(
                sandbox.config.ghost_mode,
            ),
            weather_now: runtime_weather_now_from_local(sandbox.config.weather),
        },
    )
}

/// What is done to take the start of a sandbox back: the engine is to deactivate it, at
/// the revision that the start has led to, and the request is answered by the status.
#[derive(Debug)]
pub struct ActivationUndo {
    pub expected_revision: u64,
    pub sandbox_id: String,
    pub status: Status,
}

/// Ends the start of a sandbox that the engine runs since the revision. Where it took the
/// weather too, the time of the start is kept and the weather is to be published. Where it
/// did not, the start is taken back: nothing is kept and nothing published.
pub fn finish_local_activation(
    started_at_utc: &mut TextMap<Timestamp>,
    sandbox_id: &str,
    revision_after: u64,
    weather_applied: bool,
    now: Timestamp,
) -> (r: Result<(), ActivationUndo>)
    ensures
        weather_applied ==> r == Ok::<(), ActivationUndo>(()) && final(started_at_utc)@ == old(
            started_at_utc,
        )@.insert(sandbox_id@, now),
        !weather_applied ==> *final(started_at_utc) == *old(started_at_utc) && (r matches Err(undo)
            && undo.expected_revision == revision_after && undo.sandbox_id@ == sandbox_id@
            && undo.status@ == (
            Code::Internal,
            "failed to apply local sandbox weather during activation"@,
        )),
{
    if !weather_applied {
        return Err(
            ActivationUndo {
                expected_revision: revision_after,
                sandbox_id: sandbox_id.to_owned(),
                status: Status::internal("failed to apply local sandbox weather during activation"),
            },
        );
    }
    started_at_utc.insert(sandbox_id.to_owned(), now);
    Ok(())
}

/// Forgets when a sandbox was started that was stopped or deleted.
pub fn forget_start(started_at_utc: &mut TextMap<Timestamp>, sandbox_id: &str)
    ensures
        final(started_at_utc)@ == old(started_at_utc)@.remove(sandbox_id@),
{
    started_at_utc.remove(sandbox_id);
}

/// What a change of the weather or of the time of day does for a sandbox that runs:
/// it reaches the engine, and no other sandbox.
pub fn reaches_engine(runtime: &EngineRuntimeState, sandbox_id: &str) -> (r: bool)
    ensures
        r == has_sandbox(runtime.active_sandboxes@, sandbox_id@),
{
    find_active_sandbox(&runtime.active_sandboxes, sandbox_id).is_some()
}

/// The id of a map that may name a track file.
pub fn check_track_map_id(map_id: &str) -> (r: Result<(), Status>)
    ensures
        if text::trimmed(map_id@).len() == 0 {
            r matches Err(e) && e@ == (Code::InvalidArgument, "map_id must be non-empty"@)
        } else if !text::all_word(map_id@) {
            r matches Err(e) && e@ == (
                Code::InvalidArgument,
                "map_id contains invalid characters"@,
            )
        } else {
            r == Ok::<(), Status>(())
        },
{
    if text::trim(map_id).as_str().is_empty() {
        return Err(Status::invalid_argument("map_id must be non-empty"));
    }
    if !text::is_all_word(map_id) {
        return Err(Status::invalid_argument("map_id contains invalid characters"));
    }
    Ok(())
}

/// The name of the track file of a map.
pub fn track_file_name(map_id: &str) -> (r: String)
    ensures
        r@ == map_id@ + ".glb"@,
{
    text::join2(map_id, ".glb")
}

/// The answer once it is known whether the track file exists, or why that could not
/// be found out.
pub fn track_existence(map_id: &str, found: Result<bool, String>) -> (r: Result<(), Status>)
    ensures
        match found {
            Ok(true) => r == Ok::<(), Status>(()),
            Ok(false) => r matches Err(e) && e@ == (
                Code::NotFound,
                "track not found for map_id: "@ + map_id@,
            ),
            Err(error) => r matches Err(e) && e@ == (
                Code::Internal,
                "failed to validate track existence for map_id "@ + map_id@ + ": "@ + error@,
            ),
        },
{
    match found {
        Ok(true) => Ok(()),
        Ok(false) => Err(
            Status::with_message(
                Code::NotFound,
                text::join2("track not found for map_id: ", map_id),
            ),
        ),
        Err(error) => {
            let mut message: String = text::join3(
                "failed to validate track existence for map_id ",
                map_id,
                ": ",
            );
            message.append(error.as_str());
            Err(Status::with_message(Code::Internal, message))
        },
    }
}

/// There is room for another sandbox exactly where fewer run than may run, as long as they
/// can be counted.
pub proof fn room_is_counted(runtime: EngineRuntimeState, max_active_sandboxes: u32)
    requires
        runtime.active_sandboxes@.len() <= u32::MAX,
    ensures
        is_full(runtime, max_active_sandboxes) <==> runtime.active_sandboxes@.len()
            >= max_active_sandboxes,
{
}

/// An old revision is a failed precondition and is told, with the current one.
pub proof fn old_runtime_revision_is_told(expected: u64, actual: u64)
    ensures
        runtime_mismatch(expected, actual).0 == Code::FailedPrecondition,
        runtime_mismatch(expected, actual).1 == "runtime revision mismatch: expected "@
            + text::decimal(expected as nat) + ", actual "@ + text::decimal(actual as nat),
{
}

/// The text from which the id of a local sandbox is made ends in its time: what is configured at
/// another time, and else in the same way, has another text.
pub proof fn local_sandboxes_of_different_times_are_told_apart(
    config: LocalSandboxConfigInputRecord,
    mode_number: i32,
    spawn_mode_number: i32,
    expected_revision: u64,
    a: u128,
    b: u128,
)
    ensures
        local_sandbox_id_payload(config, mode_number, spawn_mode_number, expected_revision, a) == local_sandbox_id_payload(
            config,
            mode_number,
            spawn_mode_number,
            expected_revision,
            b,
        ) ==> a == b,
{
    let x = local_sandbox_id_payload(config, mode_number, spawn_mode_number, expected_revision, a);
    let y = local_sandbox_id_payload(config, mode_number, spawn_mode_number, expected_revision, b);
    let u = text::decimal(a as nat);
    let v = text::decimal(b as nat);
    if x == y {
        let n = x.len() - u.len();
        assert(n == y.len() - v.len() || u.len() != v.len());
        assert(x.skip(n) =~= u);
        assert(y.skip(y.len() - v.len()) =~= v);
        text::numerals_are_read_back(a as nat);
        text::numerals_are_read_back(b as nat);
    }
}

} // verus!
