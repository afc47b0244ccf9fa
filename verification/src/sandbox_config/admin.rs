//! The administration of sandboxes: which change is in order, and which command the
//! engine gets for it.

use vstd::prelude::*;
use crate::engine::{
    find_active_sandbox, has_sandbox, EngineActivityKind, EngineActiveSandboxState,
    EngineRuntimeState, EngineRuntimeTimeOfDayPreset,
};
use crate::ghost_mode::{
    engine_ghost_mode_settings_from_record, in_engine_terms, no_ghost_mode,
    EngineGhostModeSettings, GhostModeConditionLogic, GhostModeSettings,
};
use crate::ids::{oid_uuid, uuid_v5};
use crate::sandbox_config::records::{
    admin_infos, build_admin_sandbox_infos, find_sandbox_by_id, is_sandbox_record_of,
    pending_on_wire, pending_sandbox_operation_to_proto, sandbox_fault, sandbox_input_from_proto,
    sandbox_with_id, AdminPendingSandboxOperation, AdminSandboxRuntimeInfo,
    EnginePendingSandboxActivation, SandboxConfigInput, SandboxConfigInputRecord,
    SandboxConfigRecord,
};
use crate::status::{Code, Status};
use crate::text;
use crate::time_of_day::{
    preset_in_engine, runtime_time_of_day_preset_from_proto, RuntimeTimeOfDayPreset,
};
use crate::timestamp::{
    timestamp_fault, timestamp_ms, timestamp_of, timestamp_to_unix_ms, unix_ms_to_timestamp,
    Timestamp,
};

verus! {

/// The service: the storage, what validates tokens, the engine, and the shared signal
/// that sandboxes were configured.
#[derive(Debug)]
pub struct SandboxAdminServiceImpl<R, V, E, I> {
    pub repo: R,
    pub token_validator: V,
    pub engine: E,
    pub sandbox_config_invalidation: I,
}

impl<R, V, E, I> SandboxAdminServiceImpl<R, V, E, I> {
    pub fn with_repo(repo: R, token_validator: V, engine: E, sandbox_config_invalidation: I) -> (r:
        Self)
        ensures
            r.repo == repo,
            r.token_validator == token_validator,
            r.engine == engine,
            r.sandbox_config_invalidation == sandbox_config_invalidation,
    {
        SandboxAdminServiceImpl { repo, token_validator, engine, sandbox_config_invalidation }
    }
}

/// Why the storage refused.
#[derive(Clone, Copy, PartialEq, Eq, Debug, Structural)]
pub enum SandboxConfigRepoFailure {
    RevisionMismatch,
    AlreadyExists,
    NotFound,
    InvalidTimeOfDayPreset,
    InvalidGhostConditionLogic,
    Database,
    StateMissing,
    PartialGhostData,
    NumericOutOfRange,
    RevisionOverflow,
}

/// The code with which a refusal of the storage is answered.
pub open spec fn sandbox_failure_code(failure: SandboxConfigRepoFailure) -> Code {
    match failure {
        SandboxConfigRepoFailure::RevisionMismatch => Code::FailedPrecondition,
        SandboxConfigRepoFailure::AlreadyExists => Code::AlreadyExists,
        SandboxConfigRepoFailure::NotFound => Code::NotFound,
        SandboxConfigRepoFailure::InvalidTimeOfDayPreset => Code::InvalidArgument,
        SandboxConfigRepoFailure::InvalidGhostConditionLogic => Code::InvalidArgument,
        _ => Code::Internal,
    }
}

pub fn map_repo_error_to_status(failure: SandboxConfigRepoFailure, message: String) -> (r: Status)
    ensures
        r@ == (sandbox_failure_code(failure), message@),
{
    let code: Code = match failure {
        SandboxConfigRepoFailure::RevisionMismatch => Code::FailedPrecondition,
        SandboxConfigRepoFailure::AlreadyExists => Code::AlreadyExists,
        SandboxConfigRepoFailure::NotFound => Code::NotFound,
        SandboxConfigRepoFailure::InvalidTimeOfDayPreset => Code::InvalidArgument,
        SandboxConfigRepoFailure::InvalidGhostConditionLogic => Code::InvalidArgument,
        _ => Code::Internal,
    };
    Status::with_message(code, message)
}

/// The id of a sandbox must not be blank.
pub fn require_sandbox_id(sandbox_id: &str) -> (r: Result<(), Status>)
    ensures
        text::trimmed(sandbox_id@).len() > 0 ==> r == Ok::<(), Status>(()),
        text::trimmed(sandbox_id@).len() == 0 ==> (r matches Err(e) && e@ == (
            Code::InvalidArgument,
            "sandbox_id must be non-empty"@,
        )),
{
    if text::trim(sandbox_id).as_str().is_empty() {
        return Err(Status::invalid_argument("sandbox_id must be non-empty"));
    }
    Ok(())
}

/// The configuration of a request, which must be there and in order.
pub fn require_sandbox_config(config: &Option<SandboxConfigInput>) -> (r: Result<
    SandboxConfigInputRecord,
    Status,
>)
    ensures
        match config {
            None => r matches Err(e) && e@ == (Code::InvalidArgument, "config is required"@),
            Some(input) => match sandbox_fault(*input) {
                Some(fault) => r matches Err(e) && e@ == (Code::InvalidArgument, fault),
                None => r matches Ok(record) && is_sandbox_record_of(record, *input),
            },
        },
{
    match config {
        None => Err(Status::invalid_argument("config is required")),
        Some(input) => sandbox_input_from_proto(input),
    }
}

/// The text from which the id of a sandbox is made.
pub open spec fn sandbox_id_payload(
    config: SandboxConfigInputRecord,
    preset_number: i32,
    expected_revision: u64,
    ts_ns: u128,
) -> Seq<char> {
    "expected_revision="@ + text::decimal(expected_revision as nat) + ";sandbox_name="@
        + config.sandbox_name@ + ";map_id="@ + config.map_id@ + ";time_of_day_preset="@
        + text::signed_decimal(preset_number as int) + ";ts_ns="@ + text::decimal(ts_ns as nat)
}

/// The text from which the id of a sandbox is made. `preset_number` is the number of
/// the time of day on the wire.
pub fn build_sandbox_id_payload(
    config: &SandboxConfigInputRecord,
    preset_number: i32,
    expected_revision: u64,
    ts_ns: u128,
) -> (payload: String)
    ensures
        payload@ == sandbox_id_payload(*config, preset_number, expected_revision, ts_ns),
{
    let mut payload: String = "expected_revision=".to_owned();
    text::push_decimal(&mut payload, expected_revision as u128);
    payload.append(";sandbox_name=");
    payload.append(config.sandbox_name.as_str());
    payload.append(";map_id=");
    payload.append(config.map_id.as_str());
    payload.append(";time_of_day_preset=");
    text::push_signed_decimal(&mut payload, preset_number as i64);
    payload.append(";ts_ns=");
    text::push_decimal(&mut payload, ts_ns);
    payload
}

/// The id of a new sandbox: it is made of the sandbox itself and of the time.
pub fn sandbox_id_v5(
    config: &SandboxConfigInputRecord,
    preset_number: i32,
    expected_revision: u64,
    ts_ns: u128,
) -> (r: String)
    ensures
        r@ == oid_uuid(sandbox_id_payload(*config, preset_number, expected_revision, ts_ns)),
{
    let payload: String = build_sandbox_id_payload(config, preset_number, expected_revision, ts_ns);
    uuid_v5(payload.as_str())
}

/// The engine runs sandboxes, and the one with the id is among them.
pub open spec fn sandbox_is_running(runtime: EngineRuntimeState, id: Seq<char>) -> bool {
    runtime.activity_kind == EngineActivityKind::Sandbox && has_sandbox(
        runtime.active_sandboxes@,
        id,
    )
}

pub fn is_sandbox_running(runtime: &EngineRuntimeState, sandbox_id: &str) -> (r: bool)
    ensures
        r == sandbox_is_running(*runtime, sandbox_id@),
{
    runtime.activity_kind == EngineActivityKind::Sandbox && find_active_sandbox(
        &runtime.active_sandboxes,
        sandbox_id,
    ).is_some()
}

/// A sandbox that runs cannot be changed.
pub fn require_sandbox_not_active(runtime: &EngineRuntimeState, sandbox_id: &str) -> (r: Result<
    (),
    Status,
>)
    ensures
        !sandbox_is_running(*runtime, sandbox_id@) ==> r == Ok::<(), Status>(()),
        sandbox_is_running(*runtime, sandbox_id@) ==> (r matches Err(e) && e@ == (
            Code::FailedPrecondition,
            "active sandbox cannot be modified"@,
        )),
{
    if is_sandbox_running(runtime, sandbox_id) {
        return Err(Status::failed_precondition("active sandbox cannot be modified"));
    }
    Ok(())
}

fn sandbox_not_found(sandbox_id: &str) -> (r: Status)
    ensures
        r@ == (Code::NotFound, "sandbox config not found: "@ + sandbox_id@),
{
    Status::with_message(Code::NotFound, text::join2("sandbox config not found: ", sandbox_id))
}

/// The preset that a request names; it is missing where its number stands for none.
pub fn require_preset(preset: Option<RuntimeTimeOfDayPreset>) -> (r: Result<
    RuntimeTimeOfDayPreset,
    Status,
>)
    ensures
        match preset {
            None => r matches Err(e) && e@ == (Code::InvalidArgument, "invalid preset"@),
            Some(p) => if p == RuntimeTimeOfDayPreset::Unspecified {
                r matches Err(e) && e@ == (Code::InvalidArgument, "preset must be specified"@)
            } else {
                r == Ok::<RuntimeTimeOfDayPreset, Status>(p)
            },
        },
{
    match preset {
        None => Err(Status::invalid_argument("invalid preset")),
        Some(p) => {
            if p == RuntimeTimeOfDayPreset::Unspecified {
                return Err(Status::invalid_argument("preset must be specified"));
            }
            Ok(p)
        },
    }
}

/// The sandbox with another time of day, as it is to be stored.
pub fn plan_time_of_day(
    sandboxes: &Vec<SandboxConfigRecord>,
    sandbox_id: &str,
    preset: RuntimeTimeOfDayPreset,
) -> (r: Result<SandboxConfigRecord, Status>)
    ensures
        match sandbox_with_id(sandboxes@, sandbox_id@) {
            None => r matches Err(e) && e@ == (
                Code::NotFound,
                "sandbox config not found: "@ + sandbox_id@,
            ),
            Some(sandbox) => r == Ok::<SandboxConfigRecord, Status>(
                SandboxConfigRecord {
                    sandbox_id: sandbox.sandbox_id,
                    config: SandboxConfigInputRecord {
                        time_of_day_preset: preset,
                        ..sandbox.config
                    },
                },
            ),
        },
{
    match find_sandbox_by_id(sandboxes, sandbox_id) {
        None => Err(sandbox_not_found(sandbox_id)),
        Some(sandbox) => Ok(
            SandboxConfigRecord {
                sandbox_id: sandbox.sandbox_id,
                config: SandboxConfigInputRecord {
                    sandbox_name: sandbox.config.sandbox_name,
                    map_id: sandbox.config.map_id,
                    time_of_day_preset: preset,
                    ghost_mode: sandbox.config.ghost_mode,
                },
            },
        ),
    }
}

/// When an operation is to be executed, which must be later than now.
pub fn check_effective_at(effective_at: &Timestamp, now: &Timestamp) -> (r: Result<i64, Status>)
    ensures
        if timestamp_fault(*effective_at) is Some {
            r matches Err(e) && Some(e@) == timestamp_fault(*effective_at)
        } else if timestamp_fault(*now) is Some {
            r matches Err(e) && Some(e@) == timestamp_fault(*now)
        } else if timestamp_ms(*effective_at) <= timestamp_ms(*now) {
            r matches Err(e) && e@ == (
                Code::InvalidArgument,
                "effective_at_utc must be in the future"@,
            )
        } else {
            r matches Ok(ms) && ms == timestamp_ms(*effective_at)
        },
{
    let execute_at_unix_ms: i64 = match timestamp_to_unix_ms(effective_at) {
        Ok(ms) => ms,
        Err(e) => return Err(e),
    };
    let now_unix_ms: i64 = match timestamp_to_unix_ms(now) {
        Ok(ms) => ms,
        Err(e) => return Err(e),
    };
    if execute_at_unix_ms <= now_unix_ms {
        return Err(Status::invalid_argument("effective_at_utc must be in the future"));
    }
    Ok(execute_at_unix_ms)
}

/// What the engine is told to do with a sandbox.
#[derive(Debug)]
pub enum SandboxCommand {
    /// To start or stop it at a later time.
    SetPending(EnginePendingSandboxActivation),
    /// To run it from now on.
    Switch {
        map_id: String,
        sandbox_id: String,
        time_of_day_preset: EngineRuntimeTimeOfDayPreset,
        ghost_mode_settings: EngineGhostModeSettings,
    },
    /// To stop it now.
    Deactivate { sandbox_id: String },
}

/// The engine's terms of the ghost mode that is stored; without any it is off.
pub open spec fn stored_ghost_mode(ghost_mode: Option<GhostModeSettings>) -> EngineGhostModeSettings {
    in_engine_terms(
        match ghost_mode {
            Some(settings) => settings,
            None => no_ghost_mode(),
        },
    )
}

/// How to start a stored sandbox, now or at the given time.
pub fn plan_activation(
    sandboxes: &Vec<SandboxConfigRecord>,
    sandbox_id: &str,
    execute_at_unix_ms: Option<i64>,
) -> (r: Result<SandboxCommand, Status>)
    ensures
        match sandbox_with_id(sandboxes@, sandbox_id@) {
            None => r matches Err(e) && e@ == (
                Code::NotFound,
                "sandbox config not found: "@ + sandbox_id@,
            ),
            Some(sandbox) => match execute_at_unix_ms {
                Some(at) => r matches Ok(SandboxCommand::SetPending(pending)) && {
                    &&& pending.activate
                    &&& pending.sandbox_id@ == sandbox_id@
                    &&& pending.execute_at_unix_ms == at
                    &&& pending.map_id == Some(sandbox.config.map_id)
                    &&& pending.time_of_day_preset == Some(
                        preset_in_engine(sandbox.config.time_of_day_preset),
                    )
                    &&& pending.ghost_mode_settings == Some(
                        stored_ghost_mode(sandbox.config.ghost_mode),
                    )
                },
                None => r == Ok::<SandboxCommand, Status>(
                    SandboxCommand::Switch {
                        map_id: sandbox.config.map_id,
                        sandbox_id: sandbox.sandbox_id,
                        time_of_day_preset: preset_in_engine(sandbox.config.time_of_day_preset),
                        ghost_mode_settings: stored_ghost_mode(sandbox.config.ghost_mode),
                    },
                ),
            },
        },
        r matches Ok(SandboxCommand::SetPending(pending)) ==> (sandbox_with_id(
            sandboxes@,
            sandbox_id@,
        )->Some_0.config.ghost_mode matches Some(settings) ==> {
            let engine = pending.ghost_mode_settings->Some_0;
            &&& pending.ghost_mode_settings is Some
            &&& engine.enabled == settings.enabled
            &&& engine.min_speed_enter_mps == settings.enter_speed_max_mps
            &&& engine.min_speed_exit_mps == settings.exit_speed_min_mps
            &&& engine.enter_delay_ms == settings.enter_delay_ms
            &&& engine.exit_delay_ms == settings.exit_delay_ms
            &&& engine.min_completed_laps == settings.until_completed_laps
            &&& engine.overlap_exit_delay_ms == settings.vehicle_overlap_exit_delay_ms
            &&& engine.condition_logic == GhostModeConditionLogic::Or
        }),
        r matches Ok(SandboxCommand::Switch { ghost_mode_settings: engine, .. }) ==> (
        sandbox_with_id(sandboxes@, sandbox_id@)->Some_0.config.ghost_mode matches Some(settings)
            ==> {
            &&& engine.enabled == settings.enabled
            &&& engine.min_speed_enter_mps == settings.enter_speed_max_mps
            &&& engine.min_speed_exit_mps == settings.exit_speed_min_mps
            &&& engine.enter_delay_ms == settings.enter_delay_ms
            &&& engine.exit_delay_ms == settings.exit_delay_ms
            &&& engine.min_completed_laps == settings.until_completed_laps
            &&& engine.overlap_exit_delay_ms == settings.vehicle_overlap_exit_delay_ms
            &&& engine.condition_logic == GhostModeConditionLogic::Or
        }),
        r matches Ok(SandboxCommand::SetPending(pending)) ==> (sandbox_with_id(
            sandboxes@,
            sandbox_id@,
        )->Some_0.config.ghost_mode is None ==> pending.ghost_mode_settings is Some
            && !pending.ghost_mode_settings->Some_0.enabled),
        r matches Ok(SandboxCommand::Switch { ghost_mode_settings: engine, .. }) ==> (
        sandbox_with_id(sandboxes@, sandbox_id@)->Some_0.config.ghost_mode is None
            ==> !engine.enabled),
{
    let sandbox: SandboxConfigRecord = match find_sandbox_by_id(sandboxes, sandbox_id) {
        Some(sandbox) => sandbox,
        None => return Err(sandbox_not_found(sandbox_id)),
    };
    let time_of_day_preset: EngineRuntimeTimeOfDayPreset = runtime_time_of_day_preset_from_proto(
        sandbox.config.time_of_day_preset,
    );
    let ghost_mode_settings: EngineGhostModeSettings = engine_ghost_mode_settings_from_record(
        sandbox.config.ghost_mode,
    );
    match execute_at_unix_ms {
        Some(at) => Ok(
            SandboxCommand::SetPending(
                EnginePendingSandboxActivation {
                    activate: true,
                    sandbox_id: sandbox_id.to_owned(),
                    execute_at_unix_ms: at,
                    map_id: Some(sandbox.config.map_id),
                    time_of_day_preset: Some(time_of_day_preset),
                    ghost_mode_settings: Some(ghost_mode_settings),
                },
            ),
        ),
        None => Ok(
            SandboxCommand::Switch {
                map_id: sandbox.config.map_id,
                sandbox_id: sandbox.sandbox_id,
                time_of_day_preset,
                ghost_mode_settings,
            },
        ),
    }
}

/// How to stop a sandbox, now or at the given time. It need not be stored any more.
pub fn plan_deactivation(sandbox_id: &str, execute_at_unix_ms: Option<i64>) -> (r: SandboxCommand)
    ensures
        match execute_at_unix_ms {
            Some(at) => r matches SandboxCommand::SetPending(pending) && {
                &&& !pending.activate
                &&& pending.sandbox_id@ == sandbox_id@
                &&& pending.execute_at_unix_ms == at
                &&& pending.map_id is None
                &&& pending.time_of_day_preset is None
                &&& pending.ghost_mode_settings is None
            },
            None => r matches SandboxCommand::Deactivate { sandbox_id: id } && id@ == sandbox_id@,
        },
{
    match execute_at_unix_ms {
        Some(at) => SandboxCommand::SetPending(
            EnginePendingSandboxActivation {
                activate: false,
                sandbox_id: sandbox_id.to_owned(),
                execute_at_unix_ms: at,
                map_id: None,
                time_of_day_preset: None,
                ghost_mode_settings: None,
            },
        ),
        None => SandboxCommand::Deactivate { sandbox_id: sandbox_id.to_owned() },
    }
}

/// When a command that the engine has taken becomes effective: at the time it was
/// given, or now.
pub fn effective_time(execute_at_unix_ms: Option<i64>, now: Timestamp) -> (r: Timestamp)
    ensures
        r == match execute_at_unix_ms {
            Some(at) => timestamp_of(at as int),
            None => now,
        },
{
    match execute_at_unix_ms {
        Some(at) => unix_ms_to_timestamp(at),
        None => now,
    }
}

/// The running sandboxes and what is to be done with sandboxes later.
#[derive(Debug)]
pub struct AdminSandboxRuntimeMode {
    pub sandboxes: Vec<AdminSandboxRuntimeInfo>,
    pub pending_sandbox_operations: Vec<AdminPendingSandboxOperation>,
}

/// What the engine is running, as an admin is shown it.
#[derive(Debug)]
pub struct AdminRuntimeState {
    pub revision: u64,
    pub server_time_utc: Option<Timestamp>,
    /// There are sandboxes to show only while the engine runs sandboxes.
    pub active_mode: Option<AdminSandboxRuntimeMode>,
}

fn build_pending_operations(pending: &Vec<EnginePendingSandboxActivation>) -> (r: Vec<
    AdminPendingSandboxOperation,
>)
    ensures
        r@ == pending@.map_values(|p: EnginePendingSandboxActivation| pending_on_wire(p)),
{
    let mut r: Vec<AdminPendingSandboxOperation> = Vec::new();
    let mut n: usize = 0;
    while n < pending.len()
        invariant
            n <= pending@.len(),
            r@.len() == n,
            forall|i: int| 0 <= i < n ==> #[trigger] r@[i] == pending_on_wire(pending@[i]),
        decreases pending@.len() - n,
    {
        r.push(pending_sandbox_operation_to_proto(&pending[n]));
        n += 1;
    }
    r
}

pub fn build_admin_runtime_state(
    revision: u64,
    activity_kind: EngineActivityKind,
    active: &Vec<EngineActiveSandboxState>,
    pending: &Vec<EnginePendingSandboxActivation>,
    configs: &Vec<SandboxConfigRecord>,
    now: Timestamp,
) -> (r: AdminRuntimeState)
    ensures
        r.revision == revision,
        r.server_time_utc == Some(now),
        match r.active_mode {
            Some(mode) => activity_kind == EngineActivityKind::Sandbox && mode.sandboxes@
                == admin_infos(active@, configs@) && mode.pending_sandbox_operations@
                == pending@.map_values(|p: EnginePendingSandboxActivation| pending_on_wire(p)),
            None => activity_kind != EngineActivityKind::Sandbox,
        },
{
    let active_mode: Option<AdminSandboxRuntimeMode> = match activity_kind {
        EngineActivityKind::Sandbox => Some(
            AdminSandboxRuntimeMode {
                sandboxes: build_admin_sandbox_infos(active, configs),
                pending_sandbox_operations: build_pending_operations(pending),
            },
        ),
        _ => None,
    };
    AdminRuntimeState { revision, server_time_utc: Some(now), active_mode }
}

/// What an admin may ask of an official race that the server cannot do.
#[derive(Clone, Copy, PartialEq, Eq, Debug, Structural)]
pub enum OfficialRaceControl {
    StartCountdown,
    Abort,
    CloseSession,
}

pub fn refuse_official_race_control(control: OfficialRaceControl) -> (r: Status)
    ensures
        r@ == (
            Code::Unimplemented,
            match control {
                OfficialRaceControl::StartCountdown => "official race countdown controls are not implemented yet"@,
                OfficialRaceControl::Abort => "official race abort controls are not implemented yet"@,
                OfficialRaceControl::CloseSession => "official race close controls are not implemented yet"@,
            },
        ),
{
    let message: &str = match control {
        OfficialRaceControl::StartCountdown => "official race countdown controls are not implemented yet",
        OfficialRaceControl::Abort => "official race abort controls are not implemented yet",
        OfficialRaceControl::CloseSession => "official race close controls are not implemented yet",
    };
    Status::new(Code::Unimplemented, message)
}

/// A sandbox that was given another time of day is otherwise one that was stored.
pub proof fn time_of_day_changes_nothing_else(
    sandboxes: Seq<SandboxConfigRecord>,
    sandbox_id: Seq<char>,
    preset: RuntimeTimeOfDayPreset,
    planned: SandboxConfigRecord,
)
    requires
        sandbox_with_id(sandboxes, sandbox_id) is Some,
        planned == (SandboxConfigRecord {
            sandbox_id: sandbox_with_id(sandboxes, sandbox_id)->Some_0.sandbox_id,
            config: SandboxConfigInputRecord {
                time_of_day_preset: preset,
                ..sandbox_with_id(sandboxes, sandbox_id)->Some_0.config
            },
        }),
    ensures
        planned.sandbox_id@ == sandbox_id,
        planned.config.time_of_day_preset == preset,
        exists|i: int|
            0 <= i < sandboxes.len() && (#[trigger] sandboxes[i]).config.sandbox_name
                == planned.config.sandbox_name && sandboxes[i].config.map_id
                == planned.config.map_id && sandboxes[i].config.ghost_mode
                == planned.config.ghost_mode,
{
    crate::sandbox_config::records::found_sandbox_is_first(sandboxes, sandbox_id);
}

/// Only what the caller got wrong is the caller's fault: an old revision, an id that is
/// taken or unknown, and values that stand for nothing each have their code; whatever else
/// the storage refuses is internal.
pub proof fn refusals_have_their_codes(failure: SandboxConfigRepoFailure)
    ensures
        (sandbox_failure_code(failure) == Code::FailedPrecondition) == (failure
            is RevisionMismatch),
        (sandbox_failure_code(failure) == Code::AlreadyExists) == (failure is AlreadyExists),
        (sandbox_failure_code(failure) == Code::NotFound) == (failure is NotFound),
        (sandbox_failure_code(failure) == Code::InvalidArgument) == (failure
            is InvalidTimeOfDayPreset || failure is InvalidGhostConditionLogic),
        (sandbox_failure_code(failure) == Code::Internal) == (failure is Database || failure
            is StateMissing || failure is PartialGhostData || failure is NumericOutOfRange
            || failure is RevisionOverflow),
{
}

/// A sandbox runs exactly where the engine runs sandboxes and one of them has the id.
pub proof fn running_sandbox_is_listed(runtime: EngineRuntimeState, id: Seq<char>)
    ensures
        sandbox_is_running(runtime, id) <==> runtime.activity_kind == EngineActivityKind::Sandbox
            && exists|i: int|
            0 <= i < runtime.active_sandboxes@.len() && (
            #[trigger] runtime.active_sandboxes@[i]).sandbox_id@ == id,
{
}

/// A stored ghost mode reaches the engine value by value, each under its own meaning, and
/// one that is not stored is off.
pub proof fn stored_ghost_mode_keeps_its_values(ghost_mode: Option<GhostModeSettings>)
    ensures
        ghost_mode matches Some(settings) ==> {
            let engine = stored_ghost_mode(ghost_mode);
            &&& engine.enabled == settings.enabled
            &&& engine.min_speed_enter_mps == settings.enter_speed_max_mps
            &&& engine.min_speed_exit_mps == settings.exit_speed_min_mps
            &&& engine.enter_delay_ms == settings.enter_delay_ms
            &&& engine.exit_delay_ms == settings.exit_delay_ms
            &&& engine.min_completed_laps == settings.until_completed_laps
            &&& engine.overlap_exit_delay_ms == settings.vehicle_overlap_exit_delay_ms
            &&& engine.condition_logic == GhostModeConditionLogic::Or
        },
        ghost_mode is None ==> !stored_ghost_mode(ghost_mode).enabled,
{
}

/// The text from which the id of a sandbox is made ends in its time: what is configured at
/// another time, and else in the same way, has another text.
pub proof fn sandboxes_of_different_times_are_told_apart(
    config: SandboxConfigInputRecord,
    preset_number: i32,
    expected_revision: u64,
    a: u128,
    b: u128,
)
    ensures
        sandbox_id_payload(config, preset_number, expected_revision, a) == sandbox_id_payload(
            config,
            preset_number,
            expected_revision,
            b,
        ) ==> a == b,
{
    let x = sandbox_id_payload(config, preset_number, expected_revision, a);
    let y = sandbox_id_payload(config, preset_number, expected_revision, b);
    let u = text::decimal(a as nat);
    let v = text::decimal(b as nat);
    if x == y {
        let n = x.len() - u.len();
        assert(n == y.len() - v.len() || u.len() != v.len());
        assert(x.skip(n) =~= u);
        assert(y.skip(y.len() - v.len()) =~= v);
        text::numerals_are_read_back(a as nat);
        text::numerals_are_read_back(b as nat);
    }
}

} // verus!
