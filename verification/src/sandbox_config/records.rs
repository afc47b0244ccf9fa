//! The configuration of a sandbox, on the wire and in storage, and what is shown of a
//! sandbox that runs.

use vstd::prelude::*;
use crate::engine::{EngineActiveSandboxState, EngineRuntimeTimeOfDayPreset};
use crate::ghost_mode::{
    ghost_mode_from_proto, speed_fault, EngineGhostModeSettings, GhostModeSettings,
};
use crate::status::{Code, Status};
use crate::text;
use crate::time_of_day::{
    preset_on_wire, runtime_time_of_day_preset_to_proto, RuntimeTimeOfDayPreset,
};
use crate::timestamp::{timestamp_of, unix_ms_to_timestamp, Timestamp};

verus! {

pub const MAX_SANDBOX_NAME_LEN_CHARS: usize = 64;

/// A sandbox as it is on the wire. The preset is missing where its number stands for
/// none.
#[derive(Debug)]
pub struct SandboxConfigInput {
    pub sandbox_name: String,
    pub map_id: String,
    pub time_of_day_preset: Option<RuntimeTimeOfDayPreset>,
    pub ghost_mode: Option<GhostModeSettings>,
}

/// A sandbox with its id, as it is on the wire.
#[derive(Debug)]
pub struct SandboxConfig {
    pub sandbox_id: String,
    pub config: Option<SandboxConfigInput>,
}

/// A sandbox as it is stored.
#[derive(Debug)]
pub struct SandboxConfigInputRecord {
    pub sandbox_name: String,
    pub map_id: String,
    pub time_of_day_preset: RuntimeTimeOfDayPreset,
    pub ghost_mode: Option<GhostModeSettings>,
}

impl Clone for SandboxConfigInputRecord {
    fn clone(&self) -> (r: Self)
        ensures
            r == *self,
    {
        SandboxConfigInputRecord {
            sandbox_name: self.sandbox_name.clone(),
            map_id: self.map_id.clone(),
            time_of_day_preset: self.time_of_day_preset,
            ghost_mode: self.ghost_mode,
        }
    }
}

/// A sandbox with its id, as it is stored.
#[derive(Debug)]
pub struct SandboxConfigRecord {
    pub sandbox_id: String,
    pub config: SandboxConfigInputRecord,
}

impl Clone for SandboxConfigRecord {
    fn clone(&self) -> (r: Self)
        ensures
            r == *self,
    {
        SandboxConfigRecord { sandbox_id: self.sandbox_id.clone(), config: self.config.clone() }
    }
}

/// Why a sandbox on the wire cannot be stored; the first fault counts.
pub open spec fn sandbox_fault(input: SandboxConfigInput) -> Option<Seq<char>> {
    if input.time_of_day_preset is None {
        Some("invalid time_of_day_preset"@)
    } else if input.time_of_day_preset == Some(RuntimeTimeOfDayPreset::Unspecified) {
        Some("time_of_day_preset must be specified"@)
    } else if input.ghost_mode is Some && speed_fault(input.ghost_mode->Some_0) is Some {
        speed_fault(input.ghost_mode->Some_0)
    } else if text::trimmed(input.sandbox_name@).len() == 0 {
        Some("sandbox_name must be non-empty"@)
    } else if text::trimmed(input.map_id@).len() == 0 {
        Some("map_id must be non-empty"@)
    } else {
        None
    }
}

/// The record of a sandbox on the wire.
pub open spec fn is_sandbox_record_of(
    record: SandboxConfigInputRecord,
    input: SandboxConfigInput,
) -> bool {
    &&& record.sandbox_name == input.sandbox_name
    &&& record.map_id == input.map_id
    &&& Some(record.time_of_day_preset) == input.time_of_day_preset
    &&& record.ghost_mode == input.ghost_mode
}

pub fn sandbox_input_from_proto(input: &SandboxConfigInput) -> (r: Result<
    SandboxConfigInputRecord,
    Status,
>)
    ensures
        match sandbox_fault(*input) {
            Some(fault) => r matches Err(e) && e@ == (Code::InvalidArgument, fault),
            None => r matches Ok(record) && is_sandbox_record_of(record, *input),
        },
        r matches Ok(record) ==> {
            &&& record.sandbox_name == input.sandbox_name
            &&& record.map_id == input.map_id
            &&& input.time_of_day_preset == Some(record.time_of_day_preset)
            &&& record.time_of_day_preset != RuntimeTimeOfDayPreset::Unspecified
            &&& record.ghost_mode == input.ghost_mode
        },
{
    let time_of_day_preset: RuntimeTimeOfDayPreset = match input.time_of_day_preset {
        Some(preset) => preset,
        None => return Err(Status::invalid_argument("invalid time_of_day_preset")),
    };
    if time_of_day_preset == RuntimeTimeOfDayPreset::Unspecified {
        return Err(Status::invalid_argument("time_of_day_preset must be specified"));
    }
    match input.ghost_mode {
        Some(settings) => match ghost_mode_from_proto(settings) {
            Err(e) => {
                return Err(e);
            },
            Ok(_) => {},
        },
        None => {},
    }
    if text::trim(input.sandbox_name.as_str()).as_str().is_empty() {
        return Err(Status::invalid_argument("sandbox_name must be non-empty"));
    }
    if text::trim(input.map_id.as_str()).as_str().is_empty() {
        return Err(Status::invalid_argument("map_id must be non-empty"));
    }
    Ok(
        SandboxConfigInputRecord {
            sandbox_name: input.sandbox_name.clone(),
            map_id: input.map_id.clone(),
            time_of_day_preset,
            ghost_mode: input.ghost_mode,
        },
    )
}

/// The stored sandbox on the wire.
pub open spec fn sandbox_input_on_wire(record: SandboxConfigInputRecord) -> SandboxConfigInput {
    SandboxConfigInput {
        sandbox_name: record.sandbox_name,
        map_id: record.map_id,
        time_of_day_preset: Some(record.time_of_day_preset),
        ghost_mode: record.ghost_mode,
    }
}

pub fn sandbox_input_to_proto(input: SandboxConfigInputRecord) -> (r: SandboxConfigInput)
    ensures
        r == sandbox_input_on_wire(input),
        r.sandbox_name == input.sandbox_name,
        r.map_id == input.map_id,
        r.time_of_day_preset == Some(input.time_of_day_preset),
        r.ghost_mode == input.ghost_mode,
{
    SandboxConfigInput {
        sandbox_name: input.sandbox_name,
        map_id: input.map_id,
        time_of_day_preset: Some(input.time_of_day_preset),
        ghost_mode: input.ghost_mode,
    }
}

pub fn sandbox_to_proto(record: SandboxConfigRecord) -> (r: SandboxConfig)
    ensures
        r.sandbox_id == record.sandbox_id,
        r.config == Some(sandbox_input_on_wire(record.config)),
{
    SandboxConfig {
        sandbox_id: record.sandbox_id,
        config: Some(sandbox_input_to_proto(record.config)),
    }
}

/// What was accepted from the wire goes back onto it as it came.
pub proof fn accepted_sandbox_round_trip(
    input: SandboxConfigInput,
    record: SandboxConfigInputRecord,
)
    requires
        is_sandbox_record_of(record, input),
    ensures
        sandbox_input_on_wire(record) == input,
{
}

/// Why a name and a map cannot be those of a sandbox; the first fault counts.
pub open spec fn name_and_map_fault(sandbox_name: Seq<char>, map_id: Seq<char>) -> Option<
    Seq<char>,
> {
    let name = text::trimmed(sandbox_name);
    let map = text::trimmed(map_id);
    if name.len() == 0 {
        Some("sandbox_name must be non-empty"@)
    } else if name.len() > MAX_SANDBOX_NAME_LEN_CHARS {
        Some(
            "sandbox_name must be at most "@ + text::decimal(MAX_SANDBOX_NAME_LEN_CHARS as nat)
                + " characters"@,
        )
    } else if map.len() == 0 {
        Some("map_id must be non-empty"@)
    } else if !text::all_word(map) {
        Some("map_id contains invalid characters"@)
    } else {
        None
    }
}

/// Checks the name and the map of a sandbox, both without the whitespace around them.
pub fn validate_sandbox_name_and_map_id(sandbox_name: &str, map_id: &str) -> (r: Result<
    (),
    Status,
>)
    ensures
        match name_and_map_fault(sandbox_name@, map_id@) {
            Some(fault) => r matches Err(e) && e@ == (Code::InvalidArgument, fault),
            None => r == Ok::<(), Status>(()),
        },
{
    let name: String = text::trim(sandbox_name);
    if name.as_str().is_empty() {
        return Err(Status::invalid_argument("sandbox_name must be non-empty"));
    }
    if name.as_str().unicode_len() > MAX_SANDBOX_NAME_LEN_CHARS {
        let mut message: String = "sandbox_name must be at most ".to_owned();
        text::push_decimal(&mut message, MAX_SANDBOX_NAME_LEN_CHARS as u128);
        message.append(" characters");
        return Err(Status::with_message(Code::InvalidArgument, message));
    }
    let map: String = text::trim(map_id);
    if map.as_str().is_empty() {
        return Err(Status::invalid_argument("map_id must be non-empty"));
    }
    if !text::is_all_word(map.as_str()) {
        return Err(Status::invalid_argument("map_id contains invalid characters"));
    }
    Ok(())
}

/// The first of the sandboxes with the id.
pub open spec fn sandbox_with_id(sandboxes: Seq<SandboxConfigRecord>, id: Seq<char>) -> Option<
    SandboxConfigRecord,
>
    decreases sandboxes.len(),
{
    if sandboxes.len() == 0 {
        None
    } else {
        match sandbox_with_id(sandboxes.drop_last(), id) {
            Some(record) => Some(record),
            None => if sandboxes.last().sandbox_id@ == id {
                Some(sandboxes.last())
            } else {
                None
            },
        }
    }
}

/// A sandbox that was found is in the list, has the id, and no other with the id
/// comes before it; none is found exactly where none has the id.
pub proof fn found_sandbox_is_first(sandboxes: Seq<SandboxConfigRecord>, id: Seq<char>)
    ensures
        match sandbox_with_id(sandboxes, id) {
            Some(record) => exists|i: int|
                0 <= i < sandboxes.len() && #[trigger] sandboxes[i] == record
                    && record.sandbox_id@ == id && forall|j: int|
                    0 <= j < i ==> (#[trigger] sandboxes[j]).sandbox_id@ != id,
            None => forall|i: int|
                0 <= i < sandboxes.len() ==> (#[trigger] sandboxes[i]).sandbox_id@ != id,
        },
    decreases sandboxes.len(),
{
    if sandboxes.len() > 0 {
        let head = sandboxes.drop_last();
        found_sandbox_is_first(head, id);
        match sandbox_with_id(head, id) {
            Some(record) => {
                let i = choose|i: int|
                    0 <= i < head.len() && #[trigger] head[i] == record && record.sandbox_id@ == id
                        && forall|j: int| 0 <= j < i ==> (#[trigger] head[j]).sandbox_id@ != id;
                assert(sandboxes[i] == head[i]);
                assert forall|j: int| 0 <= j < i implies (#[trigger] sandboxes[j]).sandbox_id@
                    != id by {
                    assert(sandboxes[j] == head[j]);
                }
            },
            None => {
                assert forall|j: int| 0 <= j < head.len() implies (
                #[trigger] sandboxes[j]).sandbox_id@ != id by {
                    assert(sandboxes[j] == head[j]);
                }
                assert(sandboxes[sandboxes.len() - 1] == sandboxes.last());
            },
        }
    }
}

proof fn lemma_found_stays(sandboxes: Seq<SandboxConfigRecord>, id: Seq<char>, n: int)
    requires
        0 <= n <= sandboxes.len(),
        sandbox_with_id(sandboxes.take(n), id) is Some,
    ensures
        sandbox_with_id(sandboxes, id) == sandbox_with_id(sandboxes.take(n), id),
    decreases sandboxes.len(),
{
    if n == sandboxes.len() {
        assert(sandboxes.take(n) =~= sandboxes);
    } else {
        assert(sandboxes.drop_last().take(n) =~= sandboxes.take(n));
        lemma_found_stays(sandboxes.drop_last(), id, n);
    }
}

/// Finds the sandbox with the id.
pub fn find_sandbox_by_id(sandboxes: &Vec<SandboxConfigRecord>, sandbox_id: &str) -> (r: Option<
    SandboxConfigRecord,
>)
    ensures
        r == sandbox_with_id(sandboxes@, sandbox_id@),
{
    let mut n: usize = 0;
    while n < sandboxes.len()
        invariant
            n <= sandboxes@.len(),
            sandbox_with_id(sandboxes@.take(n as int), sandbox_id@) is None,
        decreases sandboxes@.len() - n,
    {
        proof {
            assert(sandboxes@.take(n + 1).drop_last() =~= sandboxes@.take(n as int));
            assert(sandboxes@.take(n + 1).last() == sandboxes@[n as int]);
        }
        if text::str_eq(sandboxes[n].sandbox_id.as_str(), sandbox_id) {
            proof {
                lemma_found_stays(sandboxes@, sandbox_id@, n + 1);
            }
            return Some(sandboxes[n].clone());
        }
        n += 1;
    }
    proof {
        assert(sandboxes@.take(n as int) =~= sandboxes@);
    }
    None
}

/// What an admin is shown of a sandbox that runs.
#[derive(Debug)]
pub struct AdminSandboxRuntimeInfo {
    pub sandbox_id: String,
    pub sandbox_name: String,
    pub map_id: String,
    pub active_time_of_day_preset: RuntimeTimeOfDayPreset,
    pub ghost_mode: Option<GhostModeSettings>,
    pub started_at_utc: Option<Timestamp>,
    pub closes_at_utc: Option<Timestamp>,
}

pub open spec fn admin_info(
    record: SandboxConfigRecord,
    preset: RuntimeTimeOfDayPreset,
) -> AdminSandboxRuntimeInfo {
    AdminSandboxRuntimeInfo {
        sandbox_id: record.sandbox_id,
        sandbox_name: record.config.sandbox_name,
        map_id: record.config.map_id,
        active_time_of_day_preset: preset,
        ghost_mode: record.config.ghost_mode,
        started_at_utc: None,
        closes_at_utc: None,
    }
}

pub fn admin_sandbox_runtime_info_from_record(
    record: SandboxConfigRecord,
    active_time_of_day_preset: RuntimeTimeOfDayPreset,
) -> (r: AdminSandboxRuntimeInfo)
    ensures
        r == admin_info(record, active_time_of_day_preset),
        r.sandbox_id == record.sandbox_id,
        r.sandbox_name == record.config.sandbox_name,
        r.map_id == record.config.map_id,
        r.active_time_of_day_preset == active_time_of_day_preset,
        r.ghost_mode == record.config.ghost_mode,
        r.started_at_utc is None && r.closes_at_utc is None,
{
    AdminSandboxRuntimeInfo {
        sandbox_id: record.sandbox_id,
        sandbox_name: record.config.sandbox_name,
        map_id: record.config.map_id,
        active_time_of_day_preset,
        ghost_mode: record.config.ghost_mode,
        started_at_utc: None,
        closes_at_utc: None,
    }
}

/// What everybody is shown of a sandbox that runs.
#[derive(Debug)]
pub struct PublicSandboxRuntimeInfo {
    pub sandbox_id: String,
    pub sandbox_name: String,
    pub map_id: String,
    pub active_time_of_day_preset: RuntimeTimeOfDayPreset,
    pub ghost_mode: Option<GhostModeSettings>,
    pub active_player_count: u32,
}

impl Clone for PublicSandboxRuntimeInfo {
    fn clone(&self) -> (r: Self)
        ensures
            r == *self,
    {
        PublicSandboxRuntimeInfo {
            sandbox_id: self.sandbox_id.clone(),
            sandbox_name: self.sandbox_name.clone(),
            map_id: self.map_id.clone(),
            active_time_of_day_preset: self.active_time_of_day_preset,
            ghost_mode: self.ghost_mode,
            active_player_count: self.active_player_count,
        }
    }
}

pub open spec fn public_info(
    record: SandboxConfigRecord,
    preset: RuntimeTimeOfDayPreset,
    active_player_count: u32,
) -> PublicSandboxRuntimeInfo {
    PublicSandboxRuntimeInfo {
        sandbox_id: record.sandbox_id,
        sandbox_name: record.config.sandbox_name,
        map_id: record.config.map_id,
        active_time_of_day_preset: preset,
        ghost_mode: record.config.ghost_mode,
        active_player_count,
    }
}

pub fn public_sandbox_runtime_info_from_record(
    record: SandboxConfigRecord,
    active_time_of_day_preset: RuntimeTimeOfDayPreset,
    active_player_count: u32,
) -> (r: PublicSandboxRuntimeInfo)
    ensures
        r == public_info(record, active_time_of_day_preset, active_player_count),
        r.sandbox_id == record.sandbox_id,
        r.sandbox_name == record.config.sandbox_name,
        r.map_id == record.config.map_id,
        r.active_time_of_day_preset == active_time_of_day_preset,
        r.ghost_mode == record.config.ghost_mode,
        r.active_player_count == active_player_count,
{
    PublicSandboxRuntimeInfo {
        sandbox_id: record.sandbox_id,
        sandbox_name: record.config.sandbox_name,
        map_id: record.config.map_id,
        active_time_of_day_preset,
        ghost_mode: record.config.ghost_mode,
        active_player_count,
    }
}

/// The running sandboxes that are stored, in the order in which they run, each with
/// what `show` makes of its record and its time of day.
pub open spec fn running<T>(
    active: Seq<EngineActiveSandboxState>,
    configs: Seq<SandboxConfigRecord>,
    show: spec_fn(SandboxConfigRecord, RuntimeTimeOfDayPreset) -> T,
) -> Seq<T>
    decreases active.len(),
{
    if active.len() == 0 {
        Seq::empty()
    } else {
        let before = running(active.drop_last(), configs, show);
        match sandbox_with_id(configs, active.last().sandbox_id@) {
            Some(record) => before.push(
                show(record, preset_on_wire(active.last().time_of_day_preset)),
            ),
            None => before,
        }
    }
}

/// The running sandboxes as everybody is shown them; players are not counted.
pub open spec fn public_infos(
    active: Seq<EngineActiveSandboxState>,
    configs: Seq<SandboxConfigRecord>,
) -> Seq<PublicSandboxRuntimeInfo> {
    running(
        active,
        configs,
        |record: SandboxConfigRecord, preset: RuntimeTimeOfDayPreset|
            public_info(record, preset, 0),
    )
}

pub fn build_public_sandbox_infos(
    active: &Vec<EngineActiveSandboxState>,
    configs: &Vec<SandboxConfigRecord>,
) -> (r: Vec<PublicSandboxRuntimeInfo>)
    ensures
        r@ == public_infos(active@, configs@),
{
    let mut r: Vec<PublicSandboxRuntimeInfo> = Vec::new();
    let mut n: usize = 0;
    proof {
        assert(active@.take(0) =~= Seq::<EngineActiveSandboxState>::empty());
    }
    while n < active.len()
        invariant
            n <= active@.len(),
            r@ == public_infos(active@.take(n as int), configs@),
        decreases active@.len() - n,
    {
        proof {
            assert(active@.take(n + 1).drop_last() =~= active@.take(n as int));
            assert(active@.take(n + 1).last() == active@[n as int]);
        }
        match find_sandbox_by_id(configs, active[n].sandbox_id.as_str()) {
            Some(record) => {
                let preset: RuntimeTimeOfDayPreset = runtime_time_of_day_preset_to_proto(
                    active[n].time_of_day_preset,
                );
                r.push(public_sandbox_runtime_info_from_record(record, preset, 0));
            },
            None => {},
        }
        n += 1;
    }
    proof {
        assert(active@.take(n as int) =~= active@);
    }
    r
}

/// The running sandboxes as an admin is shown them.
pub open spec fn admin_infos(
    active: Seq<EngineActiveSandboxState>,
    configs: Seq<SandboxConfigRecord>,
) -> Seq<AdminSandboxRuntimeInfo> {
    running(
        active,
        configs,
        |record: SandboxConfigRecord, preset: RuntimeTimeOfDayPreset| admin_info(record, preset),
    )
}

pub fn build_admin_sandbox_infos(
    active: &Vec<EngineActiveSandboxState>,
    configs: &Vec<SandboxConfigRecord>,
) -> (r: Vec<AdminSandboxRuntimeInfo>)
    ensures
        r@ == admin_infos(active@, configs@),
{
    let mut r: Vec<AdminSandboxRuntimeInfo> = Vec::new();
    let mut n: usize = 0;
    proof {
        assert(active@.take(0) =~= Seq::<EngineActiveSandboxState>::empty());
    }
    while n < active.len()
        invariant
            n <= active@.len(),
            r@ == admin_infos(active@.take(n as int), configs@),
        decreases active@.len() - n,
    {
        proof {
            assert(active@.take(n + 1).drop_last() =~= active@.take(n as int));
            assert(active@.take(n + 1).last() == active@[n as int]);
        }
        match find_sandbox_by_id(configs, active[n].sandbox_id.as_str()) {
            Some(record) => {
                let preset: RuntimeTimeOfDayPreset = runtime_time_of_day_preset_to_proto(
                    active[n].time_of_day_preset,
                );
                r.push(admin_sandbox_runtime_info_from_record(record, preset));
            },
            None => {},
        }
        n += 1;
    }
    proof {
        assert(active@.take(n as int) =~= active@);
    }
    r
}

/// A sandbox that is to be started or stopped at a later time.
#[derive(Debug)]
pub struct EnginePendingSandboxActivation {
    pub activate: bool,
    pub sandbox_id: String,
    pub execute_at_unix_ms: i64,
    pub map_id: Option<String>,
    pub time_of_day_preset: Option<EngineRuntimeTimeOfDayPreset>,
    pub ghost_mode_settings: Option<EngineGhostModeSettings>,
}

/// What an admin is shown of it.
#[derive(Debug)]
pub struct AdminPendingSandboxOperation {
    pub activate: bool,
    pub sandbox_id: String,
    pub execute_at_utc: Option<Timestamp>,
}

pub open spec fn pending_on_wire(
    pending: EnginePendingSandboxActivation,
) -> AdminPendingSandboxOperation {
    AdminPendingSandboxOperation {
        activate: pending.activate,
        sandbox_id: pending.sandbox_id,
        execute_at_utc: Some(timestamp_of(pending.execute_at_unix_ms as int)),
    }
}

pub fn pending_sandbox_operation_to_proto(pending: &EnginePendingSandboxActivation) -> (r:
    AdminPendingSandboxOperation)
    ensures
        r == pending_on_wire(*pending),
        r.activate == pending.activate,
        r.sandbox_id == pending.sandbox_id,
{
    AdminPendingSandboxOperation {
        activate: pending.activate,
        sandbox_id: pending.sandbox_id.clone(),
        execute_at_utc: Some(unix_ms_to_timestamp(pending.execute_at_unix_ms)),
    }
}

/// A sandbox is taken from the wire exactly where it has a time of day that is told, a
/// ghost mode in order if it has one, a name and a map that are not blank.
pub proof fn sandboxes_in_order_are_taken(input: SandboxConfigInput)
    ensures
        sandbox_fault(input) is None <==> {
            &&& input.time_of_day_preset is Some
            &&& input.time_of_day_preset != Some(RuntimeTimeOfDayPreset::Unspecified)
            &&& (input.ghost_mode matches Some(settings) ==> speed_fault(settings) is None)
            &&& text::trimmed(input.sandbox_name@).len() > 0
            &&& text::trimmed(input.map_id@).len() > 0
        },
{
}

/// A name and a map are those of a sandbox exactly where, without the whitespace around
/// them, the name has one to sixty-four characters and the map one or more, all of them
/// word characters.
pub proof fn names_and_maps_in_order(sandbox_name: Seq<char>, map_id: Seq<char>)
    ensures
        name_and_map_fault(sandbox_name, map_id) is None <==> {
            &&& 1 <= text::trimmed(sandbox_name).len() <= 64
            &&& text::trimmed(map_id).len() >= 1
            &&& text::all_word(text::trimmed(map_id))
        },
{
}

/// What is shown of the sandboxes that run is shown of each of them on its own, one after
/// the other.
pub proof fn running_sandboxes_are_shown_in_turn<T>(
    first: Seq<EngineActiveSandboxState>,
    then: Seq<EngineActiveSandboxState>,
    configs: Seq<SandboxConfigRecord>,
    show: spec_fn(SandboxConfigRecord, RuntimeTimeOfDayPreset) -> T,
)
    ensures
        running(first + then, configs, show) == running(first, configs, show) + running(
            then,
            configs,
            show,
        ),
    decreases then.len(),
{
    if then.len() == 0 {
        assert(first + then =~= first);
        assert(running(then, configs, show) =~= Seq::<T>::empty());
    } else {
        running_sandboxes_are_shown_in_turn(first, then.drop_last(), configs, show);
        assert((first + then).drop_last() =~= first + then.drop_last());
        assert((first + then).last() == then.last());
    }
}

/// A sandbox that runs alone is shown exactly where it is stored: under its id, with the
/// name, the map and the ghost mode that are stored, the time of day that it has in the
/// engine, and no players.
pub proof fn running_sandbox_is_shown_as_stored(
    state: EngineActiveSandboxState,
    configs: Seq<SandboxConfigRecord>,
)
    ensures
        match sandbox_with_id(configs, state.sandbox_id@) {
            None => public_infos(seq![state], configs).len() == 0 && admin_infos(
                seq![state],
                configs,
            ).len() == 0,
            Some(record) => {
                let public = public_infos(seq![state], configs);
                let admin = admin_infos(seq![state], configs);
                &&& public.len() == 1 && admin.len() == 1
                &&& public[0].sandbox_id@ == state.sandbox_id@
                &&& public[0].sandbox_name == record.config.sandbox_name
                &&& public[0].map_id == record.config.map_id
                &&& public[0].active_time_of_day_preset == preset_on_wire(state.time_of_day_preset)
                &&& public[0].ghost_mode == record.config.ghost_mode
                &&& public[0].active_player_count == 0
                &&& admin[0].sandbox_id@ == state.sandbox_id@
                &&& admin[0].sandbox_name == record.config.sandbox_name
                &&& admin[0].map_id == record.config.map_id
                &&& admin[0].active_time_of_day_preset == preset_on_wire(state.time_of_day_preset)
                &&& admin[0].ghost_mode == record.config.ghost_mode
            },
        },
{
    found_sandbox_is_first(configs, state.sandbox_id@);
    let active = seq![state];
    assert(active.drop_last() =~= Seq::empty());
    assert(active.last() == state);
    reveal_with_fuel(running, 2);
}

/// What is to be done later is shown with the time at which it is due: its whole seconds,
/// and the milliseconds beyond them as nanoseconds.
pub proof fn pending_operation_is_shown_when_due(pending: EnginePendingSandboxActivation)
    ensures
        pending_on_wire(pending).activate == pending.activate,
        pending_on_wire(pending).sandbox_id == pending.sandbox_id,
        pending_on_wire(pending).execute_at_utc matches Some(at) && at.seconds * 1000 + at.nanos
            / 1_000_000 == pending.execute_at_unix_ms,
{
}

/// Of several faults of a sandbox the first is told: its time of day, its ghost mode, its name
/// and its map.
pub proof fn first_sandbox_fault_is_told(input: SandboxConfigInput)
    ensures
        ({
            let told = input.time_of_day_preset is Some && input.time_of_day_preset != Some(
                RuntimeTimeOfDayPreset::Unspecified,
            );
            let ghost_fault = if input.ghost_mode is Some {
                speed_fault(input.ghost_mode->Some_0)
            } else {
                None
            };
            let named = text::trimmed(input.sandbox_name@).len() > 0;
            &&& input.time_of_day_preset is None ==> sandbox_fault(input) == Some(
                "invalid time_of_day_preset"@,
            )
            &&& input.time_of_day_preset == Some(RuntimeTimeOfDayPreset::Unspecified)
                ==> sandbox_fault(input) == Some("time_of_day_preset must be specified"@)
            &&& told && ghost_fault is Some ==> sandbox_fault(input) == ghost_fault
            &&& told && ghost_fault is None && !named ==> sandbox_fault(input) == Some(
                "sandbox_name must be non-empty"@,
            )
            &&& told && ghost_fault is None && named && text::trimmed(input.map_id@).len() == 0
                ==> sandbox_fault(input) == Some("map_id must be non-empty"@)
        }),
{
}

/// Of several faults of a name and a map the first is told: the name is missing or too long,
/// the map is missing or holds a character that it may not.
pub proof fn first_name_fault_is_told(sandbox_name: Seq<char>, map_id: Seq<char>)
    ensures
        ({
            let name = text::trimmed(sandbox_name);
            let map = text::trimmed(map_id);
            let fault = name_and_map_fault(sandbox_name, map_id);
            &&& name.len() == 0 ==> fault == Some("sandbox_name must be non-empty"@)
            &&& name.len() > 64 ==> fault == Some(
                "sandbox_name must be at most "@ + text::decimal(64) + " characters"@,
            )
            &&& 1 <= name.len() <= 64 && map.len() == 0 ==> fault == Some(
                "map_id must be non-empty"@,
            )
            &&& 1 <= name.len() <= 64 && map.len() > 0 && !text::all_word(map) ==> fault == Some(
                "map_id contains invalid characters"@,
            )
        }),
{
}

} // verus!
