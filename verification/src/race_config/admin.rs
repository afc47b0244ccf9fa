//! The administration of races: which change is in order, and what follows from it.

use vstd::prelude::*;
use crate::ids::{oid_uuid, uuid_v5};
use crate::race_config::records::{
    ends_fit, race_input_from_proto, races_stand_by_start, repo_schedule_to_domain,
    sort_by_start_time, RaceConfigInput, RaceConfigInputRecord, RaceConfigRecord,
};
use crate::sorting::ranked;
use crate::status::{Code, Status};
use crate::text;

verus! {

/// The service: the storage, what validates tokens, and the shared signal that
/// upcoming races have changed.
#[derive(Debug)]
pub struct RaceConfigAdminServiceImpl<R, V, I> {
    pub repo: R,
    pub token_validator: V,
    pub upcoming_invalidation: I,
}

impl<R, V, I> RaceConfigAdminServiceImpl<R, V, I> {
    pub fn with_repo(repo: R, token_validator: V, upcoming_invalidation: I) -> (r: Self)
        ensures
            r.repo == repo,
            r.token_validator == token_validator,
            r.upcoming_invalidation == upcoming_invalidation,
    {
        RaceConfigAdminServiceImpl { repo, token_validator, upcoming_invalidation }
    }
}

/// Only an admin may.
pub fn require_admin(is_admin: bool) -> (r: Result<(), Status>)
    ensures
        is_admin ==> r == Ok::<(), Status>(()),
        !is_admin ==> (r matches Err(e) && e@ == (
            Code::PermissionDenied,
            "admin role required"@,
        )),
{
    if is_admin {
        Ok(())
    } else {
        Err(Status::permission_denied("admin role required"))
    }
}

/// Why the storage refused.
#[derive(Clone, Copy, PartialEq, Eq, Debug, Structural)]
pub enum RaceConfigRepoFailure {
    RevisionMismatch,
    AlreadyExists,
    NotFound,
    InvalidStartPlacementMode,
    InvalidTimeOfDayPreset,
    Database,
    StateMissing,
    NumericOutOfRange,
    RevisionOverflow,
}

/// The code with which a refusal of the storage is answered.
pub open spec fn repo_failure_code(failure: RaceConfigRepoFailure) -> Code {
    match failure {
        RaceConfigRepoFailure::RevisionMismatch => Code::FailedPrecondition,
        RaceConfigRepoFailure::AlreadyExists => Code::AlreadyExists,
        RaceConfigRepoFailure::NotFound => Code::NotFound,
        RaceConfigRepoFailure::InvalidStartPlacementMode => Code::InvalidArgument,
        RaceConfigRepoFailure::InvalidTimeOfDayPreset => Code::InvalidArgument,
        RaceConfigRepoFailure::Database => Code::Internal,
        RaceConfigRepoFailure::StateMissing => Code::Internal,
        RaceConfigRepoFailure::NumericOutOfRange => Code::Internal,
        RaceConfigRepoFailure::RevisionOverflow => Code::Internal,
    }
}

pub fn map_repo_error_to_status(failure: RaceConfigRepoFailure, message: String) -> (r: Status)
    ensures
        r@ == (repo_failure_code(failure), message@),
{
    let code = match failure {
        RaceConfigRepoFailure::RevisionMismatch => Code::FailedPrecondition,
        RaceConfigRepoFailure::AlreadyExists => Code::AlreadyExists,
        RaceConfigRepoFailure::NotFound => Code::NotFound,
        RaceConfigRepoFailure::InvalidStartPlacementMode => Code::InvalidArgument,
        RaceConfigRepoFailure::InvalidTimeOfDayPreset => Code::InvalidArgument,
        RaceConfigRepoFailure::Database => Code::Internal,
        RaceConfigRepoFailure::StateMissing => Code::Internal,
        RaceConfigRepoFailure::NumericOutOfRange => Code::Internal,
        RaceConfigRepoFailure::RevisionOverflow => Code::Internal,
    };
    Status::with_message(code, message)
}

/// The status for a revision that is not the current one.
pub open spec fn revision_mismatch(expected: u64, current: u64) -> (Code, Seq<char>) {
    (
        Code::FailedPrecondition,
        "race config revision mismatch: expected "@ + text::decimal(expected as nat) + ", actual "@
            + text::decimal(current as nat),
    )
}

pub fn ensure_expected_revision(expected_revision: u64, current_revision: u64) -> (r: Result<
    (),
    Status,
>)
    ensures
        expected_revision == current_revision ==> r == Ok::<(), Status>(()),
        expected_revision != current_revision ==> (r matches Err(e) && e@ == revision_mismatch(
            expected_revision,
            current_revision,
        )),
{
    if expected_revision == current_revision {
        return Ok(());
    }
    let mut message: String = "race config revision mismatch: expected ".to_owned();
    text::push_decimal(&mut message, expected_revision as u128);
    message.append(", actual ");
    text::push_decimal(&mut message, current_revision as u128);
    Err(Status::with_message(Code::FailedPrecondition, message))
}

/// Whether a schedule is in order: first every race must have an end; then the rules
/// of the schedule decide, whose verdict is `broken_rule`, none where it is kept.
pub fn validate_candidate_schedule(
    entries: &Vec<RaceConfigRecord>,
    broken_rule: Option<String>,
) -> (r: Result<(), Status>)
    ensures
        if !ends_fit(entries@) {
            r matches Err(e) && e@ == (Code::OutOfRange, "race end time overflow"@)
        } else {
            match broken_rule {
                None => r == Ok::<(), Status>(()),
                Some(rule) => r matches Err(e) && e@ == (Code::InvalidArgument, rule@),
            }
        },
{
    match repo_schedule_to_domain(entries) {
        Err(e) => Err(e),
        Ok(_) => match broken_rule {
            None => Ok(()),
            Some(rule) => Err(Status::with_message(Code::InvalidArgument, rule)),
        },
    }
}

/// The configuration of a request, which must be there and in order.
pub fn require_config(config: &Option<RaceConfigInput>) -> (r: Result<
    RaceConfigInputRecord,
    Status,
>)
    ensures
        match config {
            None => r matches Err(e) && e@ == (Code::InvalidArgument, "config is required"@),
            Some(input) => match crate::race_config::records::input_fault(*input) {
                Some(fault) => r matches Err(e) && e@ == fault,
                None => r matches Ok(record) && crate::race_config::records::is_record_of(
                    record,
                    *input,
                ),
            },
        },
{
    match config {
        None => Err(Status::invalid_argument("config is required")),
        Some(input) => race_input_from_proto(input),
    }
}

/// The id of a race must not be blank.
pub fn require_race_id(race_id: &str) -> (r: Result<(), Status>)
    ensures
        text::trimmed(race_id@).len() > 0 ==> r == Ok::<(), Status>(()),
        text::trimmed(race_id@).len() == 0 ==> (r matches Err(e) && e@ == (
            Code::InvalidArgument,
            "race_id must be non-empty"@,
        )),
{
    let trimmed: String = text::trim(race_id);
    if trimmed.as_str().is_empty() {
        return Err(Status::invalid_argument("race_id must be non-empty"));
    }
    Ok(())
}

/// The text from which the id of a race is made.
pub open spec fn race_id_payload(
    config: RaceConfigInputRecord,
    preset_number: i32,
    expected_revision: u64,
    ts_ns: u128,
) -> Seq<char> {
    "expected_revision="@ + text::decimal(expected_revision as nat) + ";race_name="@
        + config.race_name@ + ";starts_at_ms="@ + text::signed_decimal(config.starts_at_ms as int)
        + ";race_duration_sec="@ + text::decimal(config.race_duration_sec as nat) + ";map_id="@
        + config.map_id@ + ";start_placement_mode="@ + text::signed_decimal(
        config.start_placement_mode.number as int,
    ) + ";time_of_day_preset="@ + text::signed_decimal(preset_number as int) + ";ts_ns="@
        + text::decimal(ts_ns as nat)
}

/// The text from which the id of a race is made. `preset_number` is the number of the
/// time of day on the wire.
pub fn build_race_id_payload(
    config: &RaceConfigInputRecord,
    preset_number: i32,
    expected_revision: u64,
    ts_ns: u128,
) -> (payload: String)
    ensures
        payload@ == race_id_payload(*config, preset_number, expected_revision, ts_ns),
{
    let mut payload: String = "expected_revision=".to_owned();
    text::push_decimal(&mut payload, expected_revision as u128);
    payload.append(";race_name=");
    payload.append(config.race_name.as_str());
    payload.append(";starts_at_ms=");
    text::push_signed_decimal(&mut payload, config.starts_at_ms);
    payload.append(";race_duration_sec=");
    text::push_decimal(&mut payload, config.race_duration_sec as u128);
    payload.append(";map_id=");
    payload.append(config.map_id.as_str());
    payload.append(";start_placement_mode=");
    text::push_signed_decimal(&mut payload, config.start_placement_mode.number as i64);
    payload.append(";time_of_day_preset=");
    text::push_signed_decimal(&mut payload, preset_number as i64);
    payload.append(";ts_ns=");
    text::push_decimal(&mut payload, ts_ns);
    payload
}

/// The id of a new race: it is made of the race itself and of the time.
pub fn race_id_v5(
    config: &RaceConfigInputRecord,
    preset_number: i32,
    expected_revision: u64,
    ts_ns: u128,
) -> (r: String)
    ensures
        r@ == oid_uuid(race_id_payload(*config, preset_number, expected_revision, ts_ns)),
{
    let payload: String = build_race_id_payload(config, preset_number, expected_revision, ts_ns);
    uuid_v5(payload.as_str())
}

/// `i` is the first race with the id.
pub open spec fn is_first_race(races: Seq<RaceConfigRecord>, id: Seq<char>, i: int) -> bool {
    &&& 0 <= i < races.len()
    &&& races[i].race_id@ == id
    &&& forall|j: int| 0 <= j < i ==> (#[trigger] races[j]).race_id@ != id
}

pub open spec fn has_race(races: Seq<RaceConfigRecord>, id: Seq<char>) -> bool {
    exists|i: int| 0 <= i < races.len() && (#[trigger] races[i]).race_id@ == id
}

fn find_race(races: &Vec<RaceConfigRecord>, id: &str) -> (r: Option<usize>)
    ensures
        match r {
            Some(i) => is_first_race(races@, id@, i as int),
            None => !has_race(races@, id@),
        },
{
    let mut i: usize = 0;
    while i < races.len()
        invariant
            i <= races@.len(),
            forall|j: int| 0 <= j < i ==> (#[trigger] races@[j]).race_id@ != id@,
        decreases races@.len() - i,
    {
        if text::str_eq(races[i].race_id.as_str(), id) {
            return Some(i);
        }
        i += 1;
    }
    None
}

fn race_not_found(race_id: &str) -> (r: Status)
    ensures
        r@ == (Code::NotFound, "race config not found: "@ + race_id@),
{
    Status::with_message(Code::NotFound, text::join2("race config not found: ", race_id))
}

/// The schedule with a new race, by start; it is yet to be validated.
pub fn plan_create(
    expected_revision: u64,
    current_revision: u64,
    races: Vec<RaceConfigRecord>,
    race: RaceConfigRecord,
) -> (r: Result<Vec<RaceConfigRecord>, Status>)
    ensures
        expected_revision != current_revision ==> (r matches Err(e) && e@ == revision_mismatch(
            expected_revision,
            current_revision,
        )),
        expected_revision == current_revision ==> (r matches Ok(candidate) && candidate@ == ranked(
            races@.push(race),
        )),
{
    match ensure_expected_revision(expected_revision, current_revision) {
        Err(e) => Err(e),
        Ok(()) => {
            let mut candidate: Vec<RaceConfigRecord> = races;
            candidate.push(race);
            Ok(sort_by_start_time(candidate))
        },
    }
}

/// A change of a race: the schedule with it, by start, and when the race started
/// before.
#[derive(Debug)]
pub struct RaceUpdate {
    pub candidate: Vec<RaceConfigRecord>,
    pub previous_starts_at_ms: i64,
}

/// The schedule in which the first race with the id has another configuration.
pub fn plan_update(
    expected_revision: u64,
    current_revision: u64,
    races: Vec<RaceConfigRecord>,
    race_id: &str,
    config: RaceConfigInputRecord,
) -> (r: Result<RaceUpdate, Status>)
    ensures
        if expected_revision != current_revision {
            r matches Err(e) && e@ == revision_mismatch(expected_revision, current_revision)
        } else if !has_race(races@, race_id@) {
            r matches Err(e) && e@ == (Code::NotFound, "race config not found: "@ + race_id@)
        } else {
            r matches Ok(update) && exists|i: int| #[trigger]
                is_first_race(races@, race_id@, i) && update.previous_starts_at_ms
                    == races@[i].config.starts_at_ms && update.candidate@ == ranked(
                    races@.update(i, RaceConfigRecord { race_id: races@[i].race_id, config }),
                )
        },
{
    match ensure_expected_revision(expected_revision, current_revision) {
        Err(e) => {
            return Err(e);
        },
        Ok(()) => {},
    }
    match find_race(&races, race_id) {
        None => Err(race_not_found(race_id)),
        Some(i) => {
            let ghost before = races@;
            let mut candidate: Vec<RaceConfigRecord> = races;
            let previous_starts_at_ms: i64 = candidate[i].config.starts_at_ms;
            candidate[i].config = config;
            proof {
                assert(candidate@ =~= before.update(
                    i as int,
                    RaceConfigRecord { race_id: before[i as int].race_id, config },
                ));
            }
            Ok(
                RaceUpdate { candidate: sort_by_start_time(candidate), previous_starts_at_ms },
            )
        },
    }
}

/// When the race that is to be deleted starts.
pub fn plan_delete(
    expected_revision: u64,
    current_revision: u64,
    races: &Vec<RaceConfigRecord>,
    race_id: &str,
) -> (r: Result<i64, Status>)
    ensures
        if expected_revision != current_revision {
            r matches Err(e) && e@ == revision_mismatch(expected_revision, current_revision)
        } else if !has_race(races@, race_id@) {
            r matches Err(e) && e@ == (Code::NotFound, "race config not found: "@ + race_id@)
        } else {
            r matches Ok(starts_at_ms) && exists|i: int| #[trigger]
                is_first_race(races@, race_id@, i) && starts_at_ms == races@[i].config.starts_at_ms
        },
{
    match ensure_expected_revision(expected_revision, current_revision) {
        Err(e) => {
            return Err(e);
        },
        Ok(()) => {},
    }
    match find_race(races, race_id) {
        None => Err(race_not_found(race_id)),
        Some(i) => Ok(races[i].config.starts_at_ms),
    }
}

/// Only what the caller got wrong is the caller's fault: an old revision, an id that is
/// taken or unknown, and values that stand for nothing each have their code; whatever else
/// the storage refuses is internal.
pub proof fn refusals_have_their_codes(failure: RaceConfigRepoFailure)
    ensures
        (repo_failure_code(failure) == Code::FailedPrecondition) == (failure is RevisionMismatch),
        (repo_failure_code(failure) == Code::AlreadyExists) == (failure is AlreadyExists),
        (repo_failure_code(failure) == Code::NotFound) == (failure is NotFound),
        (repo_failure_code(failure) == Code::InvalidArgument) == (failure
            is InvalidStartPlacementMode || failure is InvalidTimeOfDayPreset),
        (repo_failure_code(failure) == Code::Internal) == (failure is Database || failure
            is StateMissing || failure is NumericOutOfRange || failure is RevisionOverflow),
{
}

/// An old revision is a failed precondition and is told, with the current one.
pub proof fn old_revision_is_told(expected: u64, current: u64)
    ensures
        revision_mismatch(expected, current).0 == Code::FailedPrecondition,
        revision_mismatch(expected, current).1 == "race config revision mismatch: expected "@
            + text::decimal(expected as nat) + ", actual "@ + text::decimal(current as nat),
{
}

/// There is a race with the id exactly where there is a first one, and there is only one
/// such.
pub proof fn first_race_is_one(races: Seq<RaceConfigRecord>, id: Seq<char>, i: int, j: int)
    ensures
        is_first_race(races, id, i) && is_first_race(races, id, j) ==> i == j,
        is_first_race(races, id, i) ==> 0 <= i < races.len() && races[i].race_id@ == id
            && has_race(races, id),
        0 <= j < races.len() && races[j].race_id@ == id ==> has_race(races, id),
        0 <= j < races.len() && races[j].race_id@ == id && is_first_race(races, id, i) ==> i <= j,
{
}

/// A schedule that a race is added to holds that race and all that it held, by start.
pub proof fn added_race_stands_in_the_schedule(races: Seq<RaceConfigRecord>, race: RaceConfigRecord)
    ensures
        ranked(races.push(race)).to_multiset() == races.to_multiset().insert(race),
        ranked(races.push(race)).len() == races.len() + 1,
{
    broadcast use vstd::seq_lib::group_to_multiset_ensures;

    races_stand_by_start(races.push(race));
}

/// A schedule in which a race is changed holds the changed one in its place, under its id,
/// and all the others as they were.
pub proof fn changed_race_takes_the_old_ones_place(
    races: Seq<RaceConfigRecord>,
    i: int,
    config: RaceConfigInputRecord,
)
    requires
        0 <= i < races.len(),
    ensures
        ({
            let changed = RaceConfigRecord { race_id: races[i].race_id, config };
            let candidate = ranked(races.update(i, changed));
            &&& candidate.len() == races.len()
            &&& candidate.to_multiset() == races.to_multiset().remove(races[i]).insert(changed)
        }),
{
    broadcast use vstd::seq_lib::group_to_multiset_ensures;

    let changed = RaceConfigRecord { race_id: races[i].race_id, config };
    races_stand_by_start(races.update(i, changed));
    vstd::seq_lib::to_multiset_update(races, i, changed);
}

/// The text from which the id of a race is made ends in its time: what is configured at
/// another time, and else in the same way, has another text.
pub proof fn races_of_different_times_are_told_apart(
    config: RaceConfigInputRecord,
    preset_number: i32,
    expected_revision: u64,
    a: u128,
    b: u128,
)
    ensures
        race_id_payload(config, preset_number, expected_revision, a) == race_id_payload(
            config,
            preset_number,
            expected_revision,
            b,
        ) ==> a == b,
{
    let x = race_id_payload(config, preset_number, expected_revision, a);
    let y = race_id_payload(config, preset_number, expected_revision, b);
    let u = text::decimal(a as nat);
    let v = text::decimal(b as nat);
    if x == y {
        let n = x.len() - u.len();
        assert(n == y.len() - v.len() || u.len() != v.len());
        assert(x.skip(n) =~= u);
        assert(y.skip(y.len() - v.len()) =~= v);
        text::numerals_are_read_back(a as nat);
        text::numerals_are_read_back(b as nat);
    }
}

} // verus!
