//! The configuration of a race, on the wire, in storage and in the schedule.

use vstd::prelude::*;
use crate::participant::roster::RaceTimeOfDayPreset;
use crate::sorting::{ranked, ranked_is_sorted_permutation, sort_ranked, Ranked};
use crate::status::{Code, Status};
use crate::text;
use crate::timestamp::{
    ms_to_timestamp, timestamp_fault, timestamp_ms, timestamp_of, timestamp_to_ms, Timestamp,
};

verus! {

/// How cars are placed at the start: a mode that is known, by its number on the wire.
#[derive(Clone, Copy, PartialEq, Eq, Debug, Structural)]
pub struct StartPlacementMode {
    pub number: i32,
}

/// A race as it is on the wire. A mode or preset is missing where its number stands
/// for none.
#[derive(Debug)]
pub struct RaceConfigInput {
    pub race_name: String,
    pub start_time_utc: Option<Timestamp>,
    pub race_duration_sec: u32,
    pub map_id: String,
    pub start_placement_mode: Option<StartPlacementMode>,
    pub points_multiplier_fixed: i64,
    pub time_of_day_preset: Option<RaceTimeOfDayPreset>,
}

/// A race with its id, as it is on the wire.
#[derive(Debug)]
pub struct RaceConfig {
    pub race_id: String,
    pub config: Option<RaceConfigInput>,
}

/// A race as it is stored.
#[derive(Debug)]
pub struct RaceConfigInputRecord {
    pub race_name: String,
    pub starts_at_ms: i64,
    pub race_duration_sec: u32,
    pub map_id: String,
    pub start_placement_mode: StartPlacementMode,
    pub points_multiplier_fixed: i64,
    pub time_of_day_preset: RaceTimeOfDayPreset,
}

impl Clone for RaceConfigInputRecord {
    fn clone(&self) -> (r: Self)
        ensures
            r == *self,
    {
        RaceConfigInputRecord {
            race_name: self.race_name.clone(),
            starts_at_ms: self.starts_at_ms,
            race_duration_sec: self.race_duration_sec,
            map_id: self.map_id.clone(),
            start_placement_mode: self.start_placement_mode,
            points_multiplier_fixed: self.points_multiplier_fixed,
            time_of_day_preset: self.time_of_day_preset,
        }
    }
}

/// A race with its id, as it is stored.
#[derive(Debug)]
pub struct RaceConfigRecord {
    pub race_id: String,
    pub config: RaceConfigInputRecord,
}

impl Clone for RaceConfigRecord {
    fn clone(&self) -> (r: Self)
        ensures
            r == *self,
    {
        RaceConfigRecord { race_id: self.race_id.clone(), config: self.config.clone() }
    }
}

/// The stored race on the wire.
pub open spec fn input_on_wire(record: RaceConfigInputRecord) -> RaceConfigInput {
    RaceConfigInput {
        race_name: record.race_name,
        start_time_utc: Some(timestamp_of(record.starts_at_ms as int)),
        race_duration_sec: record.race_duration_sec,
        map_id: record.map_id,
        start_placement_mode: Some(record.start_placement_mode),
        points_multiplier_fixed: record.points_multiplier_fixed,
        time_of_day_preset: Some(record.time_of_day_preset),
    }
}

pub fn race_input_to_proto(input: RaceConfigInputRecord) -> (r: RaceConfigInput)
    ensures
        r == input_on_wire(input),
        r.race_name == input.race_name,
        r.race_duration_sec == input.race_duration_sec,
        r.map_id == input.map_id,
        r.start_placement_mode == Some(input.start_placement_mode),
        r.points_multiplier_fixed == input.points_multiplier_fixed,
        r.time_of_day_preset == Some(input.time_of_day_preset),
{
    RaceConfigInput {
        race_name: input.race_name,
        start_time_utc: Some(ms_to_timestamp(input.starts_at_ms)),
        race_duration_sec: input.race_duration_sec,
        map_id: input.map_id,
        start_placement_mode: Some(input.start_placement_mode),
        points_multiplier_fixed: input.points_multiplier_fixed,
        time_of_day_preset: Some(input.time_of_day_preset),
    }
}

pub fn race_to_proto(entry: RaceConfigRecord) -> (r: RaceConfig)
    ensures
        r.race_id == entry.race_id,
        r.config == Some(input_on_wire(entry.config)),
{
    RaceConfig { race_id: entry.race_id, config: Some(race_input_to_proto(entry.config)) }
}

/// Why a race on the wire cannot be stored; the first fault counts.
pub open spec fn input_fault(input: RaceConfigInput) -> Option<(Code, Seq<char>)> {
    match input.start_time_utc {
        None => Some((Code::InvalidArgument, "input.start_time_utc is required"@)),
        Some(t) => if input.start_placement_mode is None {
            Some((Code::InvalidArgument, "invalid start_placement_mode"@))
        } else if input.time_of_day_preset is None {
            Some((Code::InvalidArgument, "invalid time_of_day_preset"@))
        } else if input.race_duration_sec == 0 {
            Some((Code::InvalidArgument, "input.race_duration_sec must be greater than 0"@))
        } else {
            timestamp_fault(t)
        },
    }
}

/// The record of a race on the wire.
pub open spec fn is_record_of(record: RaceConfigInputRecord, input: RaceConfigInput) -> bool {
    &&& record.race_name@ == input.race_name@
    &&& input.start_time_utc is Some && record.starts_at_ms == timestamp_ms(
        input.start_time_utc->Some_0,
    )
    &&& record.race_duration_sec == input.race_duration_sec
    &&& record.map_id@ == input.map_id@
    &&& Some(record.start_placement_mode) == input.start_placement_mode
    &&& record.points_multiplier_fixed == input.points_multiplier_fixed
    &&& Some(record.time_of_day_preset) == input.time_of_day_preset
}

pub fn race_input_from_proto(input: &RaceConfigInput) -> (r: Result<RaceConfigInputRecord, Status>)
    ensures
        match input_fault(*input) {
            Some(fault) => r matches Err(e) && e@ == fault,
            None => r matches Ok(record) && is_record_of(record, *input),
        },
        r matches Ok(record) ==> {
            &&& record.race_name@ == input.race_name@
            &&& record.race_duration_sec == input.race_duration_sec
            &&& record.map_id@ == input.map_id@
            &&& input.start_placement_mode == Some(record.start_placement_mode)
            &&& record.points_multiplier_fixed == input.points_multiplier_fixed
            &&& input.time_of_day_preset == Some(record.time_of_day_preset)
        },
{
    let start_time: Timestamp = match input.start_time_utc {
        Some(t) => t,
        None => return Err(Status::invalid_argument("input.start_time_utc is required")),
    };
    let start_placement_mode: StartPlacementMode = match input.start_placement_mode {
        Some(mode) => mode,
        None => return Err(Status::invalid_argument("invalid start_placement_mode")),
    };
    let time_of_day_preset: RaceTimeOfDayPreset = match input.time_of_day_preset {
        Some(preset) => preset,
        None => return Err(Status::invalid_argument("invalid time_of_day_preset")),
    };
    if input.race_duration_sec == 0 {
        return Err(Status::invalid_argument("input.race_duration_sec must be greater than 0"));
    }
    match timestamp_to_ms(&start_time) {
        Err(e) => Err(e),
        Ok(starts_at_ms) => Ok(
            RaceConfigInputRecord {
                race_name: input.race_name.clone(),
                starts_at_ms,
                race_duration_sec: input.race_duration_sec,
                map_id: input.map_id.clone(),
                start_placement_mode,
                points_multiplier_fixed: input.points_multiplier_fixed,
                time_of_day_preset,
            },
        ),
    }
}

/// A stored race comes back from the wire as it is stored, unless it has no duration
/// or starts before the earliest time that a timestamp can be read back from.
pub proof fn stored_race_round_trip(record: RaceConfigInputRecord)
    requires
        record.race_duration_sec > 0,
        record.starts_at_ms >= -9_223_372_036_854_775_000,
    ensures
        input_fault(input_on_wire(record)) is None,
        is_record_of(record, input_on_wire(record)),
{
    crate::timestamp::ms_round_trip(record.starts_at_ms);
}

/// A race in the schedule: it has an end.
#[derive(Debug)]
pub struct ScheduleEntry {
    pub race_id: String,
    pub config: ScheduledRace,
}

/// The configuration of a race that has an end.
#[derive(Debug)]
pub struct ScheduledRace {
    pub race_name: String,
    pub starts_at_ms: i64,
    pub ends_at_ms: i64,
    pub map_id: String,
    pub start_placement_mode: StartPlacementMode,
    pub points_multiplier_fixed: i64,
    pub time_of_day_preset: RaceTimeOfDayPreset,
}

/// When a race ends, as a mathematical integer.
pub open spec fn end_of(config: RaceConfigInputRecord) -> int {
    config.starts_at_ms + config.race_duration_sec * 1000
}

/// The entry of a race in the schedule.
pub open spec fn is_entry_of(entry: ScheduleEntry, record: RaceConfigRecord) -> bool {
    &&& entry.race_id == record.race_id
    &&& entry.config.race_name == record.config.race_name
    &&& entry.config.starts_at_ms == record.config.starts_at_ms
    &&& entry.config.ends_at_ms == end_of(record.config)
    &&& entry.config.map_id == record.config.map_id
    &&& entry.config.start_placement_mode == record.config.start_placement_mode
    &&& entry.config.points_multiplier_fixed == record.config.points_multiplier_fixed
    &&& entry.config.time_of_day_preset == record.config.time_of_day_preset
}

pub fn ends_at_ms(starts_at_ms: i64, race_duration_sec: u32) -> (r: Result<i64, Status>)
    ensures
        starts_at_ms + race_duration_sec * 1000 <= i64::MAX ==> (r matches Ok(end) && end
            == starts_at_ms + race_duration_sec * 1000),
        starts_at_ms + race_duration_sec * 1000 > i64::MAX ==> (r matches Err(e) && e@ == (
            Code::OutOfRange,
            "race end time overflow"@,
        )),
{
    let end: i128 = starts_at_ms as i128 + race_duration_sec as i128 * 1000;
    if end > i64::MAX as i128 {
        return Err(Status::out_of_range("race end time overflow"));
    }
    Ok(end as i64)
}

pub fn repo_schedule_entry_to_domain(entry: &RaceConfigRecord) -> (r: Result<ScheduleEntry, Status>)
    ensures
        end_of(entry.config) <= i64::MAX ==> (r matches Ok(e) && is_entry_of(e, *entry)),
        r matches Ok(e) ==> {
            &&& e.race_id == entry.race_id
            &&& e.config.race_name == entry.config.race_name
            &&& e.config.starts_at_ms == entry.config.starts_at_ms
            &&& e.config.ends_at_ms - e.config.starts_at_ms == entry.config.race_duration_sec * 1000
            &&& e.config.map_id == entry.config.map_id
            &&& e.config.start_placement_mode == entry.config.start_placement_mode
            &&& e.config.points_multiplier_fixed == entry.config.points_multiplier_fixed
            &&& e.config.time_of_day_preset == entry.config.time_of_day_preset
        },
        end_of(entry.config) > i64::MAX ==> (r matches Err(e) && e@ == (
            Code::OutOfRange,
            "race end time overflow"@,
        )),
{
    match ends_at_ms(entry.config.starts_at_ms, entry.config.race_duration_sec) {
        Err(e) => Err(e),
        Ok(end) => Ok(
            ScheduleEntry {
                race_id: entry.race_id.clone(),
                config: ScheduledRace {
                    race_name: entry.config.race_name.clone(),
                    starts_at_ms: entry.config.starts_at_ms,
                    ends_at_ms: end,
                    map_id: entry.config.map_id.clone(),
                    start_placement_mode: entry.config.start_placement_mode,
                    points_multiplier_fixed: entry.config.points_multiplier_fixed,
                    time_of_day_preset: entry.config.time_of_day_preset,
                },
            },
        ),
    }
}

/// Every race has an end that a time can hold.
pub open spec fn ends_fit(entries: Seq<RaceConfigRecord>) -> bool {
    forall|i: int| 0 <= i < entries.len() ==> end_of((#[trigger] entries[i]).config) <= i64::MAX
}

/// The schedule of stored races, in their order.
pub fn repo_schedule_to_domain(entries: &Vec<RaceConfigRecord>) -> (r: Result<
    Vec<ScheduleEntry>,
    Status,
>)
    ensures
        ends_fit(entries@) ==> (r matches Ok(v) && v@.len() == entries@.len() && forall|i: int|
            0 <= i < v@.len() ==> is_entry_of(#[trigger] v@[i], entries@[i])),
        !ends_fit(entries@) ==> (r matches Err(e) && e@ == (
            Code::OutOfRange,
            "race end time overflow"@,
        )),
{
    let mut v: Vec<ScheduleEntry> = Vec::new();
    let mut n: usize = 0;
    while n < entries.len()
        invariant
            n <= entries@.len(),
            v@.len() == n,
            forall|i: int| 0 <= i < n ==> is_entry_of(#[trigger] v@[i], entries@[i]),
            forall|i: int|
                0 <= i < n ==> end_of((#[trigger] entries@[i]).config) <= i64::MAX,
        decreases entries@.len() - n,
    {
        match repo_schedule_entry_to_domain(&entries[n]) {
            Ok(entry) => {
                v.push(entry);
            },
            Err(e) => {
                proof {
                    assert(end_of(entries@[n as int].config) > i64::MAX);
                }
                return Err(e);
            },
        }
        n += 1;
    }
    Ok(v)
}

impl Ranked for RaceConfigRecord {
    /// Earlier races come first, then the order of the ids decides.
    open spec fn ranks_before(&self, other: &Self) -> bool {
        self.config.starts_at_ms < other.config.starts_at_ms || (self.config.starts_at_ms
            == other.config.starts_at_ms && text::text_before(self.race_id@, other.race_id@))
    }

    fn is_before(&self, other: &Self) -> (r: bool) {
        self.config.starts_at_ms < other.config.starts_at_ms || (self.config.starts_at_ms
            == other.config.starts_at_ms && text::is_text_before(
            self.race_id.as_str(),
            other.race_id.as_str(),
        ))
    }

    proof fn rank_is_asymmetric(a: &Self, b: &Self) {
        text::text_order_is_total(a.race_id@, b.race_id@);
    }

    proof fn rank_is_transitive(a: &Self, b: &Self, c: &Self) {
        text::text_order_is_total(a.race_id@, b.race_id@);
        text::text_order_is_total(b.race_id@, c.race_id@);
        text::text_order_is_total(a.race_id@, c.race_id@);
        if text::text_before(c.race_id@, a.race_id@) && text::text_before(a.race_id@, b.race_id@) {
            text::text_order_is_transitive(c.race_id@, a.race_id@, b.race_id@);
        }
    }
}

/// Sorts races by their start.
pub fn sort_by_start_time(entries: Vec<RaceConfigRecord>) -> (r: Vec<RaceConfigRecord>)
    ensures
        r@ == ranked(entries@),
        r@.len() == entries@.len(),
        r@.to_multiset() == entries@.to_multiset(),
        forall|i: int, j: int|
            #![trigger r@[i], r@[j]]
            0 <= i < j < r@.len() ==> r@[i].config.starts_at_ms <= r@[j].config.starts_at_ms && (
            r@[i].config.starts_at_ms == r@[j].config.starts_at_ms ==> !text::text_before(
                r@[j].race_id@,
                r@[i].race_id@,
            )),
{
    proof {
        races_stand_by_start(entries@);
    }
    sort_ranked(entries)
}

/// Sorted, no race stands behind one that starts later, and of two that start together none
/// stands behind one whose id comes after its own. No race is added or left out.
pub proof fn races_stand_by_start(races: Seq<RaceConfigRecord>)
    ensures
        ranked(races).len() == races.len(),
        ranked(races).to_multiset() == races.to_multiset(),
        forall|i: int, j: int|
            #![trigger ranked(races)[i], ranked(races)[j]]
            0 <= i < j < races.len() ==> ranked(races)[i].config.starts_at_ms
                <= ranked(races)[j].config.starts_at_ms && (ranked(races)[i].config.starts_at_ms
                == ranked(races)[j].config.starts_at_ms ==> !text::text_before(
                ranked(races)[j].race_id@,
                ranked(races)[i].race_id@,
            )),
{
    ranked_is_sorted_permutation(races);
    let r = ranked(races);
    assert forall|i: int, j: int|
        #![trigger r[i], r[j]]
        0 <= i < j < races.len() implies r[i].config.starts_at_ms <= r[j].config.starts_at_ms && (
    r[i].config.starts_at_ms == r[j].config.starts_at_ms ==> !text::text_before(
        r[j].race_id@,
        r[i].race_id@,
    )) by {
        assert(!r[j].ranks_before(&r[i]));
    }
}

/// A race is shown on the wire as it is stored, its start as whole seconds and the
/// milliseconds beyond them.
pub proof fn stored_race_is_shown_as_it_is(record: RaceConfigInputRecord)
    ensures
        input_on_wire(record).race_name == record.race_name,
        input_on_wire(record).race_duration_sec == record.race_duration_sec,
        input_on_wire(record).map_id == record.map_id,
        input_on_wire(record).start_placement_mode == Some(record.start_placement_mode),
        input_on_wire(record).points_multiplier_fixed == record.points_multiplier_fixed,
        input_on_wire(record).time_of_day_preset == Some(record.time_of_day_preset),
        input_on_wire(record).start_time_utc matches Some(t) && t.seconds * 1000 + t.nanos
            / 1_000_000 == record.starts_at_ms,
{
}

/// A race is taken from the wire exactly where it has a start that can be read, a placement
/// and a time of day that stand for something, and lasts.
pub proof fn races_in_order_are_taken(input: RaceConfigInput)
    ensures
        input_fault(input) is None <==> {
            &&& input.start_time_utc matches Some(t) && timestamp_fault(t) is None
            &&& input.start_placement_mode is Some
            &&& input.time_of_day_preset is Some
            &&& input.race_duration_sec > 0
        },
{
}

/// A race in the schedule lasts from its start to its end, a thousand milliseconds for each
/// of its seconds, and is otherwise as it is stored.
pub proof fn scheduled_race_lasts_its_duration(entry: ScheduleEntry, record: RaceConfigRecord)
    requires
        is_entry_of(entry, record),
    ensures
        entry.race_id == record.race_id,
        entry.config.race_name == record.config.race_name,
        entry.config.starts_at_ms == record.config.starts_at_ms,
        entry.config.ends_at_ms - entry.config.starts_at_ms == record.config.race_duration_sec
            * 1000,
        entry.config.map_id == record.config.map_id,
        entry.config.start_placement_mode == record.config.start_placement_mode,
        entry.config.points_multiplier_fixed == record.config.points_multiplier_fixed,
        entry.config.time_of_day_preset == record.config.time_of_day_preset,
        end_of(record.config) == record.config.starts_at_ms + record.config.race_duration_sec
            * 1000,
{
}

/// A schedule fits exactly where each of its races ends within the range of a time.
pub proof fn schedule_fits_where_every_race_does(entries: Seq<RaceConfigRecord>)
    ensures
        ends_fit(entries) <==> forall|i: int|
            #![trigger entries[i]]
            0 <= i < entries.len() ==> entries[i].config.starts_at_ms
                + entries[i].config.race_duration_sec * 1000 <= i64::MAX,
{
}

/// Of several faults of a race the first is told: its start is missing, its placement or its
/// time of day stands for nothing, it does not last, or its start cannot be read.
pub proof fn first_input_fault_is_told(input: RaceConfigInput)
    ensures
        ({
            let invalid = Code::InvalidArgument;
            let started = input.start_time_utc is Some;
            let placed = input.start_placement_mode is Some;
            let timed = input.time_of_day_preset is Some;
            &&& !started ==> input_fault(input) == Some(
                (invalid, "input.start_time_utc is required"@),
            )
            &&& started && !placed ==> input_fault(input) == Some(
                (invalid, "invalid start_placement_mode"@),
            )
            &&& started && placed && !timed ==> input_fault(input) == Some(
                (invalid, "invalid time_of_day_preset"@),
            )
            &&& started && placed && timed && input.race_duration_sec == 0 ==> input_fault(input)
                == Some((invalid, "input.race_duration_sec must be greater than 0"@))
            &&& started && placed && timed && input.race_duration_sec > 0 ==> input_fault(input)
                == timestamp_fault(input.start_time_utc->Some_0)
        }),
{
}

} // verus!
