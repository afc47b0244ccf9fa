//! The results of an official race, as they are recorded while it runs.

use vstd::prelude::*;
use crate::engine::TargetView;
use crate::float_bits::F32Bits;
use crate::participant::launch::{EntryView, OfficialRaceTeamResultEntry};
use crate::participant::logs::{replace_unsafe_chars, storage_chars};
use crate::race::frame_hub::{RuntimeCarFrame, RuntimeFrame, VehicleRaceMetrics};
use crate::text;

verus! {

/// Snapshots of the results are written at most this often.
pub const SNAPSHOT_INTERVAL_MS: u64 = 1_000;

/// What the results file says of the race itself.
#[derive(Clone, Copy, PartialEq, Eq, Debug, Structural)]
pub enum ResultsStatus {
    Running,
    Finalized,
}

impl ResultsStatus {
    pub fn label(self) -> (r: &'static str)
        ensures
            r@ == match self {
                ResultsStatus::Running => "running"@,
                ResultsStatus::Finalized => "finalized"@,
            },
    {
        match self {
            ResultsStatus::Running => "running",
            ResultsStatus::Finalized => "finalized",
        }
    }
}

#[derive(Debug)]
pub struct OfficialRaceResultsFile {
    pub session_id: String,
    pub race_id: String,
    pub race_name: String,
    pub map_id: String,
    pub started_at_unix_ms: u64,
    pub finalized_at_unix_ms: Option<u64>,
    pub status: ResultsStatus,
    pub teams: Vec<OfficialRaceTeamResultEntry>,
}

/// What a frame says of a team's car. The distances are computed by the caller, as
/// is whether the car is more than a metre from where it was first seen.
#[derive(Clone, Copy, PartialEq, Eq, Debug, Structural)]
pub struct TeamReading {
    pub completed_laps: u32,
    pub lap_progress_m: F32Bits,
    pub total_distance_m: F32Bits,
    pub has_moved: bool,
    pub last_lap_time_ms: Option<u32>,
    pub best_lap_time_ms: Option<u32>,
}

/// A team's entry after a frame. Distances are shown once the car has started to
/// move. A lap time is noted when the number of completed laps has grown.
pub open spec fn entry_after(e: EntryView, r: TeamReading) -> EntryView {
    let started = e.has_started_moving || r.completed_laps > 0 || r.has_moved;
    let has_new_lap = r.completed_laps > e.last_recorded_completed_laps;
    EntryView {
        completed_laps: r.completed_laps,
        initial_lap_progress_m: match e.initial_lap_progress_m {
            Some(first) => Some(first),
            None => Some(r.lap_progress_m),
        },
        has_started_moving: started,
        current_lap_distance_m: if started {
            Some(r.lap_progress_m)
        } else {
            None
        },
        total_distance_m: if started {
            Some(r.total_distance_m)
        } else {
            None
        },
        last_lap_time_ms: r.last_lap_time_ms,
        best_lap_time_ms: r.best_lap_time_ms,
        lap_times_ms: match r.last_lap_time_ms {
            Some(time) => if has_new_lap {
                e.lap_times_ms.push(time)
            } else {
                e.lap_times_ms
            },
            None => e.lap_times_ms,
        },
        last_recorded_completed_laps: if has_new_lap {
            r.completed_laps
        } else {
            e.last_recorded_completed_laps
        },
        ..e
    }
}

/// Where the car was first seen on its lap; before it was, where it is now.
pub fn baseline_for(entry: &OfficialRaceTeamResultEntry, lap_progress_m: F32Bits) -> (r: F32Bits)
    ensures
        r == match entry.initial_lap_progress_m {
            Some(first) => first,
            None => lap_progress_m,
        },
{
    match entry.initial_lap_progress_m {
        Some(first) => first,
        None => lap_progress_m,
    }
}

fn update_entry(entry: &mut OfficialRaceTeamResultEntry, r: TeamReading)
    ensures
        final(entry)@ == entry_after(old(entry)@, r),
{
    entry.completed_laps = r.completed_laps;
    if entry.initial_lap_progress_m.is_none() {
        entry.initial_lap_progress_m = Some(r.lap_progress_m);
    }
    if r.completed_laps > 0 || r.has_moved {
        entry.has_started_moving = true;
    }
    if entry.has_started_moving {
        entry.current_lap_distance_m = Some(r.lap_progress_m);
        entry.total_distance_m = Some(r.total_distance_m);
    } else {
        entry.current_lap_distance_m = None;
        entry.total_distance_m = None;
    }
    entry.last_lap_time_ms = r.last_lap_time_ms;
    entry.best_lap_time_ms = r.best_lap_time_ms;
    if r.completed_laps > entry.last_recorded_completed_laps {
        match r.last_lap_time_ms {
            Some(time) => entry.lap_times_ms.push(time),
            None => {},
        }
        entry.last_recorded_completed_laps = r.completed_laps;
    }
}

/// A car that was seen moving stays one that has started, and the laps that count
/// as recorded do not go back.
pub proof fn records_only_grow(e: EntryView, r: TeamReading)
    ensures
        e.has_started_moving ==> entry_after(e, r).has_started_moving,
        entry_after(e, r).last_recorded_completed_laps >= e.last_recorded_completed_laps,
        e.lap_times_ms.is_prefix_of(entry_after(e, r).lap_times_ms),
{
}

/// No lap is timed twice: there are never more lap times than recorded laps.
pub proof fn no_lap_is_timed_twice(e: EntryView, r: TeamReading)
    requires
        e.lap_times_ms.len() <= e.last_recorded_completed_laps,
    ensures
        entry_after(e, r).lap_times_ms.len() <= entry_after(e, r).last_recorded_completed_laps,
{
}

/// The frame's car with the id, where it drives in the official race and has been
/// timed.
pub open spec fn is_timed_car<T>(car: RuntimeCarFrame<T>, car_id: u64) -> bool {
    &&& car.public_car_id == car_id
    &&& car.target@ == TargetView::OfficialRace
    &&& car.race_metrics is Some
}

/// How far a team's car has come, where the frame shows it in the official race.
pub fn find_race_metrics<T>(frame: &RuntimeFrame<T>, car_id: Option<u64>) -> (r: Option<
    VehicleRaceMetrics,
>)
    ensures
        match r {
            Some(metrics) => car_id is Some && exists|i: int|
                0 <= i < frame.cars@.len() && is_timed_car(
                    #[trigger] frame.cars@[i],
                    car_id->Some_0,
                ) && frame.cars@[i].race_metrics == Some(metrics),
            None => car_id is Some ==> forall|i: int|
                0 <= i < frame.cars@.len() ==> !is_timed_car(
                    #[trigger] frame.cars@[i],
                    car_id->Some_0,
                ),
        },
{
    let id: u64 = match car_id {
        Some(id) => id,
        None => return None,
    };
    let mut i: usize = 0;
    while i < frame.cars.len()
        invariant
            i <= frame.cars@.len(),
            car_id == Some(id),
            forall|j: int| 0 <= j < i ==> !is_timed_car(#[trigger] frame.cars@[j], id),
        decreases frame.cars@.len() - i,
    {
        if frame.cars[i].public_car_id == id && frame.cars[i].target.is_official_race() {
            match frame.cars[i].race_metrics {
                Some(metrics) => {
                    proof {
                        assert(is_timed_car(frame.cars@[i as int], id));
                    }
                    return Some(metrics);
                },
                None => {},
            }
        }
        i += 1;
    }
    None
}

/// The recorder of a race's results.
#[derive(Debug)]
pub struct OfficialRaceResultsRecorder {
    pub next_write_after_ms: u64,
    pub data: OfficialRaceResultsFile,
}

/// The id of the recording of a race that began at the time.
pub open spec fn session_id_of(now_ms: u64, race_id: Seq<char>) -> Seq<char> {
    text::decimal(now_ms as nat) + "_"@ + storage_chars(race_id)
}

impl OfficialRaceResultsRecorder {
    pub fn new(
        race_id: String,
        race_name: String,
        map_id: String,
        teams: Vec<OfficialRaceTeamResultEntry>,
        now_ms: u64,
    ) -> (r: Self)
        ensures
            r.next_write_after_ms == now_ms,
            r.data.session_id@ == session_id_of(now_ms, race_id@),
            r.data.race_id == race_id,
            r.data.race_name == race_name,
            r.data.map_id == map_id,
            r.data.started_at_unix_ms == now_ms,
            r.data.finalized_at_unix_ms is None,
            r.data.status == ResultsStatus::Running,
            r.data.teams == teams,
    {
        let mut session_id: String = String::new();
        text::push_decimal(&mut session_id, now_ms as u128);
        proof {
            assert(Seq::<char>::empty() + text::decimal(now_ms as nat) =~= text::decimal(
                now_ms as nat,
            ));
        }
        session_id.append("_");
        let safe: String = replace_unsafe_chars(race_id.as_str());
        session_id.append(safe.as_str());
        OfficialRaceResultsRecorder {
            next_write_after_ms: now_ms,
            data: OfficialRaceResultsFile {
                session_id,
                race_id,
                race_name,
                map_id,
                started_at_unix_ms: now_ms,
                finalized_at_unix_ms: None,
                status: ResultsStatus::Running,
                teams,
            },
        }
    }

    /// The name of the file that holds this race's results.
    pub fn session_file_name(&self) -> (r: String)
        ensures
            r@ == self.data.session_id@ + ".json"@,
    {
        text::join2(self.data.session_id.as_str(), ".json")
    }

    /// Takes over what a frame says of the teams' cars: `readings` has one place
    /// for each team, which is empty where the frame does not show the car.
    pub fn refresh_from_runtime(&mut self, readings: &Vec<Option<TeamReading>>)
        requires
            readings@.len() == old(self).data.teams@.len(),
        ensures
            final(self).data.teams@.len() == old(self).data.teams@.len(),
            forall|i: int|
                0 <= i < readings@.len() ==> (#[trigger] final(self).data.teams@[i])@
                    == match readings@[i] {
                    Some(reading) => entry_after(old(self).data.teams@[i]@, reading),
                    None => old(self).data.teams@[i]@,
                },
            final(self).next_write_after_ms == old(self).next_write_after_ms,
            final(self).data == (OfficialRaceResultsFile {
                teams: final(self).data.teams,
                ..old(self).data
            }),
    {
        let ghost before = self.data.teams@;
        let ghost data = self.data;
        let ghost due = self.next_write_after_ms;
        let mut i: usize = 0;
        while i < readings.len()
            invariant
                i <= readings@.len(),
                readings@.len() == before.len(),
                self.data.teams@.len() == before.len(),
                self.next_write_after_ms == due,
                self.data == (OfficialRaceResultsFile { teams: self.data.teams, ..data }),
                forall|k: int|
                    0 <= k < i ==> (#[trigger] self.data.teams@[k])@ == match readings@[k] {
                        Some(reading) => entry_after(before[k]@, reading),
                        None => before[k]@,
                    },
                forall|k: int| i <= k < before.len() ==> #[trigger] self.data.teams@[k] == before[k],
            decreases readings@.len() - i,
        {
            match readings[i] {
                Some(reading) => {
                    update_entry(&mut self.data.teams[i], reading);
                },
                None => {},
            }
            i += 1;
        }
    }

    /// Whether a snapshot is to be written now; if so, the next one is due a second
    /// later.
    pub fn take_write(&mut self, now_ms: u64) -> (due: bool)
        ensures
            due == (now_ms >= old(self).next_write_after_ms),
            final(self).data == old(self).data,
            final(self).next_write_after_ms == if !due {
                old(self).next_write_after_ms
            } else if now_ms > u64::MAX - SNAPSHOT_INTERVAL_MS {
                u64::MAX
            } else {
                (now_ms + SNAPSHOT_INTERVAL_MS) as u64
            },
    {
        if now_ms < self.next_write_after_ms {
            return false;
        }
        self.next_write_after_ms = now_ms.saturating_add(SNAPSHOT_INTERVAL_MS);
        true
    }

    /// The race is over; a last snapshot is to be written.
    pub fn finalize(&mut self, now_ms: u64)
        ensures
            final(self).next_write_after_ms == old(self).next_write_after_ms,
            final(self).data == (OfficialRaceResultsFile {
                status: ResultsStatus::Finalized,
                finalized_at_unix_ms: Some(now_ms),
                ..old(self).data
            }),
    {
        self.data.status = ResultsStatus::Finalized;
        self.data.finalized_at_unix_ms = Some(now_ms);
    }
}

/// What a frame adds to a team's results. When the number of completed laps has grown past
/// what was recorded and the frame has the time of the last lap, exactly that time is added
/// at the end; else no time is added. The last and the best lap are those of the frame.
/// Nothing that the launch has written changes.
pub proof fn completed_lap_is_timed(e: EntryView, r: TeamReading)
    ensures
        ({
            let after = entry_after(e, r);
            &&& r.completed_laps > e.last_recorded_completed_laps && r.last_lap_time_ms is Some ==> {
                &&& after.lap_times_ms.len() == e.lap_times_ms.len() + 1
                &&& after.lap_times_ms.last() == r.last_lap_time_ms->Some_0
                &&& after.lap_times_ms.drop_last() == e.lap_times_ms
            }
            &&& r.completed_laps <= e.last_recorded_completed_laps || r.last_lap_time_ms is None
                ==> after.lap_times_ms == e.lap_times_ms
            &&& after.completed_laps == r.completed_laps
            &&& after.last_lap_time_ms == r.last_lap_time_ms
            &&& after.best_lap_time_ms == r.best_lap_time_ms
            &&& after.last_recorded_completed_laps >= r.completed_laps
            &&& after.last_recorded_completed_laps == r.completed_laps
                || after.last_recorded_completed_laps == e.last_recorded_completed_laps
            &&& after.team_id == e.team_id
            &&& after.roster_index == e.roster_index
            &&& after.start_status == e.start_status
            &&& after.slot_index == e.slot_index
            &&& after.submission_id == e.submission_id
            &&& after.car_id == e.car_id
            &&& after.container_id == e.container_id
        }),
{
    let after = entry_after(e, r);
    if r.completed_laps > e.last_recorded_completed_laps && r.last_lap_time_ms is Some {
        assert(after.lap_times_ms.drop_last() =~= e.lap_times_ms);
    }
}

/// A car has started once it was seen away from where it was first seen or over a lap, and
/// from then on; its distances are those of the frame, and shown exactly then. Where it was
/// first seen is never forgotten.
pub proof fn distances_are_shown_of_cars_that_have_started(e: EntryView, r: TeamReading)
    ensures
        ({
            let after = entry_after(e, r);
            &&& after.has_started_moving <==> e.has_started_moving || r.completed_laps >= 1
                || r.has_moved
            &&& after.has_started_moving ==> after.current_lap_distance_m == Some(
                r.lap_progress_m,
            ) && after.total_distance_m == Some(r.total_distance_m)
            &&& !after.has_started_moving ==> after.current_lap_distance_m is None
                && after.total_distance_m is None
            &&& e.initial_lap_progress_m is Some ==> after.initial_lap_progress_m
                == e.initial_lap_progress_m
            &&& e.initial_lap_progress_m is None ==> after.initial_lap_progress_m == Some(
                r.lap_progress_m,
            )
        }),
{
}

/// A team's entry after the frames, one after the other.
pub open spec fn entry_after_all(e: EntryView, readings: Seq<TeamReading>) -> EntryView
    decreases readings.len(),
{
    if readings.len() == 0 {
        e
    } else {
        entry_after(entry_after_all(e, readings.drop_last()), readings.last())
    }
}

/// A car that is seen at the end of each of its laps has each lap's own time on record, in
/// the order in which they were driven.
pub proof fn every_lap_has_its_own_time(e: EntryView, readings: Seq<TeamReading>, times: Seq<u32>)
    requires
        times.len() == readings.len(),
        forall|k: int|
            0 <= k < readings.len() ==> (#[trigger] readings[k]).completed_laps
                == e.last_recorded_completed_laps + k + 1 && readings[k].last_lap_time_ms == Some(
                times[k],
            ),
    ensures
        entry_after_all(e, readings).lap_times_ms == e.lap_times_ms + times,
        entry_after_all(e, readings).last_recorded_completed_laps == e.last_recorded_completed_laps
            + readings.len(),
    decreases readings.len(),
{
    if readings.len() == 0 {
        assert(e.lap_times_ms + times =~= e.lap_times_ms);
    } else {
        let n = readings.len() - 1;
        assert(readings.last() == readings[n]);
        assert forall|k: int| 0 <= k < n implies (
        #[trigger] readings.drop_last()[k]).completed_laps == e.last_recorded_completed_laps + k + 1
            && readings.drop_last()[k].last_lap_time_ms == Some(times.drop_last()[k]) by {
            assert(readings.drop_last()[k] == readings[k]);
        }
        every_lap_has_its_own_time(e, readings.drop_last(), times.drop_last());
        assert((e.lap_times_ms + times.drop_last()).push(times[n]) =~= e.lap_times_ms + times);
    }
}

/// A car counts where it is the team's, drives in the official race and was timed.
pub proof fn only_timed_cars_of_the_race_count<T>(car: RuntimeCarFrame<T>, car_id: u64)
    ensures
        is_timed_car(car, car_id) <==> car.public_car_id == car_id && car.target@ is OfficialRace
            && car.race_metrics is Some,
{
}

/// A session is named after its time and its race, in which `_` stands for every character that
/// no name may hold.
pub proof fn session_is_named_after_time_and_race(now_ms: u64, race_id: Seq<char>)
    ensures
        session_id_of(now_ms, race_id) == text::decimal(now_ms as nat) + seq!['_'] + storage_chars(
            race_id,
        ),
{
    reveal_strlit("_");
    assert("_"@ =~= seq!['_']);
}

} // verus!
