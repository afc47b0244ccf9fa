//! The table of the official race. It remembers who took part: a car that leaves
//! stays in the table as one that did not finish.
//!
//! Distances and times between points are computed by the caller, in floating point;
//! a distance comes in by the bit pattern of a number that is not negative.

use vstd::prelude::*;
use crate::float_bits::F32Bits;
use crate::id_map::{has_id, ids_ascend, IdMap};
use crate::race_table::rows::{
    laps_between, next_place, resolve_team_name, team_name_of, RaceTableEntryStatus, TeamIdentity,
};
use crate::race_table::trajectory::{
    after_reading, is_bracket, is_within, Bracket, ProgressChange, Trajectory, TrajectorySample,
};
use crate::race::runtime_store::RuntimeCarIdentity;
use crate::sorting::{ranked, ranked_is_sorted_permutation, sort_ranked, Ranked};
use crate::text;
use crate::text_map::TextMap;

verus! {

/// A car that is more laps behind has no gap shown.
pub const MAX_LAPS_BEHIND_WITH_GAP: u32 = 1;

/// A race that is this much younger than it was is another race.
pub const ELAPSED_RESET_TOLERANCE_MS: u64 = 100;

/// The bit pattern of one metre: a leader that has not come further does not move yet.
pub const MOVED_BITS: u64 = 0x3ff0_0000_0000_0000;

#[derive(Debug, PartialEq, Eq)]
pub struct OfficialRaceTableEntry {
    pub car_id: u64,
    pub team: TeamIdentity,
    pub position: u32,
    pub gap_to_leader_ms: Option<u32>,
    pub laps_behind: u32,
    pub in_pit: bool,
    pub status: RaceTableEntryStatus,
}

impl Clone for OfficialRaceTableEntry {
    fn clone(&self) -> (r: Self)
        ensures
            r == *self,
    {
        OfficialRaceTableEntry {
            car_id: self.car_id,
            team: self.team.clone(),
            position: self.position,
            gap_to_leader_ms: self.gap_to_leader_ms,
            laps_behind: self.laps_behind,
            in_pit: self.in_pit,
            status: self.status,
        }
    }
}

/// A car that takes part: its row, and how far it has come from where it started.
#[derive(Debug)]
pub struct ActiveEntrySample {
    pub row: OfficialRaceTableEntry,
    pub completed_laps: u32,
    pub progress: u64,
    /// The car has not crossed the line yet.
    pub hide_gap_to_leader: bool,
}

impl Ranked for ActiveEntrySample {
    /// Who has come further comes first; then the lower id does.
    open spec fn ranks_before(&self, other: &Self) -> bool {
        self.progress > other.progress || (self.progress == other.progress && self.row.car_id
            < other.row.car_id)
    }

    fn is_before(&self, other: &Self) -> (r: bool) {
        self.progress > other.progress || (self.progress == other.progress && self.row.car_id
            < other.row.car_id)
    }

    proof fn rank_is_asymmetric(a: &Self, b: &Self) {
    }

    proof fn rank_is_transitive(a: &Self, b: &Self, c: &Self) {
    }
}

/// The sample of a car in the race; its team is shown by its id, or as unknown.
pub fn sample_to_official_entry(
    car_id: u64,
    completed_laps: u32,
    lap_progress_m: F32Bits,
    progress: u64,
    identity: &Option<RuntimeCarIdentity>,
    in_pit: bool,
) -> (r: ActiveEntrySample)
    ensures
        r.completed_laps == completed_laps,
        r.progress == progress,
        r.hide_gap_to_leader == lap_progress_m.below_zero(),
        r.row.car_id == car_id,
        r.row.team.team_id@ == match identity {
            Some(i) => match i.team_id {
                Some(team) => team@,
                None => "unknown"@,
            },
            None => "unknown"@,
        },
        r.row.team.team_name@ == r.row.team.team_id@,
        r.row.position == 0,
        r.row.gap_to_leader_ms is None,
        r.row.laps_behind == 0,
        r.row.in_pit == in_pit,
        r.row.status == RaceTableEntryStatus::Active,
{
    let team_id: String = match identity {
        Some(i) => match &i.team_id {
            Some(team) => team.clone(),
            None => "unknown".to_owned(),
        },
        None => "unknown".to_owned(),
    };
    ActiveEntrySample {
        row: OfficialRaceTableEntry {
            car_id,
            team: TeamIdentity { team_id: team_id.clone(), team_name: team_id },
            position: 0,
            gap_to_leader_ms: None,
            laps_behind: 0,
            in_pit,
            status: RaceTableEntryStatus::Active,
        },
        completed_laps,
        progress,
        hide_gap_to_leader: lap_progress_m.is_below_zero(),
    }
}

/// The name of the session of a race on the map.
pub fn session_marker(map_id: &str) -> (r: String)
    ensures
        r@ == "official-race:"@ + map_id@,
{
    text::join2("official-race:", map_id)
}

/// Sorts the cars into the order in which they run.
pub fn sort_active_entries(entries: Vec<ActiveEntrySample>) -> (r: Vec<ActiveEntrySample>)
    ensures
        r@ == ranked(entries@),
        r@.len() == entries@.len(),
        r@.to_multiset() == entries@.to_multiset(),
        forall|i: int, j: int|
            #![trigger r@[i], r@[j]]
            0 <= i < j < r@.len() ==> r@[i].progress >= r@[j].progress && (r@[i].progress
                == r@[j].progress ==> r@[i].row.car_id <= r@[j].row.car_id),
{
    proof {
        cars_stand_by_distance(entries@);
    }
    sort_ranked(entries)
}

/// In the order in which they run no car stands behind one that has come less far, and of
/// two that have come equally far the one with the lower id stands in front. Nobody is
/// added or left out.
pub proof fn cars_stand_by_distance(entries: Seq<ActiveEntrySample>)
    ensures
        ranked(entries).len() == entries.len(),
        ranked(entries).to_multiset() == entries.to_multiset(),
        forall|i: int, j: int|
            #![trigger ranked(entries)[i], ranked(entries)[j]]
            0 <= i < j < entries.len() ==> ranked(entries)[i].progress
                >= ranked(entries)[j].progress && (ranked(entries)[i].progress
                == ranked(entries)[j].progress ==> ranked(entries)[i].row.car_id <= ranked(
                entries,
            )[j].row.car_id),
{
    ranked_is_sorted_permutation(entries);
    let r = ranked(entries);
    assert forall|i: int, j: int|
        #![trigger r[i], r[j]]
        0 <= i < j < entries.len() implies r[i].progress >= r[j].progress && (r[i].progress
        == r[j].progress ==> r[i].row.car_id <= r[j].row.car_id) by {
        assert(!r[j].ranks_before(&r[i]));
    }
}

/// What is remembered of the race.
#[derive(Debug)]
pub struct OfficialRaceCache {
    pub session_marker: Option<String>,
    pub last_race_elapsed_ms: Option<u64>,
    pub last_active_rows: IdMap<OfficialRaceTableEntry>,
    pub archived_dnf_rows: IdMap<OfficialRaceTableEntry>,
    pub car_trajectories: IdMap<Trajectory>,
    pub last_computed_gap_ms: IdMap<u32>,
    pub car_start_progress: IdMap<u64>,
}

/// No two samples are of the same car.
pub open spec fn cars_differ(entries: Seq<ActiveEntrySample>) -> bool {
    forall|i: int, j: int|
        #![trigger entries[i], entries[j]]
        0 <= i < j < entries.len() ==> entries[i].row.car_id != entries[j].row.car_id
}

/// The car is among the samples.
pub open spec fn is_active(entries: Seq<ActiveEntrySample>, car_id: u64) -> bool {
    exists|i: int| 0 <= i < entries.len() && (#[trigger] entries[i]).row.car_id == car_id
}

/// The leader has set off: it has two points and is more than a metre from its start.
pub open spec fn leader_moves(
    trajectories: Map<u64, Trajectory>,
    entries: Seq<ActiveEntrySample>,
) -> bool {
    let leader = entries[0];
    trajectories.contains_key(leader.row.car_id)
        && trajectories[leader.row.car_id]@.len() >= 2 && leader.progress > MOVED_BITS
}

/// Where the car at the place started: where it was remembered to have started, or
/// where it is.
pub open spec fn start_of(
    starts: Map<u64, u64>,
    car_ids: Seq<u64>,
    progress: Seq<u64>,
    i: int,
) -> u64 {
    if starts.contains_key(car_ids[i]) {
        starts[car_ids[i]]
    } else {
        progress[i]
    }
}

/// Where the cars of a table started; nothing is remembered of other cars.
pub open spec fn starts_after(
    starts: Map<u64, u64>,
    car_ids: Seq<u64>,
    progress: Seq<u64>,
) -> Map<u64, u64> {
    Map::new(
        |c: u64| car_ids.contains(c),
        |c: u64| start_of(starts, car_ids, progress, car_ids.index_of(c)),
    )
}

/// A table: the cars that take part, and how far each has come in all.
pub struct TableReading {
    pub car_ids: Seq<u64>,
    pub progress: Seq<u64>,
}

impl TableReading {
    pub open spec fn is_valid(self) -> bool {
        self.car_ids.no_duplicates() && self.car_ids.len() == self.progress.len()
    }
}

/// Where the cars started, after the tables of a race one after the other.
pub open spec fn starts_after_all(starts: Map<u64, u64>, tables: Seq<TableReading>) -> Map<
    u64,
    u64,
>
    decreases tables.len(),
{
    if tables.len() == 0 {
        starts
    } else {
        starts_after(
            starts_after_all(starts, tables.drop_last()),
            tables.last().car_ids,
            tables.last().progress,
        )
    }
}

/// A car's distance counts from its first reading: as long as the car takes part in
/// every table, it has started where it was in the first of them.
pub proof fn distance_counts_from_first_reading(
    starts: Map<u64, u64>,
    tables: Seq<TableReading>,
    car_id: u64,
)
    requires
        tables.len() > 0,
        !starts.contains_key(car_id),
        forall|k: int|
            0 <= k < tables.len() ==> (#[trigger] tables[k]).is_valid()
                && tables[k].car_ids.contains(car_id),
    ensures
        starts_after_all(starts, tables).contains_key(car_id),
        starts_after_all(starts, tables)[car_id] == tables[0].progress[tables[0].car_ids.index_of(
            car_id,
        )],
    decreases tables.len(),
{
    let last = tables.last();
    assert(last == tables[tables.len() - 1]);
    let i = last.car_ids.index_of(car_id);
    assert(last.car_ids.contains(car_id));
    assert(last.car_ids[i] == car_id);
    if tables.len() > 1 {
        let before = tables.drop_last();
        assert forall|k: int| 0 <= k < before.len() implies (#[trigger] before[k]).is_valid()
            && before[k].car_ids.contains(car_id) by {
            assert(before[k] == tables[k]);
        }
        distance_counts_from_first_reading(starts, before, car_id);
        assert(before[0] == tables[0]);
    } else {
        assert(tables.drop_last() =~= Seq::<TableReading>::empty());
        assert(starts_after_all(starts, tables.drop_last()) == starts);
        assert(last == tables[0]);
    }
}

/// Ending a table forgets no start of a car that takes part in it: what `finish_rows`
/// keeps is what `start_progress` has found.
pub proof fn ended_table_keeps_starts(
    starts: Map<u64, u64>,
    car_ids: Seq<u64>,
    progress: Seq<u64>,
    entries: Seq<ActiveEntrySample>,
)
    requires
        forall|c: u64| #[trigger] car_ids.contains(c) <==> is_active(entries, c),
    ensures
        starts_after(starts, car_ids, progress).restrict(
            Set::new(|c: u64| is_active(entries, c)),
        ) == starts_after(starts, car_ids, progress),
{
    assert(starts_after(starts, car_ids, progress).restrict(
        Set::new(|c: u64| is_active(entries, c)),
    ) =~= starts_after(starts, car_ids, progress));
}

/// How a car's gap to the leader is found.
#[derive(Clone, Copy, PartialEq, Eq, Debug, Structural)]
pub enum GapPlan {
    /// It is known without a look at the leader's points.
    Known(Option<u32>),
    /// It is read off between two of the leader's points; where there are none that
    /// the distance lies between, the last known gap stands.
    Interpolate(Option<Bracket>),
}

/// The car's gap is read off the leader's points.
pub open spec fn is_measured(entries: Seq<ActiveEntrySample>, i: int, moves: bool) -> bool {
    &&& i > 0
    &&& !entries[i].hide_gap_to_leader
    &&& laps_between(entries[0].completed_laps, entries[i].completed_laps)
        <= MAX_LAPS_BEHIND_WITH_GAP
    &&& moves
}

/// A gap that is not measured: none for a car before the line or too far behind,
/// and no gap at all for the leader and in a field that does not move.
pub open spec fn unmeasured_gap(entries: Seq<ActiveEntrySample>, i: int) -> Option<u32> {
    if i == 0 {
        Some(0)
    } else if entries[i].hide_gap_to_leader {
        None
    } else if laps_between(entries[0].completed_laps, entries[i].completed_laps)
        > MAX_LAPS_BEHIND_WITH_GAP {
        None
    } else {
        Some(0)
    }
}

/// The gap that is shown: `measured` is what was read off, where anything was.
pub open spec fn shown_gap(
    entries: Seq<ActiveEntrySample>,
    i: int,
    moves: bool,
    measured: Option<u32>,
    last_gaps: Map<u64, u32>,
) -> Option<u32> {
    if !is_measured(entries, i, moves) {
        unmeasured_gap(entries, i)
    } else if measured is Some {
        measured
    } else if last_gaps.contains_key(entries[i].row.car_id) {
        Some(last_gaps[entries[i].row.car_id])
    } else {
        None
    }
}

/// The row of a car that takes part, before it has its place.
pub open spec fn active_row(
    entries: Seq<ActiveEntrySample>,
    i: int,
    gap: Option<u32>,
) -> OfficialRaceTableEntry {
    OfficialRaceTableEntry {
        laps_behind: if i == 0 {
            0
        } else {
            laps_between(entries[0].completed_laps, entries[i].completed_laps)
        },
        gap_to_leader_ms: gap,
        ..entries[i].row
    }
}

/// The rows of the cars that did not finish: those that were so before and those
/// that were in the last table, without the ones that take part.
pub open spec fn archived_after(
    archived: Map<u64, OfficialRaceTableEntry>,
    last_active: Map<u64, OfficialRaceTableEntry>,
    entries: Seq<ActiveEntrySample>,
) -> Map<u64, OfficialRaceTableEntry> {
    Map::new(
        |c: u64| !is_active(entries, c) && (archived.contains_key(c) || last_active.contains_key(c)),
        |c: u64|
            if archived.contains_key(c) {
                archived[c]
            } else {
                OfficialRaceTableEntry { status: RaceTableEntryStatus::Dnf, ..last_active[c] }
            },
    )
}

/// The last known gaps after a table: a car before the line loses its gap, one whose
/// gap is shown keeps it, and cars that take no part any more are forgotten.
pub open spec fn gaps_after(
    last_gaps: Map<u64, u32>,
    entries: Seq<ActiveEntrySample>,
    gaps: Seq<Option<u32>>,
    after: Map<u64, u32>,
) -> bool {
    &&& forall|c: u64| #[trigger] after.contains_key(c) ==> is_active(entries, c)
    &&& forall|i: int|
        0 <= i < entries.len() ==> {
            let c = (#[trigger] entries[i]).row.car_id;
            if i > 0 && gaps[i] is Some {
                after.contains_key(c) && after[c] == gaps[i]->Some_0
            } else if i > 0 && entries[i].hide_gap_to_leader {
                !after.contains_key(c)
            } else {
                after.contains_key(c) == last_gaps.contains_key(c) && (after.contains_key(c)
                    ==> after[c] == last_gaps[c])
            }
        }
}

/// A row in its place: the rows of those who take part come first, then come those
/// of the cars that did not finish, which are in no pit.
pub open spec fn placed_row(row: OfficialRaceTableEntry, place: int, active: int) ->
    OfficialRaceTableEntry {
    OfficialRaceTableEntry {
        position: (place + 1) as u32,
        status: if place < active {
            RaceTableEntryStatus::Active
        } else {
            RaceTableEntryStatus::Dnf
        },
        in_pit: place < active && row.in_pit,
        ..row
    }
}

/// The gaps that a table shows.
pub open spec fn table_gaps(
    entries: Seq<ActiveEntrySample>,
    moves: bool,
    measured: Seq<Option<u32>>,
    last_gaps: Map<u64, u32>,
) -> Seq<Option<u32>> {
    Seq::new(entries.len(), |i: int| shown_gap(entries, i, moves, measured[i], last_gaps))
}

/// Every row stands under the id of its car.
pub open spec fn rows_stand_by_car(rows: Map<u64, OfficialRaceTableEntry>) -> bool {
    forall|c: u64| #[trigger] rows.contains_key(c) ==> rows[c].car_id == c
}

/// The rows are those of the cars that take part, in the order of the samples, and
/// behind them those of the cars that did not finish, which are the given ones in
/// ascending order.
pub open spec fn is_table_with(
    rows: Seq<OfficialRaceTableEntry>,
    entries: Seq<ActiveEntrySample>,
    gaps: Seq<Option<u32>>,
    archived: Map<u64, OfficialRaceTableEntry>,
    ids: Seq<u64>,
) -> bool {
    let n = entries.len() as int;
    &&& ids_ascend(ids)
    &&& forall|c: u64| #[trigger] ids.contains(c) <==> archived.contains_key(c)
    &&& rows.len() == n + ids.len()
    &&& forall|i: int|
        0 <= i < n ==> #[trigger] rows[i] == placed_row(active_row(entries, i, gaps[i]), i, n)
    &&& forall|j: int|
        0 <= j < ids.len() ==> #[trigger] rows[n + j] == placed_row(archived[ids[j]], n + j, n)
}

pub open spec fn is_table(
    rows: Seq<OfficialRaceTableEntry>,
    entries: Seq<ActiveEntrySample>,
    gaps: Seq<Option<u32>>,
    archived: Map<u64, OfficialRaceTableEntry>,
) -> bool {
    exists|ids: Seq<u64>| #[trigger] is_table_with(rows, entries, gaps, archived, ids)
}

/// In a table the places count up from one, no car is listed twice, those who take part
/// stand in front and all others behind, in the order of their ids and in no pit, and the
/// leader is behind nobody.
pub proof fn table_is_in_order(
    cache: OfficialRaceCache,
    entries: Seq<ActiveEntrySample>,
    measured: Seq<Option<u32>>,
    rows: Seq<OfficialRaceTableEntry>,
)
    requires
        cache.is_consistent(),
        cars_differ(entries),
        measured.len() == entries.len(),
        rows.len() <= u32::MAX,
        is_table(
            rows,
            entries,
            table_gaps(
                entries,
                leader_moves(cache.car_trajectories@, entries),
                measured,
                cache.last_computed_gap_ms@,
            ),
            archived_after(cache.archived_dnf_rows@, cache.last_active_rows@, entries),
        ),
    ensures
        entries.len() <= rows.len(),
        forall|i: int| 0 <= i < rows.len() ==> (#[trigger] rows[i]).position == i + 1,
        forall|i: int, j: int|
            #![trigger rows[i], rows[j]]
            0 <= i < j < rows.len() ==> rows[i].car_id != rows[j].car_id,
        forall|i: int|
            0 <= i < entries.len() ==> (#[trigger] rows[i]).status == RaceTableEntryStatus::Active
                && rows[i].car_id == entries[i].row.car_id,
        forall|i: int|
            entries.len() <= i < rows.len() ==> (#[trigger] rows[i]).status
                == RaceTableEntryStatus::Dnf && !rows[i].in_pit && !is_active(
                entries,
                rows[i].car_id,
            ),
        forall|i: int, j: int|
            #![trigger rows[i], rows[j]]
            entries.len() <= i < j < rows.len() ==> rows[i].car_id < rows[j].car_id,
        entries.len() > 0 ==> rows[0].laps_behind == 0 && rows[0].gap_to_leader_ms == Some(0u32),
{
    let gaps = table_gaps(
        entries,
        leader_moves(cache.car_trajectories@, entries),
        measured,
        cache.last_computed_gap_ms@,
    );
    let archived = archived_after(cache.archived_dnf_rows@, cache.last_active_rows@, entries);
    let ids = choose|ids: Seq<u64>| is_table_with(rows, entries, gaps, archived, ids);
    let n = entries.len() as int;
    assert forall|i: int| n <= i < rows.len() implies (#[trigger] rows[i]).car_id == ids[i - n]
        && archived.contains_key(ids[i - n]) && rows[i] == placed_row(archived[ids[i - n]], i, n) by {
        let j = i - n;
        assert(rows[n + j] == placed_row(archived[ids[j]], n + j, n));
        assert(ids.contains(ids[j]));
    }
    assert forall|i: int| 0 <= i < n implies (#[trigger] rows[i]).car_id
        == entries[i].row.car_id by {
        assert(rows[i] == placed_row(active_row(entries, i, gaps[i]), i, n));
    }
    assert forall|i: int, j: int|
        #![trigger rows[i], rows[j]]
        0 <= i < j < rows.len() implies rows[i].car_id != rows[j].car_id by {
        if j < n {
            assert(entries[i].row.car_id != entries[j].row.car_id);
        } else if i < n {
            assert(is_active(entries, entries[i].row.car_id));
            assert(archived.contains_key(ids[j - n]));
        } else {
            assert(ids[i - n] < ids[j - n]);
        }
    }
    assert forall|i: int, j: int|
        #![trigger rows[i], rows[j]]
        n <= i < j < rows.len() implies rows[i].car_id < rows[j].car_id by {
        assert(ids[i - n] < ids[j - n]);
    }
}

impl OfficialRaceCache {
    /// Every remembered row stands under the id of its car.
    pub open spec fn is_consistent(self) -> bool {
        rows_stand_by_car(self.last_active_rows@) && rows_stand_by_car(self.archived_dnf_rows@)
    }

    pub fn new() -> (r: Self)
        ensures
            r.session_marker is None,
            r.is_empty_race(),
            r.is_consistent(),
    {
        OfficialRaceCache {
            session_marker: None,
            last_race_elapsed_ms: None,
            last_active_rows: IdMap::new(),
            archived_dnf_rows: IdMap::new(),
            car_trajectories: IdMap::new(),
            last_computed_gap_ms: IdMap::new(),
            car_start_progress: IdMap::new(),
        }
    }

    /// Nothing of a race is remembered.
    pub open spec fn is_empty_race(self) -> bool {
        &&& self.last_race_elapsed_ms is None
        &&& self.has_no_cars()
    }

    pub open spec fn has_no_cars(self) -> bool {
        &&& self.last_active_rows@ == Map::<u64, OfficialRaceTableEntry>::empty()
        &&& self.archived_dnf_rows@ == Map::<u64, OfficialRaceTableEntry>::empty()
        &&& self.car_trajectories@ == Map::<u64, Trajectory>::empty()
        &&& self.last_computed_gap_ms@ == Map::<u64, u32>::empty()
        &&& self.car_start_progress@ == Map::<u64, u64>::empty()
    }

    /// Both remember the same of the cars.
    pub open spec fn has_cars_of(self, other: OfficialRaceCache) -> bool {
        &&& self.last_active_rows == other.last_active_rows
        &&& self.archived_dnf_rows == other.archived_dnf_rows
        &&& self.car_trajectories == other.car_trajectories
        &&& self.last_computed_gap_ms == other.last_computed_gap_ms
        &&& self.car_start_progress == other.car_start_progress
    }

    pub fn reset_runtime_progress(&mut self)
        ensures
            final(self).is_empty_race(),
            final(self).session_marker == old(self).session_marker,
    {
        self.last_race_elapsed_ms = None;
        self.last_active_rows = IdMap::new();
        self.archived_dnf_rows = IdMap::new();
        self.car_trajectories = IdMap::new();
        self.last_computed_gap_ms = IdMap::new();
        self.car_start_progress = IdMap::new();
    }

    pub open spec fn is_session(self, marker: Seq<char>) -> bool {
        self.session_marker matches Some(m) && m@ == marker
    }

    pub fn reset_if_session_changed(&mut self, marker: &str)
        ensures
            old(self).is_session(marker@) ==> *final(self) == *old(self),
            !old(self).is_session(marker@) ==> final(self).is_session(marker@)
                && final(self).is_empty_race(),
    {
        let is_same = match &self.session_marker {
            Some(m) => text::str_eq(m.as_str(), marker),
            None => false,
        };
        if is_same {
            return ;
        }
        self.session_marker = Some(marker.to_owned());
        self.reset_runtime_progress();
    }

    /// The race is another one than the cache remembers.
    pub open spec fn is_other_race(self, marker: Seq<char>, race_elapsed_ms: u64) -> bool {
        ||| !self.is_session(marker)
        ||| self.last_race_elapsed_ms matches Some(previous) && race_elapsed_ms
            + ELAPSED_RESET_TOLERANCE_MS < previous
    }

    /// A new table begins. What is remembered of another race is forgotten.
    pub fn begin_table(&mut self, marker: &str, race_elapsed_ms: u64)
        ensures
            final(self).is_session(marker@),
            final(self).last_race_elapsed_ms == Some(race_elapsed_ms),
            old(self).is_other_race(marker@, race_elapsed_ms) ==> final(self).has_no_cars(),
            !old(self).is_other_race(marker@, race_elapsed_ms) ==> final(self).has_cars_of(
                *old(self),
            ),
            old(self).is_consistent() ==> final(self).is_consistent(),
    {
        self.reset_if_session_changed(marker);
        match self.last_race_elapsed_ms {
            Some(previous) => {
                if previous > race_elapsed_ms && previous - race_elapsed_ms
                    > ELAPSED_RESET_TOLERANCE_MS {
                    self.reset_runtime_progress();
                }
            },
            None => {},
        }
        self.last_race_elapsed_ms = Some(race_elapsed_ms);
    }

    /// Where the cars started: a car that is new starts where it is. Cars that take
    /// no part any more are forgotten. From these the caller computes how far each
    /// car has come.
    pub fn start_progress(&mut self, car_ids: &Vec<u64>, progress: &Vec<u64>) -> (r: Vec<u64>)
        requires
            car_ids@.len() == progress@.len(),
            car_ids@.no_duplicates(),
        ensures
            r@.len() == car_ids@.len(),
            forall|i: int|
                0 <= i < r@.len() ==> #[trigger] r@[i] == start_of(
                    old(self).car_start_progress@,
                    car_ids@,
                    progress@,
                    i,
                ),
            final(self).car_start_progress@ == starts_after(
                old(self).car_start_progress@,
                car_ids@,
                progress@,
            ),
            final(self).session_marker == old(self).session_marker,
            final(self).last_race_elapsed_ms == old(self).last_race_elapsed_ms,
            final(self).last_active_rows == old(self).last_active_rows,
            final(self).archived_dnf_rows == old(self).archived_dnf_rows,
            final(self).car_trajectories == old(self).car_trajectories,
            final(self).last_computed_gap_ms == old(self).last_computed_gap_ms,
    {
        let ghost first = self.car_start_progress@;
        self.car_start_progress.retain(car_ids);
        let mut r: Vec<u64> = Vec::new();
        let mut i: usize = 0;
        while i < car_ids.len()
            invariant
                i <= car_ids@.len(),
                car_ids@.len() == progress@.len(),
                car_ids@.no_duplicates(),
                first == old(self).car_start_progress@,
                r@.len() == i,
                forall|k: int|
                    0 <= k < i ==> #[trigger] r@[k] == if first.contains_key(car_ids@[k]) {
                        first[car_ids@[k]]
                    } else {
                        progress@[k]
                    },
                forall|k: int|
                    0 <= k < i ==> self.car_start_progress@.contains_key(#[trigger] car_ids@[k])
                        && self.car_start_progress@[car_ids@[k]] == r@[k],
                forall|k: int|
                    i <= k < car_ids@.len() ==> (self.car_start_progress@.contains_key(
                        #[trigger] car_ids@[k],
                    ) <==> first.contains_key(car_ids@[k])) && (first.contains_key(car_ids@[k])
                        ==> self.car_start_progress@[car_ids@[k]] == first[car_ids@[k]]),
                forall|c: u64| #[trigger]
                    self.car_start_progress@.contains_key(c) ==> car_ids@.contains(c),
                self.session_marker == old(self).session_marker,
                self.last_race_elapsed_ms == old(self).last_race_elapsed_ms,
                self.last_active_rows == old(self).last_active_rows,
                self.archived_dnf_rows == old(self).archived_dnf_rows,
                self.car_trajectories == old(self).car_trajectories,
                self.last_computed_gap_ms == old(self).last_computed_gap_ms,
            decreases car_ids@.len() - i,
        {
            let held: Option<u64> = match self.car_start_progress.get(car_ids[i]) {
                Some(v) => Some(*v),
                None => None,
            };
            match held {
                Some(v) => {
                    r.push(v);
                },
                None => {
                    self.car_start_progress.insert(car_ids[i], progress[i]);
                    r.push(progress[i]);
                },
            }
            i += 1;
        }
        proof {
            assert forall|c: u64| car_ids@.contains(c) implies #[trigger]
            self.car_start_progress@.contains_key(c) by {
                let k = choose|k: int| 0 <= k < car_ids@.len() && car_ids@[k] == c;
                assert(self.car_start_progress@.contains_key(car_ids@[k]));
            }
            let after = starts_after(first, car_ids@, progress@);
            assert forall|c: u64| #[trigger]
                self.car_start_progress@.contains_key(c) implies self.car_start_progress@[c]
                == after[c] by {
                let k = car_ids@.index_of(c);
                assert(car_ids@.contains(c));
                assert(car_ids@[k] == c);
                assert(self.car_start_progress@[car_ids@[k]] == r@[k]);
            }
            assert(self.car_start_progress@ =~= after);
        }
        r
    }

    /// The points of a car; none where the car is new.
    pub open spec fn points_of(self, car_id: u64) -> Seq<TrajectorySample> {
        if self.car_trajectories@.contains_key(car_id) {
            self.car_trajectories@[car_id]@
        } else {
            Seq::empty()
        }
    }

    /// Forgets the points of the cars that take no part any more.
    pub fn retain_trajectories(&mut self, car_ids: &Vec<u64>)
        ensures
            final(self).car_trajectories@ == old(self).car_trajectories@.restrict(
                car_ids@.to_set(),
            ),
            *final(self) == (OfficialRaceCache {
                car_trajectories: final(self).car_trajectories,
                ..*old(self)
            }),
    {
        self.car_trajectories.retain(car_ids);
    }

    /// The last point of a car: against it the caller compares how far the car has
    /// come.
    pub fn last_point(&self, car_id: u64) -> (r: Option<TrajectorySample>)
        ensures
            r == if self.points_of(car_id).len() == 0 {
                None
            } else {
                Some(self.points_of(car_id).last())
            },
    {
        match self.car_trajectories.get(car_id) {
            Some(t) => t.last(),
            None => None,
        }
    }

    /// Takes a car's reading up into its points.
    pub fn record_point(self, car_id: u64, point: TrajectorySample, change: ProgressChange) -> (r:
        Self)
        ensures
            r.car_trajectories@.contains_key(car_id),
            r.car_trajectories@ == self.car_trajectories@.insert(
                car_id,
                r.car_trajectories@[car_id],
            ),
            r.points_of(car_id) == after_reading(self.points_of(car_id), point, change),
            r == (OfficialRaceCache { car_trajectories: r.car_trajectories, ..self }),
    {
        let mut cache: OfficialRaceCache = self;
        let mut before: Trajectory = Trajectory::new();
        let (found, rest) = take_trajectory(cache.car_trajectories, car_id);
        match found {
            Some(t) => {
                before = t;
            },
            None => {},
        }
        let mut trajectories: IdMap<Trajectory> = rest;
        trajectories.insert(car_id, before.record(point, change));
        cache.car_trajectories = trajectories;
        proof {
            assert(cache.car_trajectories@ =~= self.car_trajectories@.insert(
                car_id,
                cache.car_trajectories@[car_id],
            ));
        }
        cache
    }

    /// How the gaps of the cars are to be found, in the order of the cars.
    pub fn plan_gaps(&self, entries: &Vec<ActiveEntrySample>) -> (r: Vec<GapPlan>)
        ensures
            r@.len() == entries@.len(),
            forall|i: int|
                0 <= i < r@.len() ==> {
                    let moves = leader_moves(self.car_trajectories@, entries@);
                    if is_measured(entries@, i, moves) {
                        let points = self.points_of(entries@[0].row.car_id);
                        let progress = entries@[i].progress;
                        &&& (#[trigger] r@[i]) matches GapPlan::Interpolate(bracket)
                        &&& bracket is Some <==> is_within(points, progress)
                        &&& bracket is Some ==> is_bracket(points, progress, bracket->Some_0)
                    } else {
                        r@[i] == GapPlan::Known(unmeasured_gap(entries@, i))
                    }
                },
    {
        let mut r: Vec<GapPlan> = Vec::new();
        if entries.len() == 0 {
            return r;
        }
        let moves: bool = self.is_leader_moving(entries);
        let mut i: usize = 0;
        while i < entries.len()
            invariant
                i <= entries@.len(),
                entries@.len() > 0,
                moves == leader_moves(self.car_trajectories@, entries@),
                r@.len() == i,
                forall|k: int|
                    0 <= k < i ==> {
                        if is_measured(entries@, k, moves) {
                            let points = self.points_of(entries@[0].row.car_id);
                            let progress = entries@[k].progress;
                            &&& (#[trigger] r@[k]) matches GapPlan::Interpolate(bracket)
                            &&& bracket is Some <==> is_within(points, progress)
                            &&& bracket is Some ==> is_bracket(points, progress, bracket->Some_0)
                        } else {
                            r@[k] == GapPlan::Known(unmeasured_gap(entries@, k))
                        }
                    },
            decreases entries@.len() - i,
        {
            let laps_behind: u32 = entries[0].completed_laps.saturating_sub(
                entries[i].completed_laps,
            );
            let plan: GapPlan = if i == 0 {
                GapPlan::Known(Some(0))
            } else if entries[i].hide_gap_to_leader {
                GapPlan::Known(None)
            } else if laps_behind > MAX_LAPS_BEHIND_WITH_GAP {
                GapPlan::Known(None)
            } else if !moves {
                GapPlan::Known(Some(0))
            } else {
                match self.car_trajectories.get(entries[0].row.car_id) {
                    Some(t) => GapPlan::Interpolate(t.bracket(entries[i].progress)),
                    None => GapPlan::Interpolate(None),
                }
            };
            r.push(plan);
            i += 1;
        }
        r
    }

    fn is_leader_moving(&self, entries: &Vec<ActiveEntrySample>) -> (r: bool)
        requires
            entries@.len() > 0,
        ensures
            r == leader_moves(self.car_trajectories@, entries@),
    {
        match self.car_trajectories.get(entries[0].row.car_id) {
            Some(t) => t.len() >= 2 && entries[0].progress > MOVED_BITS,
            None => false,
        }
    }

    /// The rows of the cars that take part, without their places, and the last known
    /// gaps after them.
    fn active_rows(&mut self, entries: &Vec<ActiveEntrySample>, measured: &Vec<Option<u32>>) -> (r:
        Vec<OfficialRaceTableEntry>)
        requires
            cars_differ(entries@),
            measured@.len() == entries@.len(),
        ensures
            ({
                let moves = leader_moves(old(self).car_trajectories@, entries@);
                let gaps = table_gaps(
                    entries@,
                    moves,
                    measured@,
                    old(self).last_computed_gap_ms@,
                );
                &&& r@.len() == entries@.len()
                &&& forall|i: int|
                    0 <= i < r@.len() ==> #[trigger] r@[i] == active_row(entries@, i, gaps[i])
                &&& forall|i: int|
                    0 <= i < entries@.len() ==> {
                        let c = (#[trigger] entries@[i]).row.car_id;
                        let last = old(self).last_computed_gap_ms@;
                        let after = final(self).last_computed_gap_ms@;
                        if i > 0 && gaps[i] is Some {
                            after.contains_key(c) && after[c] == gaps[i]->Some_0
                        } else if i > 0 && entries@[i].hide_gap_to_leader {
                            !after.contains_key(c)
                        } else {
                            after.contains_key(c) == last.contains_key(c) && (after.contains_key(c)
                                ==> after[c] == last[c])
                        }
                    }
                &&& *final(self) == (OfficialRaceCache {
                    last_computed_gap_ms: final(self).last_computed_gap_ms,
                    ..*old(self)
                })
            }),
    {
        let mut r: Vec<OfficialRaceTableEntry> = Vec::new();
        if entries.len() == 0 {
            return r;
        }
        let moves: bool = self.is_leader_moving(entries);
        let ghost last = self.last_computed_gap_ms@;
        let ghost gaps = table_gaps(entries@, moves, measured@, last);
        let mut i: usize = 0;
        while i < entries.len()
            invariant
                i <= entries@.len(),
                entries@.len() > 0,
                cars_differ(entries@),
                measured@.len() == entries@.len(),
                last == old(self).last_computed_gap_ms@,
                gaps == table_gaps(entries@, moves, measured@, last),
                r@.len() == i,
                forall|k: int| 0 <= k < i ==> #[trigger] r@[k] == active_row(entries@, k, gaps[k]),
                forall|k: int|
                    0 <= k < i ==> {
                        let c = (#[trigger] entries@[k]).row.car_id;
                        let after = self.last_computed_gap_ms@;
                        if k > 0 && gaps[k] is Some {
                            after.contains_key(c) && after[c] == gaps[k]->Some_0
                        } else if k > 0 && entries@[k].hide_gap_to_leader {
                            !after.contains_key(c)
                        } else {
                            after.contains_key(c) == last.contains_key(c) && (after.contains_key(c)
                                ==> after[c] == last[c])
                        }
                    },
                forall|k: int|
                    i <= k < entries@.len() ==> {
                        let c = (#[trigger] entries@[k]).row.car_id;
                        let after = self.last_computed_gap_ms@;
                        after.contains_key(c) == last.contains_key(c) && (after.contains_key(c)
                            ==> after[c] == last[c])
                    },
                *self == (OfficialRaceCache {
                    last_computed_gap_ms: self.last_computed_gap_ms,
                    ..*old(self)
                }),
            decreases entries@.len() - i,
        {
            let car_id: u64 = entries[i].row.car_id;
            let laps_behind: u32 = entries[0].completed_laps.saturating_sub(
                entries[i].completed_laps,
            );
            let mut row: OfficialRaceTableEntry = entries[i].row.clone();
            if i == 0 {
                row.laps_behind = 0;
                row.gap_to_leader_ms = Some(0);
            } else {
                row.laps_behind = laps_behind;
                let gap: Option<u32> = if entries[i].hide_gap_to_leader {
                    None
                } else if laps_behind > MAX_LAPS_BEHIND_WITH_GAP {
                    None
                } else if !moves {
                    Some(0)
                } else {
                    match measured[i] {
                        Some(gap) => Some(gap),
                        None => match self.last_computed_gap_ms.get(car_id) {
                            Some(gap) => Some(*gap),
                            None => None,
                        },
                    }
                };
                if entries[i].hide_gap_to_leader {
                    self.last_computed_gap_ms.remove(car_id);
                }
                match gap {
                    Some(gap) => {
                        self.last_computed_gap_ms.insert(car_id, gap);
                    },
                    None => {},
                }
                row.gap_to_leader_ms = gap;
            }
            r.push(row);
            proof {
                assert forall|k: int| 0 <= k < entries@.len() && k != i implies (
                #[trigger] entries@[k]).row.car_id != car_id by {
                    if k < i {
                        assert(entries@[k].row.car_id != entries@[i as int].row.car_id);
                    } else {
                        assert(entries@[i as int].row.car_id != entries@[k].row.car_id);
                    }
                }
            }
            i += 1;
        }
        r
    }

    /// Ends a table: the rows of those who take part, in the order of `entries`, and
    /// behind them those of the cars that did not finish, in the order of their ids.
    /// `measured` holds the gaps that were read off as `plan_gaps` asked for.
    pub fn finish_rows(
        &mut self,
        entries: &Vec<ActiveEntrySample>,
        measured: &Vec<Option<u32>>,
    ) -> (r: Vec<OfficialRaceTableEntry>)
        requires
            cars_differ(entries@),
            measured@.len() == entries@.len(),
        ensures
            ({
                let n = entries@.len() as int;
                let moves = leader_moves(old(self).car_trajectories@, entries@);
                let gaps = table_gaps(
                    entries@,
                    moves,
                    measured@,
                    old(self).last_computed_gap_ms@,
                );
                let archived = archived_after(
                    old(self).archived_dnf_rows@,
                    old(self).last_active_rows@,
                    entries@,
                );
                &&& is_table(r@, entries@, gaps, archived)
                &&& old(self).is_consistent() ==> final(self).is_consistent()
                &&& final(self).archived_dnf_rows@ == archived
                &&& gaps_after(
                    old(self).last_computed_gap_ms@,
                    entries@,
                    gaps,
                    final(self).last_computed_gap_ms@,
                )
                &&& forall|c: u64| #[trigger]
                    final(self).last_active_rows@.contains_key(c) <==> is_active(entries@, c)
                &&& forall|i: int|
                    0 <= i < n ==> final(self).last_active_rows@[(
                    #[trigger] entries@[i]).row.car_id] == active_row(entries@, i, gaps[i])
                &&& final(self).car_start_progress@ == old(self).car_start_progress@.restrict(
                    Set::new(|c: u64| is_active(entries@, c)),
                )
                &&& final(self).car_trajectories == old(self).car_trajectories
                &&& final(self).session_marker == old(self).session_marker
                &&& final(self).last_race_elapsed_ms == old(self).last_race_elapsed_ms
            }),
    {
        let n: usize = entries.len();
        let ghost archived = archived_after(
            self.archived_dnf_rows@,
            self.last_active_rows@,
            entries@,
        );
        let active: Vec<OfficialRaceTableEntry> = self.active_rows(entries, measured);
        let ghost shown = active@;
        let ids: Vec<u64> = car_ids_of(entries);
        self.last_computed_gap_ms.retain(&ids);
        self.car_start_progress.retain(&ids);
        proof {
            assert(self.car_start_progress@ =~= old(self).car_start_progress@.restrict(
                Set::new(|c: u64| is_active(entries@, c)),
            )) by {
                assert(ids@.to_set() =~= Set::new(|c: u64| is_active(entries@, c)));
            }
        }
        self.archive_leavers(entries, &ids);
        self.last_active_rows = rows_by_car(&active);
        let dnf_ids: Vec<u64> = self.archived_dnf_rows.ids();
        let mut r: Vec<OfficialRaceTableEntry> = Vec::new();
        let mut i: usize = 0;
        while i < n
            invariant
                i <= n,
                n == active@.len(),
                r@.len() == i,
                forall|k: int|
                    0 <= k < i ==> #[trigger] r@[k] == placed_row(active@[k], k, n as int),
            decreases n - i,
        {
            let mut row: OfficialRaceTableEntry = active[i].clone();
            row.position = next_place(i);
            row.status = RaceTableEntryStatus::Active;
            r.push(row);
            i += 1;
        }
        let mut j: usize = 0;
        while j < dnf_ids.len()
            invariant
                j <= dnf_ids@.len(),
                n == active@.len(),
                r@.len() == n + j,
                forall|c: u64| #[trigger]
                    dnf_ids@.contains(c) <==> self.archived_dnf_rows@.contains_key(c),
                forall|k: int|
                    0 <= k < n ==> #[trigger] r@[k] == placed_row(active@[k], k, n as int),
                forall|k: int|
                    0 <= k < j ==> #[trigger] r@[n + k] == placed_row(
                        self.archived_dnf_rows@[dnf_ids@[k]],
                        n + k,
                        n as int,
                    ),
            decreases dnf_ids@.len() - j,
        {
            proof {
                assert(dnf_ids@.contains(dnf_ids@[j as int]));
            }
            let ghost before = r@;
            match self.archived_dnf_rows.get(dnf_ids[j]) {
                Some(archived_row) => {
                    let mut row: OfficialRaceTableEntry = archived_row.clone();
                    let place: usize = r.len();
                    row.position = next_place(place);
                    row.status = RaceTableEntryStatus::Dnf;
                    row.in_pit = false;
                    r.push(row);
                },
                None => {},
            }
            proof {
                assert forall|k: int| 0 <= k < j + 1 implies #[trigger] r@[n + k] == placed_row(
                    self.archived_dnf_rows@[dnf_ids@[k]],
                    n + k,
                    n as int,
                ) by {
                    if k < j {
                        assert(before[n + k] == r@[n + k]);
                    }
                }
            }
            j += 1;
        }
        proof {
            assert(ids_ascend(dnf_ids@));
            assert forall|c: u64| #[trigger] self.last_active_rows@.contains_key(c)
                <==> is_active(entries@, c) by {
                if self.last_active_rows@.contains_key(c) {
                    let k = choose|k: int| 0 <= k < shown.len() && (#[trigger] shown[k]).car_id == c;
                    assert(entries@[k].row.car_id == c);
                }
                if is_active(entries@, c) {
                    let k = choose|k: int|
                        0 <= k < entries@.len() && (#[trigger] entries@[k]).row.car_id == c;
                    assert(shown[k].car_id == c);
                }
            }
            assert forall|k: int| 0 <= k < n implies self.last_active_rows@[(
            #[trigger] entries@[k]).row.car_id] == shown[k] by {
                assert(shown[k].car_id == entries@[k].row.car_id);
            }
            assert(is_table_with(
                r@,
                entries@,
                table_gaps(
                    entries@,
                    leader_moves(old(self).car_trajectories@, entries@),
                    measured@,
                    old(self).last_computed_gap_ms@,
                ),
                archived,
                dnf_ids@,
            ));
            assert(rows_stand_by_car(self.last_active_rows@)) by {
                assert forall|c: u64| #[trigger]
                    self.last_active_rows@.contains_key(c) implies self.last_active_rows@[c].car_id
                    == c by {
                    let k = choose|k: int|
                        0 <= k < entries@.len() && (#[trigger] entries@[k]).row.car_id == c;
                    assert(shown[k].car_id == c);
                }
            }
        }
        r
    }

    /// Cars that were in the last table and take no part any more did not finish;
    /// cars that take part again are not archived any longer.
    fn archive_leavers(&mut self, entries: &Vec<ActiveEntrySample>, ids: &Vec<u64>)
        requires
            forall|c: u64| #[trigger] ids@.contains(c) <==> is_active(entries@, c),
        ensures
            final(self).archived_dnf_rows@ == archived_after(
                old(self).archived_dnf_rows@,
                old(self).last_active_rows@,
                entries@,
            ),
            *final(self) == (OfficialRaceCache {
                archived_dnf_rows: final(self).archived_dnf_rows,
                ..*old(self)
            }),
    {
        let ghost first = self.archived_dnf_rows@;
        let ghost last = self.last_active_rows@;
        let mut i: usize = 0;
        while i < ids.len()
            invariant
                i <= ids@.len(),
                forall|c: u64| #[trigger]
                    self.archived_dnf_rows@.contains_key(c) <==> first.contains_key(c)
                        && !ids@.take(i as int).contains(c),
                forall|c: u64| #[trigger]
                    self.archived_dnf_rows@.contains_key(c) ==> self.archived_dnf_rows@[c]
                        == first[c],
                *self == (OfficialRaceCache {
                    archived_dnf_rows: self.archived_dnf_rows,
                    ..*old(self)
                }),
            decreases ids@.len() - i,
        {
            let ghost prior = self.archived_dnf_rows@;
            self.archived_dnf_rows.remove(ids[i]);
            proof {
                let before = ids@.take(i as int);
                let after = ids@.take(i + 1);
                assert(after =~= before.push(ids@[i as int]));
                assert forall|c: u64| #[trigger] self.archived_dnf_rows@.contains_key(c)
                    <==> first.contains_key(c) && !after.contains(c) by {
                    assert(prior.contains_key(c) <==> first.contains_key(c) && !before.contains(
                        c,
                    ));
                    if before.contains(c) {
                        let k = choose|k: int| 0 <= k < before.len() && before[k] == c;
                        assert(after[k] == c);
                    }
                    if after.contains(c) && c != ids@[i as int] {
                        let k = choose|k: int| 0 <= k < after.len() && after[k] == c;
                        assert(before[k] == c);
                    }
                    assert(after[i as int] == ids@[i as int]);
                }
                assert forall|c: u64| #[trigger] self.archived_dnf_rows@.contains_key(
                    c,
                ) implies self.archived_dnf_rows@[c] == first[c] by {
                    assert(prior.contains_key(c));
                }
            }
            i += 1;
        }
        proof {
            assert(ids@.take(i as int) =~= ids@);
        }
        let last_ids: Vec<u64> = self.last_active_rows.ids();
        let ghost after = archived_after(first, last, entries@);
        let mut j: usize = 0;
        while j < last_ids.len()
            invariant
                j <= last_ids@.len(),
                last == self.last_active_rows@,
                after == archived_after(first, last, entries@),
                forall|c: u64| #[trigger] ids@.contains(c) <==> is_active(entries@, c),
                forall|c: u64| #[trigger] last_ids@.contains(c) <==> last.contains_key(c),
                forall|c: u64| #[trigger]
                    self.archived_dnf_rows@.contains_key(c) ==> after.contains_key(c)
                        && self.archived_dnf_rows@[c] == after[c],
                forall|c: u64|
                    first.contains_key(c) && !is_active(entries@, c)
                        ==> #[trigger] self.archived_dnf_rows@.contains_key(c),
                forall|k: int|
                    0 <= k < j && !is_active(entries@, #[trigger] last_ids@[k])
                        ==> self.archived_dnf_rows@.contains_key(last_ids@[k]),
                *self == (OfficialRaceCache {
                    archived_dnf_rows: self.archived_dnf_rows,
                    ..*old(self)
                }),
            decreases last_ids@.len() - j,
        {
            let car_id: u64 = last_ids[j];
            let ghost prior = self.archived_dnf_rows@;
            proof {
                assert(last_ids@.contains(car_id));
            }
            if !has_id(ids, car_id) && !self.archived_dnf_rows.contains_key(car_id) {
                match self.last_active_rows.get(car_id) {
                    Some(row) => {
                        let mut dnf: OfficialRaceTableEntry = row.clone();
                        dnf.status = RaceTableEntryStatus::Dnf;
                        self.archived_dnf_rows.insert(car_id, dnf);
                    },
                    None => {},
                }
            }
            proof {
                assert forall|c: u64| #[trigger] self.archived_dnf_rows@.contains_key(
                    c,
                ) implies after.contains_key(c) && self.archived_dnf_rows@[c] == after[c] by {
                    if c != car_id {
                        assert(prior.contains_key(c));
                    } else if prior.contains_key(c) {
                        assert(after.contains_key(c));
                    } else {
                        assert(!first.contains_key(c) || is_active(entries@, c));
                    }
                }
                assert forall|c: u64|
                    first.contains_key(c) && !is_active(
                        entries@,
                        c,
                    ) implies #[trigger] self.archived_dnf_rows@.contains_key(c) by {
                    assert(prior.contains_key(c));
                }
                assert forall|k: int|
                    0 <= k < j + 1 && !is_active(
                        entries@,
                        #[trigger] last_ids@[k],
                    ) implies self.archived_dnf_rows@.contains_key(last_ids@[k]) by {
                    if k < j {
                        assert(prior.contains_key(last_ids@[k]));
                    }
                }
            }
            j += 1;
        }
        proof {
            assert forall|c: u64| after.contains_key(c) implies #[trigger]
            self.archived_dnf_rows@.contains_key(c) by {
                if !first.contains_key(c) {
                    assert(last_ids@.contains(c));
                    let k = choose|k: int| 0 <= k < last_ids@.len() && last_ids@[k] == c;
                    assert(!is_active(entries@, last_ids@[k]));
                }
            }
            assert(self.archived_dnf_rows@ =~= after);
        }
    }
}

fn take_trajectory(trajectories: IdMap<Trajectory>, car_id: u64) -> (r: (
    Option<Trajectory>,
    IdMap<Trajectory>,
))
    ensures
        r.0 is Some <==> trajectories@.contains_key(car_id),
        r.0 is Some ==> r.0->Some_0 == trajectories@[car_id],
        r.1@ == trajectories@.remove(car_id),
{
    let mut rest: IdMap<Trajectory> = trajectories;
    let found: Option<Trajectory> = rest.take(car_id);
    (found, rest)
}

fn car_ids_of(entries: &Vec<ActiveEntrySample>) -> (r: Vec<u64>)
    ensures
        r@.len() == entries@.len(),
        forall|i: int| 0 <= i < r@.len() ==> #[trigger] r@[i] == entries@[i].row.car_id,
        forall|c: u64| #[trigger] r@.contains(c) <==> is_active(entries@, c),
{
    let mut r: Vec<u64> = Vec::new();
    let mut i: usize = 0;
    while i < entries.len()
        invariant
            i <= entries@.len(),
            r@.len() == i,
            forall|k: int| 0 <= k < i ==> #[trigger] r@[k] == entries@[k].row.car_id,
        decreases entries@.len() - i,
    {
        r.push(entries[i].row.car_id);
        i += 1;
    }
    proof {
        assert forall|c: u64| #[trigger] r@.contains(c) <==> is_active(entries@, c) by {
            if r@.contains(c) {
                let k = choose|k: int| 0 <= k < r@.len() && r@[k] == c;
                assert(entries@[k].row.car_id == c);
            }
            if is_active(entries@, c) {
                let k = choose|k: int|
                    0 <= k < entries@.len() && (#[trigger] entries@[k]).row.car_id == c;
                assert(r@[k] == c);
            }
        }
    }
    r
}

fn rows_by_car(rows: &Vec<OfficialRaceTableEntry>) -> (r: IdMap<OfficialRaceTableEntry>)
    requires
        forall|i: int, j: int|
            #![trigger rows@[i], rows@[j]]
            0 <= i < j < rows@.len() ==> rows@[i].car_id != rows@[j].car_id,
    ensures
        forall|c: u64| #[trigger]
            r@.contains_key(c) <==> exists|i: int|
                0 <= i < rows@.len() && (#[trigger] rows@[i]).car_id == c,
        forall|i: int| 0 <= i < rows@.len() ==> r@[(#[trigger] rows@[i]).car_id] == rows@[i],
{
    let mut r: IdMap<OfficialRaceTableEntry> = IdMap::new();
    let mut n: usize = 0;
    while n < rows.len()
        invariant
            n <= rows@.len(),
            forall|i: int, j: int|
                #![trigger rows@[i], rows@[j]]
                0 <= i < j < rows@.len() ==> rows@[i].car_id != rows@[j].car_id,
            forall|c: u64| #[trigger]
                r@.contains_key(c) <==> exists|i: int|
                    0 <= i < n && (#[trigger] rows@[i]).car_id == c,
            forall|i: int| 0 <= i < n ==> r@[(#[trigger] rows@[i]).car_id] == rows@[i],
        decreases rows@.len() - n,
    {
        let ghost prior = r@;
        r.insert(rows[n].car_id, rows[n].clone());
        proof {
            let id = rows@[n as int].car_id;
            assert forall|c: u64| #[trigger] r@.contains_key(c) <==> exists|i: int|
                0 <= i < n + 1 && (#[trigger] rows@[i]).car_id == c by {
                if prior.contains_key(c) {
                    let i = choose|i: int| 0 <= i < n && (#[trigger] rows@[i]).car_id == c;
                    assert(rows@[i].car_id == c);
                }
                if exists|i: int| 0 <= i < n + 1 && (#[trigger] rows@[i]).car_id == c {
                    let i = choose|i: int| 0 <= i < n + 1 && (#[trigger] rows@[i]).car_id == c;
                    if i < n {
                        assert(prior.contains_key(c));
                    }
                }
                assert(rows@[n as int].car_id == id);
            }
        }
        n += 1;
    }
    r
}

/// Gives the teams their names.
pub fn name_official_teams(
    rows: &mut Vec<OfficialRaceTableEntry>,
    team_names: Option<&TextMap<String>>,
)
    ensures
        final(rows)@.len() == old(rows)@.len(),
        forall|i: int|
            0 <= i < old(rows)@.len() ==> {
                let row = #[trigger] final(rows)@[i];
                &&& row.team.team_name@ == team_name_of(
                    old(rows)@[i].team.team_id@,
                    match team_names {
                        Some(names) => Some(names@),
                        None => None,
                    },
                )
                &&& row == (OfficialRaceTableEntry {
                    team: TeamIdentity {
                        team_name: row.team.team_name,
                        ..old(rows)@[i].team
                    },
                    ..old(rows)@[i]
                })
            },
{
    let ghost first = rows@;
    let mut i: usize = 0;
    while i < rows.len()
        invariant
            i <= rows@.len(),
            rows@.len() == first.len(),
            forall|k: int|
                0 <= k < i ==> {
                    let row = #[trigger] rows@[k];
                    &&& row.team.team_name@ == team_name_of(
                        first[k].team.team_id@,
                        match team_names {
                            Some(names) => Some(names@),
                            None => None,
                        },
                    )
                    &&& row == (OfficialRaceTableEntry {
                        team: TeamIdentity { team_name: row.team.team_name, ..first[k].team },
                        ..first[k]
                    })
                },
            forall|k: int| i <= k < first.len() ==> #[trigger] rows@[k] == first[k],
        decreases rows@.len() - i,
    {
        let name: String = resolve_team_name(rows[i].team.team_id.as_str(), team_names);
        rows[i].team.team_name = name;
        i += 1;
    }
}

/// A car is never shown twice: one that takes part is not archived.
pub proof fn no_car_is_active_and_archived(
    archived: Map<u64, OfficialRaceTableEntry>,
    last_active: Map<u64, OfficialRaceTableEntry>,
    entries: Seq<ActiveEntrySample>,
    car_id: u64,
)
    requires
        is_active(entries, car_id),
    ensures
        !archived_after(archived, last_active, entries).contains_key(car_id),
{
}

/// A car that was in the last table stays in the table: it takes part, or it did not
/// finish.
pub proof fn no_car_is_lost(
    archived: Map<u64, OfficialRaceTableEntry>,
    last_active: Map<u64, OfficialRaceTableEntry>,
    entries: Seq<ActiveEntrySample>,
    car_id: u64,
)
    requires
        last_active.contains_key(car_id) || archived.contains_key(car_id),
    ensures
        is_active(entries, car_id) || archived_after(
            archived,
            last_active,
            entries,
        ).contains_key(car_id),
{
}

/// What the row of a car that takes part says: it is the car's own, with the laps that the
/// leader has more than the car. The leader's gap is nothing. No gap is shown of a car that
/// has not crossed the line or is more than one lap behind. Until the leader, with two
/// points, is more than a metre from its start, the other gaps are nothing; from then on
/// they are what was read off, or else what was known last.
pub proof fn rows_count_from_the_leader(
    entries: Seq<ActiveEntrySample>,
    trajectories: Map<u64, Trajectory>,
    measured: Seq<Option<u32>>,
    last_gaps: Map<u64, u32>,
    archived: Map<u64, OfficialRaceTableEntry>,
    rows: Seq<OfficialRaceTableEntry>,
    i: int,
)
    requires
        measured.len() == entries.len(),
        0 <= i < entries.len() <= u32::MAX,
        is_table(
            rows,
            entries,
            table_gaps(entries, leader_moves(trajectories, entries), measured, last_gaps),
            archived,
        ),
    ensures
        rows[i].car_id == entries[i].row.car_id,
        rows[i].team == entries[i].row.team,
        rows[i].in_pit == entries[i].row.in_pit,
        rows[i].position == i + 1,
        entries[i].completed_laps + rows[i].laps_behind == entries[0].completed_laps || (
        rows[i].laps_behind == 0 && entries[i].completed_laps > entries[0].completed_laps),
        i == 0 ==> rows[i].gap_to_leader_ms == Some(0u32),
        i > 0 && entries[i].hide_gap_to_leader ==> rows[i].gap_to_leader_ms is None,
        i > 0 && entries[i].completed_laps + 1 < entries[0].completed_laps
            ==> rows[i].gap_to_leader_ms is None,
        i > 0 && !entries[i].hide_gap_to_leader && entries[i].completed_laps + 1
            >= entries[0].completed_laps ==> {
            let leader = entries[0].row.car_id;
            let car = entries[i].row.car_id;
            let moves = trajectories.contains_key(leader) && trajectories[leader]@.len() >= 2
                && entries[0].progress > 0x3ff0_0000_0000_0000;
            &&& !moves ==> rows[i].gap_to_leader_ms == Some(0u32)
            &&& moves && measured[i] is Some ==> rows[i].gap_to_leader_ms == measured[i]
            &&& moves && measured[i] is None && last_gaps.contains_key(car)
                ==> rows[i].gap_to_leader_ms == Some(last_gaps[car])
            &&& moves && measured[i] is None && !last_gaps.contains_key(car)
                ==> rows[i].gap_to_leader_ms is None
        },
{
    let gaps = table_gaps(entries, leader_moves(trajectories, entries), measured, last_gaps);
    let ids = choose|ids: Seq<u64>| is_table_with(rows, entries, gaps, archived, ids);
    assert(rows[i] == placed_row(active_row(entries, i, gaps[i]), i, entries.len() as int));
}

/// Only the gap of a car that can have one to measure is looked for among the leader's
/// points: a later car, over the line and at most one lap behind, in a field that moves.
pub proof fn gaps_are_measured_close_behind(
    entries: Seq<ActiveEntrySample>,
    i: int,
    moves: bool,
)
    requires
        0 <= i < entries.len(),
    ensures
        is_measured(entries, i, moves) <==> i > 0 && moves && !entries[i].hide_gap_to_leader
            && entries[0].completed_laps <= entries[i].completed_laps + 1,
        unmeasured_gap(entries, i) is None <==> i > 0 && (entries[i].hide_gap_to_leader
            || entries[0].completed_laps > entries[i].completed_laps + 1),
        unmeasured_gap(entries, i) matches Some(gap) ==> gap == 0,
{
}

/// A car that leaves stays in the table with what its row said last, as one that did not
/// finish; what the rows of earlier leavers say does not change, and a car that is back is
/// none of them any more.
pub proof fn leaver_keeps_its_last_row(
    archived: Map<u64, OfficialRaceTableEntry>,
    last_active: Map<u64, OfficialRaceTableEntry>,
    entries: Seq<ActiveEntrySample>,
    car_id: u64,
)
    ensures
        ({
            let after = archived_after(archived, last_active, entries);
            let is_back = exists|i: int|
                0 <= i < entries.len() && (#[trigger] entries[i]).row.car_id == car_id;
            &&& is_back ==> !after.contains_key(car_id)
            &&& !is_back && archived.contains_key(car_id) ==> after.contains_key(car_id)
                && after[car_id] == archived[car_id]
            &&& !is_back && !archived.contains_key(car_id) && last_active.contains_key(car_id) ==> {
                &&& after.contains_key(car_id)
                &&& after[car_id].status == RaceTableEntryStatus::Dnf
                &&& after[car_id].car_id == last_active[car_id].car_id
                &&& after[car_id].team == last_active[car_id].team
                &&& after[car_id].laps_behind == last_active[car_id].laps_behind
                &&& after[car_id].gap_to_leader_ms == last_active[car_id].gap_to_leader_ms
            }
            &&& !archived.contains_key(car_id) && !last_active.contains_key(car_id)
                ==> !after.contains_key(car_id)
        }),
{
}

/// The row of a car that did not finish says of its team, its laps and its gap what was
/// archived of it, and stands behind all who take part.
pub proof fn unfinished_rows_are_the_archived_ones(
    entries: Seq<ActiveEntrySample>,
    gaps: Seq<Option<u32>>,
    archived: Map<u64, OfficialRaceTableEntry>,
    rows: Seq<OfficialRaceTableEntry>,
    car_id: u64,
)
    requires
        is_table(rows, entries, gaps, archived),
        rows_stand_by_car(archived),
        archived.contains_key(car_id),
        rows.len() <= u32::MAX,
    ensures
        exists|i: int|
            {
                &&& entries.len() <= i < rows.len()
                &&& (#[trigger] rows[i]).car_id == car_id
                &&& rows[i].team == archived[car_id].team
                &&& rows[i].laps_behind == archived[car_id].laps_behind
                &&& rows[i].gap_to_leader_ms == archived[car_id].gap_to_leader_ms
                &&& rows[i].status == RaceTableEntryStatus::Dnf
                &&& !rows[i].in_pit
                &&& rows[i].position == i + 1
            },
        forall|i: int|
            entries.len() <= i < rows.len() ==> archived.contains_key((#[trigger] rows[i]).car_id),
{
    let ids = choose|ids: Seq<u64>| is_table_with(rows, entries, gaps, archived, ids);
    let n = entries.len() as int;
    assert(ids.contains(car_id));
    let j = choose|j: int| 0 <= j < ids.len() && ids[j] == car_id;
    assert(rows[n + j] == placed_row(archived[ids[j]], n + j, n));
    assert(archived[car_id].car_id == car_id);
    assert forall|i: int| n <= i < rows.len() implies archived.contains_key(
        (#[trigger] rows[i]).car_id,
    ) by {
        let k = i - n;
        assert(rows[n + k] == placed_row(archived[ids[k]], n + k, n));
        assert(ids.contains(ids[k]));
    }
}

/// A gap that was shown is the last known one: while nothing can be read off, the car's
/// next row shows it again.
pub proof fn last_gap_stands(
    last_gaps: Map<u64, u32>,
    entries: Seq<ActiveEntrySample>,
    gaps: Seq<Option<u32>>,
    after: Map<u64, u32>,
    next: Seq<ActiveEntrySample>,
    i: int,
    k: int,
    moves: bool,
)
    requires
        gaps_after(last_gaps, entries, gaps, after),
        0 < i < entries.len(),
        gaps[i] is Some,
        0 < k < next.len(),
        next[k].row.car_id == entries[i].row.car_id,
        is_measured(next, k, moves),
    ensures
        shown_gap(next, k, moves, None, after) == gaps[i],
{
    let c = entries[i].row.car_id;
    assert(after.contains_key(c));
}

/// What is known of gaps is known of cars that take part; a car that has not crossed the
/// line and shows no gap has none.
pub proof fn gaps_are_forgotten(
    last_gaps: Map<u64, u32>,
    entries: Seq<ActiveEntrySample>,
    gaps: Seq<Option<u32>>,
    after: Map<u64, u32>,
    car_id: u64,
)
    requires
        gaps_after(last_gaps, entries, gaps, after),
    ensures
        after.contains_key(car_id) ==> exists|i: int|
            0 <= i < entries.len() && (#[trigger] entries[i]).row.car_id == car_id,
        forall|i: int|
            0 < i < entries.len() && (#[trigger] entries[i]).row.car_id == car_id
                && entries[i].hide_gap_to_leader && gaps[i] is None ==> !after.contains_key(
                car_id,
            ),
        forall|i: int|
            0 < i < entries.len() && (#[trigger] entries[i]).row.car_id == car_id
                && !entries[i].hide_gap_to_leader && gaps[i] is None ==> after.contains_key(car_id)
                == last_gaps.contains_key(car_id) && (after.contains_key(car_id) ==> after[car_id]
                == last_gaps[car_id]),
{
    if after.contains_key(car_id) {
        assert(is_active(entries, car_id));
    }
    assert forall|i: int|
        0 < i < entries.len() && (#[trigger] entries[i]).row.car_id == car_id
            && !entries[i].hide_gap_to_leader && gaps[i] is None implies after.contains_key(car_id)
        == last_gaps.contains_key(car_id) && (after.contains_key(car_id) ==> after[car_id]
        == last_gaps[car_id]) by {
    }
}

/// The race is another one when its name is another or when it is more than a tenth of a
/// second younger than it was, and in no other case.
pub proof fn younger_race_is_another(
    cache: OfficialRaceCache,
    marker: Seq<char>,
    race_elapsed_ms: u64,
)
    ensures
        cache.session_marker is None ==> cache.is_other_race(marker, race_elapsed_ms),
        cache.session_marker matches Some(m) ==> {
            &&& m@ != marker ==> cache.is_other_race(marker, race_elapsed_ms)
            &&& m@ == marker ==> (cache.is_other_race(marker, race_elapsed_ms) <==> (
            cache.last_race_elapsed_ms matches Some(previous) && previous - race_elapsed_ms > 100))
        },
{
}

/// A race that begins afresh knows of nobody: no car did not finish, every car starts where
/// it is, has no points and no gap, while a race that goes on remembers what it did.
pub proof fn fresh_race_knows_nobody(
    cache: OfficialRaceCache,
    before: OfficialRaceCache,
    entries: Seq<ActiveEntrySample>,
    car_ids: Seq<u64>,
    progress: Seq<u64>,
    i: int,
    car_id: u64,
)
    requires
        0 <= i < car_ids.len() == progress.len(),
    ensures
        cache.has_no_cars() ==> {
            &&& !archived_after(
                cache.archived_dnf_rows@,
                cache.last_active_rows@,
                entries,
            ).contains_key(car_id)
            &&& start_of(cache.car_start_progress@, car_ids, progress, i) == progress[i]
            &&& cache.points_of(car_id).len() == 0
            &&& !cache.last_computed_gap_ms@.contains_key(car_id)
            &&& !leader_moves(cache.car_trajectories@, entries)
        },
        cache.has_cars_of(before) ==> {
            &&& cache.archived_dnf_rows@ == before.archived_dnf_rows@
            &&& cache.last_active_rows@ == before.last_active_rows@
            &&& cache.car_start_progress@ == before.car_start_progress@
            &&& cache.points_of(car_id) == before.points_of(car_id)
            &&& cache.last_computed_gap_ms@ == before.last_computed_gap_ms@
        },
{
}

/// A car starts where it was when it was first seen; what is found is what is remembered,
/// and of cars that take no part nothing is.
pub proof fn starts_are_remembered(
    starts: Map<u64, u64>,
    car_ids: Seq<u64>,
    progress: Seq<u64>,
    i: int,
    other: u64,
)
    requires
        0 <= i < car_ids.len() == progress.len(),
        car_ids.no_duplicates(),
    ensures
        starts.contains_key(car_ids[i]) ==> start_of(starts, car_ids, progress, i)
            == starts[car_ids[i]],
        !starts.contains_key(car_ids[i]) ==> start_of(starts, car_ids, progress, i) == progress[i],
        starts_after(starts, car_ids, progress).contains_key(car_ids[i]),
        starts_after(starts, car_ids, progress)[car_ids[i]] == start_of(
            starts,
            car_ids,
            progress,
            i,
        ),
        !car_ids.contains(other) ==> !starts_after(starts, car_ids, progress).contains_key(other),
{
    assert(car_ids.contains(car_ids[i]));
    let k = car_ids.index_of(car_ids[i]);
    assert(car_ids[k] == car_ids[i]);
}

/// Samples of different cars have different ids, and a car is among them exactly where one of
/// them has its id.
pub proof fn samples_are_told_apart_by_car(
    entries: Seq<ActiveEntrySample>,
    i: int,
    j: int,
    car_id: u64,
)
    requires
        0 <= i < j < entries.len(),
    ensures
        cars_differ(entries) ==> entries[i].row.car_id != entries[j].row.car_id,
        entries[i].row.car_id == car_id ==> is_active(entries, car_id),
        is_active(entries, car_id) ==> exists|k: int|
            0 <= k < entries.len() && (#[trigger] entries[k]).row.car_id == car_id,
{
}

} // verus!
