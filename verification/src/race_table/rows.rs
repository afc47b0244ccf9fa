//! The rows of race tables: the cars of a sandbox in the order in which they came,
//! and those of a local race in the order in which they run.

use vstd::prelude::*;
use crate::engine::{opt_text, EngineCommandTarget, TargetView};
use crate::mode::BackendMode;
use crate::participant::join::car_label;
use crate::race::frame_hub::RuntimeCarFrame;
use crate::race::runtime_store::{
    opt_identity, IdentityView, RaceRuntimeStore, RuntimeCarIdentity, StoreView,
};
use crate::sorting::{ranked, ranked_is_sorted_permutation, sort_ranked, Ranked};
use crate::text;
use crate::text_map::TextMap;

verus! {

pub const TEAM_NAME_FETCH_FAILED: &'static str = "failed to fetch";

/// Whether a car still takes part.
#[derive(Clone, Copy, PartialEq, Eq, Debug, Structural)]
pub enum RaceTableEntryStatus {
    Active,
    Dnf,
}

#[derive(Debug, PartialEq, Eq)]
pub struct TeamIdentity {
    pub team_id: String,
    pub team_name: String,
}

impl Clone for TeamIdentity {
    fn clone(&self) -> (r: Self)
        ensures
            r == *self,
    {
        TeamIdentity { team_id: self.team_id.clone(), team_name: self.team_name.clone() }
    }
}

#[derive(Debug, PartialEq, Eq)]
pub struct LocalBotIdentity {
    pub user_id: String,
    pub username: String,
    pub bot_index: u32,
}

/// Who a car in a sandbox belongs to.
#[derive(Debug, PartialEq, Eq)]
pub enum SandboxEntryIdentity {
    Team(TeamIdentity),
    LocalBot(LocalBotIdentity),
}

/// The car is registered with the sandbox.
pub fn matches_sandbox_target(sandbox_id: &str, car_target: &EngineCommandTarget) -> (r: bool)
    ensures
        r == (car_target@ == TargetView::Sandbox { sandbox_id: sandbox_id@ }),
{
    match car_target {
        EngineCommandTarget::Sandbox { sandbox_id: car_sandbox_id } => text::str_eq(
            sandbox_id,
            car_sandbox_id.as_str(),
        ),
        EngineCommandTarget::OfficialRace => false,
        EngineCommandTarget::LocalRace { .. } => false,
    }
}

/// The team's id stands for its name until the name is known.
pub open spec fn is_unnamed_team(team: TeamIdentity, team_id: Seq<char>) -> bool {
    team.team_id@ == team_id && team.team_name@ == team_id
}

/// A bot without a user is named after its car, and one without an index numbered
/// by it.
pub open spec fn is_bot_identity(
    bot: LocalBotIdentity,
    car_id: u64,
    identity: Option<IdentityView>,
) -> bool {
    let user = match identity {
        Some(i) => match i.subject {
            Some(subject) => subject,
            None => "car-"@ + text::decimal(car_id as nat),
        },
        None => "car-"@ + text::decimal(car_id as nat),
    };
    let by_car: u32 = if car_id > u32::MAX {
        u32::MAX
    } else {
        car_id as u32
    };
    &&& bot.user_id@ == user
    &&& bot.username@ == user
    &&& bot.bot_index == match identity {
        Some(i) => match i.local_bot_index {
            Some(index) => index,
            None => by_car,
        },
        None => by_car,
    }
}

/// A team's car shows the team, except in a local backend; every other car shows a
/// bot.
pub open spec fn is_sandbox_identity(
    r: SandboxEntryIdentity,
    mode: BackendMode,
    car_id: u64,
    identity: Option<IdentityView>,
) -> bool {
    let team_id = match identity {
        Some(i) => i.team_id,
        None => None,
    };
    if !mode.local() && team_id is Some {
        r matches SandboxEntryIdentity::Team(team) && is_unnamed_team(team, team_id->Some_0)
    } else {
        r matches SandboxEntryIdentity::LocalBot(bot) && is_bot_identity(bot, car_id, identity)
    }
}

pub fn local_bot_identity(car_id: u64, identity: &Option<RuntimeCarIdentity>) -> (r:
    LocalBotIdentity)
    ensures
        is_bot_identity(r, car_id, opt_identity(*identity)),
{
    let by_car: u32 = if car_id > u32::MAX as u64 {
        u32::MAX
    } else {
        car_id as u32
    };
    let user: String = match identity {
        Some(i) => match &i.subject {
            Some(subject) => subject.clone(),
            None => car_label(car_id),
        },
        None => car_label(car_id),
    };
    let bot_index: u32 = match identity {
        Some(i) => match i.local_bot_index {
            Some(index) => index,
            None => by_car,
        },
        None => by_car,
    };
    LocalBotIdentity { user_id: user.clone(), username: user, bot_index }
}

pub fn identity_for_sandbox_entry(
    mode: BackendMode,
    car_id: u64,
    identity: &Option<RuntimeCarIdentity>,
) -> (r: SandboxEntryIdentity)
    ensures
        is_sandbox_identity(r, mode, car_id, opt_identity(*identity)),
{
    if !mode.is_local() {
        match identity {
            Some(i) => match &i.team_id {
                Some(team_id) => {
                    return SandboxEntryIdentity::Team(
                        TeamIdentity { team_id: team_id.clone(), team_name: team_id.clone() },
                    );
                },
                None => {},
            },
            None => {},
        }
    }
    SandboxEntryIdentity::LocalBot(local_bot_identity(car_id, identity))
}

#[derive(Debug, PartialEq, Eq)]
pub struct SandboxRaceTableEntry {
    pub car_id: u64,
    pub identity: SandboxEntryIdentity,
}

/// The known car is registered with the sandbox.
pub open spec fn is_sandbox_car(s: StoreView, sandbox_id: Seq<char>, car_id: u64) -> bool {
    s.record(car_id).known && s.record(car_id).target == Some(TargetView::Sandbox { sandbox_id })
}

/// The table of a sandbox: its cars in the order in which they joined, which is that
/// of their ids.
pub fn build_sandbox_entries(
    store: &RaceRuntimeStore,
    mode: BackendMode,
    sandbox_id: &str,
) -> (r: Vec<SandboxRaceTableEntry>)
    ensures
        forall|i: int|
            0 <= i < r@.len() ==> is_sandbox_car(
                store@,
                sandbox_id@,
                (#[trigger] r@[i]).car_id,
            ) && is_sandbox_identity(
                r@[i].identity,
                mode,
                r@[i].car_id,
                store@.record(r@[i].car_id).identity,
            ),
        forall|i: int, j: int|
            #![trigger r@[i], r@[j]]
            0 <= i < j < r@.len() ==> r@[i].car_id < r@[j].car_id,
        forall|c: u64| #[trigger]
            is_sandbox_car(store@, sandbox_id@, c) ==> exists|i: int|
                0 <= i < r@.len() && (#[trigger] r@[i]).car_id == c,
{
    let ids: Vec<u64> = store.known_car_ids();
    let mut r: Vec<SandboxRaceTableEntry> = Vec::new();
    let mut n: usize = 0;
    while n < ids.len()
        invariant
            n <= ids@.len(),
            forall|a: int, b: int| 0 <= a < b < ids@.len() ==> ids@[a] < ids@[b],
            forall|c: u64| #[trigger] ids@.contains(c) <==> store@.record(c).known,
            forall|i: int|
                0 <= i < r@.len() ==> is_sandbox_car(
                    store@,
                    sandbox_id@,
                    (#[trigger] r@[i]).car_id,
                ) && is_sandbox_identity(
                    r@[i].identity,
                    mode,
                    r@[i].car_id,
                    store@.record(r@[i].car_id).identity,
                ) && n > 0 && r@[i].car_id <= ids@[n - 1],
            forall|i: int, j: int|
                #![trigger r@[i], r@[j]]
                0 <= i < j < r@.len() ==> r@[i].car_id < r@[j].car_id,
            forall|a: int|
                0 <= a < n && is_sandbox_car(store@, sandbox_id@, #[trigger] ids@[a])
                    ==> exists|i: int| 0 <= i < r@.len() && (#[trigger] r@[i]).car_id == ids@[a],
        decreases ids@.len() - n,
    {
        let id: u64 = ids[n];
        let ghost before = r@;
        proof {
            assert(ids@.contains(id));
            if n > 0 {
                assert(ids@[n - 1] < ids@[n as int]);
            }
        }
        let is_here = match store.car_target(id) {
            Some(target) => matches_sandbox_target(sandbox_id, &target),
            None => false,
        };
        if is_here {
            let identity: Option<RuntimeCarIdentity> = store.car_identity(id);
            r.push(
                SandboxRaceTableEntry {
                    car_id: id,
                    identity: identity_for_sandbox_entry(mode, id, &identity),
                },
            );
        }
        proof {
            assert forall|a: int|
                0 <= a < n + 1 && is_sandbox_car(
                    store@,
                    sandbox_id@,
                    #[trigger] ids@[a],
                ) implies exists|i: int|
                0 <= i < r@.len() && (#[trigger] r@[i]).car_id == ids@[a] by {
                if a < n {
                    let i = choose|i: int|
                        0 <= i < before.len() && (#[trigger] before[i]).car_id == ids@[a];
                    assert(r@[i].car_id == ids@[a]);
                } else {
                    assert(r@[before.len() as int].car_id == id);
                }
            }
        }
        n += 1;
    }
    proof {
        assert forall|c: u64| #[trigger] is_sandbox_car(
            store@,
            sandbox_id@,
            c,
        ) implies exists|i: int| 0 <= i < r@.len() && (#[trigger] r@[i]).car_id == c by {
            assert(ids@.contains(c));
            let a = choose|a: int| 0 <= a < ids@.len() && ids@[a] == c;
            assert(is_sandbox_car(store@, sandbox_id@, ids@[a]));
        }
    }
    r
}

/// The name of a team, where the names could be fetched and the team is among them.
pub open spec fn team_name_of(team_id: Seq<char>, names: Option<Map<Seq<char>, String>>) -> Seq<
    char,
> {
    match names {
        Some(names) => if names.contains_key(team_id) {
            names[team_id]@
        } else {
            TEAM_NAME_FETCH_FAILED@
        },
        None => TEAM_NAME_FETCH_FAILED@,
    }
}

pub fn resolve_team_name(team_id: &str, team_names: Option<&TextMap<String>>) -> (r: String)
    ensures
        r@ == team_name_of(
            team_id@,
            match team_names {
                Some(names) => Some(names@),
                None => None,
            },
        ),
{
    match team_names {
        Some(names) => match names.get(team_id) {
            Some(name) => name.clone(),
            None => TEAM_NAME_FETCH_FAILED.to_owned(),
        },
        None => TEAM_NAME_FETCH_FAILED.to_owned(),
    }
}

/// Gives the teams among the entries of a sandbox their names.
pub fn name_sandbox_teams(
    entries: Vec<SandboxRaceTableEntry>,
    team_names: Option<&TextMap<String>>,
) -> (r: Vec<SandboxRaceTableEntry>)
    ensures
        r@.len() == entries@.len(),
        forall|i: int|
            0 <= i < r@.len() ==> {
                &&& (#[trigger] r@[i]).car_id == entries@[i].car_id
                &&& match entries@[i].identity {
                    SandboxEntryIdentity::Team(team) => r@[i].identity matches
                        SandboxEntryIdentity::Team(t) && t.team_id == team.team_id
                        && t.team_name@ == team_name_of(
                        team.team_id@,
                        match team_names {
                            Some(names) => Some(names@),
                            None => None,
                        },
                    ),
                    SandboxEntryIdentity::LocalBot(_) => r@[i].identity == entries@[i].identity,
                }
            },
{
    let mut rest: Vec<SandboxRaceTableEntry> = entries;
    let mut r: Vec<SandboxRaceTableEntry> = Vec::new();
    let ghost all = rest@;
    while rest.len() > 0
        invariant
            r@.len() + rest@.len() == all.len(),
            rest@ == all.skip(r@.len() as int),
            forall|i: int|
                0 <= i < r@.len() ==> {
                    &&& (#[trigger] r@[i]).car_id == all[i].car_id
                    &&& match all[i].identity {
                        SandboxEntryIdentity::Team(team) => r@[i].identity matches
                            SandboxEntryIdentity::Team(t) && t.team_id == team.team_id
                            && t.team_name@ == team_name_of(
                            team.team_id@,
                            match team_names {
                                Some(names) => Some(names@),
                                None => None,
                            },
                        ),
                        SandboxEntryIdentity::LocalBot(_) => r@[i].identity == all[i].identity,
                    }
                },
        decreases rest@.len(),
    {
        let entry: SandboxRaceTableEntry = rest.remove(0);
        proof {
            assert(rest@ =~= all.skip((r@.len() + 1) as int));
        }
        let identity = match entry.identity {
            SandboxEntryIdentity::Team(team) => {
                let team_name: String = resolve_team_name(team.team_id.as_str(), team_names);
                SandboxEntryIdentity::Team(TeamIdentity { team_id: team.team_id, team_name })
            },
            SandboxEntryIdentity::LocalBot(bot) => SandboxEntryIdentity::LocalBot(bot),
        };
        r.push(SandboxRaceTableEntry { car_id: entry.car_id, identity });
    }
    r
}

/// Who drives in a local race.
#[derive(Debug, PartialEq, Eq)]
pub struct LocalRaceParticipantIdentity {
    pub display_name: String,
    pub participant_index: u32,
}

/// The driver as the car's identity names them; a driver without a name is named
/// after the car.
pub fn local_participant(car_id: u64, identity: &Option<RuntimeCarIdentity>) -> (r: Option<
    LocalRaceParticipantIdentity,
>)
    ensures
        match identity {
            None => r is None,
            Some(i) => r matches Some(p) && p.display_name@ == (match opt_text(
                i.local_race_display_name,
            ) {
                Some(name) => name,
                None => "car-"@ + text::decimal(car_id as nat),
            }) && p.participant_index == (match i.local_race_participant_index {
                Some(index) => index,
                None => 0,
            }),
        },
{
    match identity {
        None => None,
        Some(i) => {
            let display_name: String = match &i.local_race_display_name {
                Some(name) => name.clone(),
                None => car_label(car_id),
            };
            let participant_index: u32 = match i.local_race_participant_index {
                Some(index) => index,
                None => 0,
            };
            Some(LocalRaceParticipantIdentity { display_name, participant_index })
        },
    }
}

/// The car is timed and registered with the target.
pub open spec fn is_table_car<T>(car: RuntimeCarFrame<T>, target: TargetView) -> bool {
    car.target@ == target && car.race_metrics is Some
}

/// The cars of a frame that stand in the table of the target, by their places in the
/// frame.
pub fn find_table_cars<T>(cars: &Vec<RuntimeCarFrame<T>>, target: &EngineCommandTarget) -> (r: Vec<
    usize,
>)
    ensures
        forall|i: int|
            0 <= i < r@.len() ==> (#[trigger] r@[i]) < cars@.len() && is_table_car(
                cars@[r@[i] as int],
                target@,
            ),
        forall|i: int, j: int| 0 <= i < j < r@.len() ==> r@[i] < r@[j],
        forall|k: int|
            0 <= k < cars@.len() && is_table_car(#[trigger] cars@[k], target@) ==> r@.contains(
                k as usize,
            ),
{
    let mut r: Vec<usize> = Vec::new();
    let mut n: usize = 0;
    while n < cars.len()
        invariant
            n <= cars@.len(),
            forall|i: int|
                0 <= i < r@.len() ==> (#[trigger] r@[i]) < n && is_table_car(
                    cars@[r@[i] as int],
                    target@,
                ),
            forall|i: int, j: int| 0 <= i < j < r@.len() ==> r@[i] < r@[j],
            forall|k: int|
                0 <= k < n && is_table_car(#[trigger] cars@[k], target@) ==> r@.contains(
                    k as usize,
                ),
        decreases cars@.len() - n,
    {
        let ghost before = r@;
        if cars[n].target.is_same(target) && cars[n].race_metrics.is_some() {
            r.push(n);
        }
        proof {
            assert forall|k: int|
                0 <= k < n + 1 && is_table_car(#[trigger] cars@[k], target@) implies r@.contains(
                k as usize,
            ) by {
                if k < n {
                    let i = choose|i: int| 0 <= i < before.len() && before[i] == k as usize;
                    assert(r@[i] == k as usize);
                } else {
                    assert(r@[before.len() as int] == k as usize);
                }
            }
        }
        n += 1;
    }
    r
}

#[derive(Debug, PartialEq, Eq)]
pub struct LocalRaceTableEntry {
    pub car_id: u64,
    pub participant: Option<LocalRaceParticipantIdentity>,
    pub position: u32,
    pub gap_to_leader_ms: Option<u32>,
    pub laps_behind: u32,
    pub in_pit: bool,
    pub status: RaceTableEntryStatus,
}

/// A car of a local race: its row and how far it has come. The distance is held by
/// the bit pattern of a number that is not negative.
#[derive(Debug)]
pub struct LocalRaceSample {
    pub completed_laps: u32,
    pub progress: u64,
    pub row: LocalRaceTableEntry,
}

impl Ranked for LocalRaceSample {
    /// Who has come further comes first; then the lower id does.
    open spec fn ranks_before(&self, other: &Self) -> bool {
        self.progress > other.progress || (self.progress == other.progress && self.row.car_id
            < other.row.car_id)
    }

    fn is_before(&self, other: &Self) -> (r: bool) {
        self.progress > other.progress || (self.progress == other.progress && self.row.car_id
            < other.row.car_id)
    }

    proof fn rank_is_asymmetric(a: &Self, b: &Self) {
    }

    proof fn rank_is_transitive(a: &Self, b: &Self, c: &Self) {
    }
}

/// How many laps a car is behind one with more; none behind one with fewer.
pub open spec fn laps_between(leader: u32, laps: u32) -> u32 {
    if leader > laps {
        (leader - laps) as u32
    } else {
        0
    }
}

/// A row at its place in the table; only the leader's gap is shown.
pub open spec fn local_row(sorted: Seq<LocalRaceSample>, i: int) -> LocalRaceTableEntry {
    LocalRaceTableEntry {
        position: (i + 1) as u32,
        laps_behind: laps_between(sorted[0].completed_laps, sorted[i].completed_laps),
        gap_to_leader_ms: if i == 0 {
            Some(0)
        } else {
            None
        },
        ..sorted[i].row
    }
}

/// The table of a local race.
pub fn build_local_race_rows(samples: Vec<LocalRaceSample>) -> (r: Vec<LocalRaceTableEntry>)
    ensures
        r@.len() == ranked(samples@).len(),
        forall|i: int| 0 <= i < r@.len() ==> #[trigger] r@[i] == local_row(ranked(samples@), i),
{
    let sorted: Vec<LocalRaceSample> = sort_ranked(samples);
    let ghost all = sorted@;
    let mut r: Vec<LocalRaceTableEntry> = Vec::new();
    if sorted.len() == 0 {
        return r;
    }
    let leader_laps: u32 = sorted[0].completed_laps;
    let mut rest: Vec<LocalRaceSample> = sorted;
    while rest.len() > 0
        invariant
            all.len() > 0,
            leader_laps == all[0].completed_laps,
            r@.len() + rest@.len() == all.len(),
            rest@ == all.skip(r@.len() as int),
            forall|i: int| 0 <= i < r@.len() ==> #[trigger] r@[i] == local_row(all, i),
        decreases rest@.len(),
    {
        let sample: LocalRaceSample = rest.remove(0);
        proof {
            assert(rest@ =~= all.skip((r@.len() + 1) as int));
        }
        let place: usize = r.len();
        let laps_behind: u32 = leader_laps.saturating_sub(sample.completed_laps);
        let gap_to_leader_ms: Option<u32> = if place == 0 {
            Some(0)
        } else {
            None
        };
        let position: u32 = next_place(place);
        r.push(
            LocalRaceTableEntry {
                car_id: sample.row.car_id,
                participant: sample.row.participant,
                position,
                gap_to_leader_ms,
                laps_behind,
                in_pit: sample.row.in_pit,
                status: sample.row.status,
            },
        );
    }
    r
}

/// The number of the place after `place` others.
pub(crate) fn next_place(place: usize) -> (r: u32)
    ensures
        r == (place + 1) as u32,
{
    let wide: u128 = place as u128 + 1;
    #[verifier::truncate]
    (wide as u32)
}

/// In the table of a local race no car stands behind one that has come less far, and of two
/// that have come equally far the one with the lower id stands in front. The places count up
/// from one, the laps behind are those that the leader has more, only the leader shows a
/// gap, and the rest of a row is the car's own.
pub proof fn local_table_is_by_distance(samples: Seq<LocalRaceSample>)
    requires
        samples.len() <= u32::MAX,
    ensures
        ranked(samples).len() == samples.len(),
        ranked(samples).to_multiset() == samples.to_multiset(),
        forall|i: int, j: int|
            #![trigger ranked(samples)[i], ranked(samples)[j]]
            0 <= i < j < samples.len() ==> ranked(samples)[i].progress
                >= ranked(samples)[j].progress && (ranked(samples)[i].progress
                == ranked(samples)[j].progress ==> ranked(samples)[i].row.car_id <= ranked(
                samples,
            )[j].row.car_id),
        forall|i: int|
            0 <= i < samples.len() ==> {
                let row = #[trigger] local_row(ranked(samples), i);
                let sample = ranked(samples)[i];
                let leader = ranked(samples)[0];
                &&& row.car_id == sample.row.car_id
                &&& row.participant == sample.row.participant
                &&& row.in_pit == sample.row.in_pit
                &&& row.status == sample.row.status
                &&& row.position == i + 1
                &&& i == 0 ==> row.gap_to_leader_ms == Some(0u32)
                &&& i > 0 ==> row.gap_to_leader_ms is None
                &&& sample.completed_laps + row.laps_behind == leader.completed_laps || (
                row.laps_behind == 0 && sample.completed_laps > leader.completed_laps)
            },
{
    ranked_is_sorted_permutation(samples);
    let r = ranked(samples);
    assert forall|i: int, j: int|
        #![trigger r[i], r[j]]
        0 <= i < j < samples.len() implies r[i].progress >= r[j].progress && (r[i].progress
        == r[j].progress ==> r[i].row.car_id <= r[j].row.car_id) by {
        assert(!r[j].ranks_before(&r[i]));
    }
}

/// The laps between two counts are their difference, and none where the second is larger.
pub proof fn laps_between_is_the_difference(leader: u32, laps: u32)
    ensures
        leader >= laps ==> laps + laps_between(leader, laps) == leader,
        leader < laps ==> laps_between(leader, laps) == 0,
{
}

/// A team without a name is shown under its id, and a bot under its user, or under its car
/// where it has none; its number is its own index, or that of its car up to the largest one.
pub proof fn unnamed_drivers_are_shown_by_id(
    team: TeamIdentity,
    team_id: Seq<char>,
    bot: LocalBotIdentity,
    car_id: u64,
    identity: Option<IdentityView>,
)
    ensures
        is_unnamed_team(team, team_id) ==> team.team_id@ == team_id && team.team_name@ == team_id,
        is_bot_identity(bot, car_id, identity) ==> {
            let subject = if identity is Some {
                identity->Some_0.subject
            } else {
                None
            };
            let index = if identity is Some {
                identity->Some_0.local_bot_index
            } else {
                None
            };
            &&& bot.user_id@ == bot.username@
            &&& (subject matches Some(user) ==> bot.user_id@ == user)
            &&& subject is None ==> bot.user_id@ == "car-"@ + text::decimal(car_id as nat)
            &&& (index matches Some(own) ==> bot.bot_index == own)
            &&& index is None && car_id <= u32::MAX ==> bot.bot_index == car_id
            &&& index is None && car_id > u32::MAX ==> bot.bot_index == u32::MAX
        },
{
}

/// A sandbox car shows its team exactly in the official backend and where it has one, and a bot
/// otherwise.
pub proof fn sandbox_cars_show_teams_officially(
    r: SandboxEntryIdentity,
    mode: BackendMode,
    car_id: u64,
    identity: Option<IdentityView>,
)
    requires
        is_sandbox_identity(r, mode, car_id, identity),
    ensures
        (r is Team) == (mode is Official && identity is Some && identity->Some_0.team_id is Some),
        r matches SandboxEntryIdentity::Team(team) ==> Some(team.team_id@)
            == identity->Some_0.team_id && team.team_name@ == team.team_id@,
        r matches SandboxEntryIdentity::LocalBot(bot) ==> is_bot_identity(bot, car_id, identity),
{
}

/// A car stands in the table of a sandbox exactly where it is known and registered with the
/// sandbox, and in that of a race where it takes part in the race and is timed.
pub proof fn table_cars_take_part<T>(
    s: StoreView,
    sandbox_id: Seq<char>,
    car_id: u64,
    car: RuntimeCarFrame<T>,
    target: TargetView,
)
    ensures
        is_sandbox_car(s, sandbox_id, car_id) <==> s.record(car_id).known && s.record(
            car_id,
        ).target == Some(TargetView::Sandbox { sandbox_id }),
        is_table_car(car, target) <==> car.target@ == target && car.race_metrics is Some,
{
}

/// A team has the name that was fetched for it; where none was, that is what is shown.
pub proof fn fetched_names_are_shown(team_id: Seq<char>, names: Option<Map<Seq<char>, String>>)
    ensures
        names matches Some(known) ==> (known.contains_key(team_id) ==> team_name_of(team_id, names)
            == known[team_id]@),
        names is None || !names->Some_0.contains_key(team_id) ==> team_name_of(team_id, names)
            == "failed to fetch"@,
{
}

} // verus!
