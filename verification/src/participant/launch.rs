//! The launch of an official race: team by team, a car is put on the grid and a bot
//! is started for it.

use vstd::prelude::*;
use crate::engine::{opt_text, TargetView};
use crate::float_bits::F32Bits;
use crate::participant::join::{
    fresh_registration, official_identity, register_official_race_runtime_car, };
use crate::participant::official::TeamOfficialRaceBotState;
use crate::participant::registry::OfficialRaceBots;
use crate::race::runtime_store::{with_next_id, RaceRuntimeStore, StoreView};
use crate::status::{Code, Status};
use crate::text;
use crate::text_map::TextMap;

verus! {

/// The last of the slots that a team may fill; the first is 1.
pub const LAST_SLOT: usize = 3;

/// How the launch of a team ended.
#[derive(Clone, Copy, PartialEq, Eq, Debug, Structural)]
pub enum StartStatus {
    Started,
    SkippedGridOverflow,
    SkippedDuplicateTeam,
    SkippedMissingSubmission,
    SkippedRuntimeError,
    SkippedTokenError,
    SkippedContainerError,
}

/// The label of a status in the results.
pub open spec fn status_label(status: StartStatus) -> Seq<char> {
    match status {
        StartStatus::Started => "started"@,
        StartStatus::SkippedGridOverflow => "skipped_grid_overflow"@,
        StartStatus::SkippedDuplicateTeam => "skipped_duplicate_team"@,
        StartStatus::SkippedMissingSubmission => "skipped_missing_submission"@,
        StartStatus::SkippedRuntimeError => "skipped_runtime_error"@,
        StartStatus::SkippedTokenError => "skipped_token_error"@,
        StartStatus::SkippedContainerError => "skipped_container_error"@,
    }
}

impl StartStatus {
    pub fn label(self) -> (r: &'static str)
        ensures
            r@ == status_label(self),
            self is Started ==> r@ == "started"@,
            self is SkippedGridOverflow ==> r@ == "skipped_grid_overflow"@,
            self is SkippedDuplicateTeam ==> r@ == "skipped_duplicate_team"@,
            self is SkippedMissingSubmission ==> r@ == "skipped_missing_submission"@,
            self is SkippedRuntimeError ==> r@ == "skipped_runtime_error"@,
            self is SkippedTokenError ==> r@ == "skipped_token_error"@,
            self is SkippedContainerError ==> r@ == "skipped_container_error"@,
    {
        match self {
            StartStatus::Started => "started",
            StartStatus::SkippedGridOverflow => "skipped_grid_overflow",
            StartStatus::SkippedDuplicateTeam => "skipped_duplicate_team",
            StartStatus::SkippedMissingSubmission => "skipped_missing_submission",
            StartStatus::SkippedRuntimeError => "skipped_runtime_error",
            StartStatus::SkippedTokenError => "skipped_token_error",
            StartStatus::SkippedContainerError => "skipped_container_error",
        }
    }
}

/// How many teams were listed, and how many ended in which way.
#[derive(Clone, Copy, PartialEq, Eq, Debug, Structural)]
pub struct OfficialRaceStartStats {
    pub total_listed: usize,
    pub started: usize,
    pub skipped_grid_overflow: usize,
    pub skipped_duplicate_team: usize,
    pub skipped_missing_submission: usize,
    pub skipped_runtime_error: usize,
    pub skipped_token_error: usize,
    pub skipped_container_error: usize,
}

/// A team's entry in the results of a race.
#[derive(Debug)]
pub struct OfficialRaceTeamResultEntry {
    pub team_id: String,
    pub roster_index: u32,
    pub start_status: StartStatus,
    pub slot_index: Option<i16>,
    pub submission_id: Option<String>,
    pub car_id: Option<u64>,
    pub container_id: Option<String>,
    pub completed_laps: u32,
    pub current_lap_distance_m: Option<F32Bits>,
    pub total_distance_m: Option<F32Bits>,
    pub last_lap_time_ms: Option<u32>,
    pub best_lap_time_ms: Option<u32>,
    pub lap_times_ms: Vec<u32>,
    pub has_started_moving: bool,
    pub last_recorded_completed_laps: u32,
    pub initial_lap_progress_m: Option<F32Bits>,
}

/// A team's entry, by views.
pub struct EntryView {
    pub team_id: Seq<char>,
    pub roster_index: u32,
    pub start_status: StartStatus,
    pub slot_index: Option<i16>,
    pub submission_id: Option<Seq<char>>,
    pub car_id: Option<u64>,
    pub container_id: Option<Seq<char>>,
    pub completed_laps: u32,
    pub current_lap_distance_m: Option<F32Bits>,
    pub total_distance_m: Option<F32Bits>,
    pub last_lap_time_ms: Option<u32>,
    pub best_lap_time_ms: Option<u32>,
    pub lap_times_ms: Seq<u32>,
    pub has_started_moving: bool,
    pub last_recorded_completed_laps: u32,
    pub initial_lap_progress_m: Option<F32Bits>,
}

impl View for OfficialRaceTeamResultEntry {
    type V = EntryView;

    open spec fn view(&self) -> EntryView {
        EntryView {
            team_id: self.team_id@,
            roster_index: self.roster_index,
            start_status: self.start_status,
            slot_index: self.slot_index,
            submission_id: opt_text(self.submission_id),
            car_id: self.car_id,
            container_id: opt_text(self.container_id),
            completed_laps: self.completed_laps,
            current_lap_distance_m: self.current_lap_distance_m,
            total_distance_m: self.total_distance_m,
            last_lap_time_ms: self.last_lap_time_ms,
            best_lap_time_ms: self.best_lap_time_ms,
            lap_times_ms: self.lap_times_ms@,
            has_started_moving: self.has_started_moving,
            last_recorded_completed_laps: self.last_recorded_completed_laps,
            initial_lap_progress_m: self.initial_lap_progress_m,
        }
    }
}

/// The entry of a team that has not driven yet.
pub open spec fn fresh_entry(
    team_id: Seq<char>,
    roster_index: u32,
    start_status: StartStatus,
    slot_index: Option<i16>,
    submission_id: Option<Seq<char>>,
    car_id: Option<u64>,
    container_id: Option<Seq<char>>,
) -> EntryView {
    EntryView {
        team_id,
        roster_index,
        start_status,
        slot_index,
        submission_id,
        car_id,
        container_id,
        completed_laps: 0,
        current_lap_distance_m: None,
        total_distance_m: None,
        last_lap_time_ms: None,
        best_lap_time_ms: None,
        lap_times_ms: Seq::empty(),
        has_started_moving: false,
        last_recorded_completed_laps: 0,
        initial_lap_progress_m: None,
    }
}

/// A submission that a bot can be started from.
#[derive(Debug)]
pub struct Runnable {
    pub slot_index: i16,
    pub submission_id: String,
    pub image_ref: String,
}

/// A succeeded submission in a slot.
#[derive(Debug)]
pub struct SlotSubmission {
    pub submission_id: String,
    pub image_ref: Option<String>,
}

/// The image of a submission, where it names one.
pub open spec fn image_of(submission: SlotSubmission) -> Option<Seq<char>> {
    match submission.image_ref {
        Some(image) => if text::trimmed(image@).len() > 0 {
            Some(text::trimmed(image@))
        } else {
            None
        },
        None => None,
    }
}

fn image_ref_of(submission: &SlotSubmission) -> (r: Option<String>)
    ensures
        opt_text(r) == image_of(*submission),
{
    match &submission.image_ref {
        Some(image) => {
            let trimmed: String = text::trim(image.as_str());
            if trimmed.as_str().is_empty() {
                None
            } else {
                Some(trimmed)
            }
        },
        None => None,
    }
}

/// Submission and image of the selected slot, which must hold both.
pub fn resolve_slot_submission_image(slot_submission: &Option<SlotSubmission>) -> (r: Result<
    (String, String),
    Status,
>)
    ensures
        match slot_submission {
            None => r matches Err(e) && e@ == (
                Code::FailedPrecondition,
                "selected slot does not contain succeeded submission"@,
            ),
            Some(submission) => match image_of(*submission) {
                None => r matches Err(e) && e@ == (
                    Code::FailedPrecondition,
                    "selected slot submission is missing image_ref"@,
                ),
                Some(image) => r matches Ok((id, i)) && id@ == submission.submission_id@ && i@
                    == image,
            },
        },
{
    match slot_submission {
        None => Err(
            Status::failed_precondition("selected slot does not contain succeeded submission"),
        ),
        Some(submission) => match image_ref_of(submission) {
            None => Err(
                Status::failed_precondition("selected slot submission is missing image_ref"),
            ),
            Some(image) => Ok((submission.submission_id.clone(), image)),
        },
    }
}

/// Whether a bot can be started from the slot.
pub open spec fn is_runnable(slot: Option<SlotSubmission>) -> bool {
    slot is Some && image_of(slot->Some_0) is Some
}

/// The lowest slot from which a bot can be started; `slots` holds what is in the
/// slots, from the first one up.
pub fn resolve_lowest_runnable_slot_submission(slots: &Vec<Option<SlotSubmission>>) -> (r: Option<
    Runnable,
>)
    requires
        slots@.len() <= LAST_SLOT,
    ensures
        match r {
            None => forall|i: int| 0 <= i < slots@.len() ==> !is_runnable(#[trigger] slots@[i]),
            Some(run) => {
                let i = run.slot_index - 1;
                &&& 0 <= i < slots@.len()
                &&& is_runnable(slots@[i])
                &&& forall|j: int| 0 <= j < i ==> !is_runnable(#[trigger] slots@[j])
                &&& run.submission_id@ == slots@[i]->Some_0.submission_id@
                &&& Some(run.image_ref@) == image_of(slots@[i]->Some_0)
            },
        },
{
    let mut i: usize = 0;
    while i < slots.len()
        invariant
            i <= slots@.len() <= LAST_SLOT,
            forall|j: int| 0 <= j < i ==> !is_runnable(#[trigger] slots@[j]),
        decreases slots@.len() - i,
    {
        match &slots[i] {
            Some(submission) => match image_ref_of(submission) {
                Some(image_ref) => {
                    let slot_index: i16 = i as i16 + 1;
                    return Some(
                        Runnable {
                            slot_index,
                            submission_id: submission.submission_id.clone(),
                            image_ref,
                        },
                    );
                },
                None => {},
            },
            None => {},
        }
        i += 1;
    }
    None
}

/// A team whose turn it is.
#[derive(Debug)]
pub struct PendingTeam {
    pub team_id: String,
    pub roster_index: u32,
    pub position_index: u64,
}

/// A team whose car is registered.
#[derive(Debug)]
pub struct SpawnedTeam {
    pub team: PendingTeam,
    pub run: Runnable,
    pub public_car_id: u64,
    pub engine_car_id: u64,
}

/// A car that is to be taken back: the container is removed where one is named,
/// the car is despawned, and then `roll_back` ends it.
#[derive(Debug)]
pub struct RollBack {
    pub public_car_id: u64,
    pub engine_car_id: u64,
    pub container_name: Option<String>,
}

/// How a team's launch goes on.
#[derive(Debug)]
pub enum TeamStep {
    GoOn(SpawnedTeam),
    RollBack(RollBack),
}

/// Takes a team's car out of the store after it was despawned.
pub fn roll_back(store: &mut RaceRuntimeStore, plan: &RollBack)
    ensures
        final(store)@ == old(store)@.without_car(plan.public_car_id),
{
    store.remove_car(plan.public_car_id);
}

/// The launch of a race.
#[derive(Debug)]
pub struct LaunchSession {
    pub start_slots: u64,
    pub stats: OfficialRaceStartStats,
    pub teams: Vec<OfficialRaceTeamResultEntry>,
    pub seen_teams: TextMap<()>,
}

/// How many entries have the status.
pub open spec fn count_status(
    teams: Seq<OfficialRaceTeamResultEntry>,
    status: StartStatus,
) -> nat
    decreases teams.len(),
{
    if teams.len() == 0 {
        0
    } else {
        count_status(teams.drop_last(), status) + if teams.last().start_status == status {
            1nat
        } else {
            0nat
        }
    }
}

/// The counters count the entries' statuses.
pub open spec fn counts_statuses(
    stats: OfficialRaceStartStats,
    teams: Seq<OfficialRaceTeamResultEntry>,
) -> bool {
    &&& stats.started == count_status(teams, StartStatus::Started)
    &&& stats.skipped_grid_overflow == count_status(teams, StartStatus::SkippedGridOverflow)
    &&& stats.skipped_duplicate_team == count_status(teams, StartStatus::SkippedDuplicateTeam)
    &&& stats.skipped_missing_submission == count_status(
        teams,
        StartStatus::SkippedMissingSubmission,
    )
    &&& stats.skipped_runtime_error == count_status(teams, StartStatus::SkippedRuntimeError)
    &&& stats.skipped_token_error == count_status(teams, StartStatus::SkippedTokenError)
    &&& stats.skipped_container_error == count_status(teams, StartStatus::SkippedContainerError)
}

/// The entries are numbered as the teams were listed, from 1.
pub open spec fn are_numbered(teams: Seq<OfficialRaceTeamResultEntry>) -> bool {
    forall|i: int| 0 <= i < teams.len() ==> (#[trigger] teams[i]).roster_index == i + 1
}

proof fn lemma_count_is_bounded(teams: Seq<OfficialRaceTeamResultEntry>, status: StartStatus)
    ensures
        count_status(teams, status) <= teams.len(),
    decreases teams.len(),
{
    if teams.len() > 0 {
        lemma_count_is_bounded(teams.drop_last(), status);
    }
}

/// Every listed team has ended in exactly one way: the counters add up to the
/// number of entries.
pub proof fn counters_add_up(
    stats: OfficialRaceStartStats,
    teams: Seq<OfficialRaceTeamResultEntry>,
)
    requires
        counts_statuses(stats, teams),
    ensures
        stats.started + stats.skipped_grid_overflow + stats.skipped_duplicate_team
            + stats.skipped_missing_submission + stats.skipped_runtime_error
            + stats.skipped_token_error + stats.skipped_container_error == teams.len(),
{
    lemma_counts_sum(teams);
}

proof fn lemma_counts_sum(teams: Seq<OfficialRaceTeamResultEntry>)
    ensures
        count_status(teams, StartStatus::Started) + count_status(
            teams,
            StartStatus::SkippedGridOverflow,
        ) + count_status(teams, StartStatus::SkippedDuplicateTeam) + count_status(
            teams,
            StartStatus::SkippedMissingSubmission,
        ) + count_status(teams, StartStatus::SkippedRuntimeError) + count_status(
            teams,
            StartStatus::SkippedTokenError,
        ) + count_status(teams, StartStatus::SkippedContainerError) == teams.len(),
    decreases teams.len(),
{
    if teams.len() > 0 {
        lemma_counts_sum(teams.drop_last());
    }
}

/// What comes of a team when its turn begins.
#[derive(Debug)]
pub enum TurnStart {
    /// The team is skipped, and that is recorded.
    Skipped,
    /// The team's submission is to be looked up.
    FindSubmission(PendingTeam),
}

impl LaunchSession {
    /// No team is under way: every listed team has its entry.
    pub open spec fn is_between_teams(self) -> bool {
        &&& counts_statuses(self.stats, self.teams@)
        &&& are_numbered(self.teams@)
        &&& self.stats.total_listed == self.teams@.len()
    }

    /// The team with the roster index is under way.
    pub open spec fn is_launching(self, team: PendingTeam) -> bool {
        &&& counts_statuses(self.stats, self.teams@)
        &&& are_numbered(self.teams@)
        &&& self.stats.total_listed == self.teams@.len() + 1
        &&& self.teams@.len() < u32::MAX
        &&& team.roster_index == self.teams@.len() + 1
        &&& team.position_index == self.teams@.len() + 1
        &&& team.position_index <= self.start_slots
    }

    /// `self` is `before` with one more entry, which closes the turn of a team.
    pub open spec fn has_recorded(self, before: LaunchSession, entry: EntryView) -> bool {
        &&& self.start_slots == before.start_slots
        &&& self.seen_teams@ == before.seen_teams@
        &&& self.stats.total_listed == before.stats.total_listed
        &&& counts_statuses(self.stats, self.teams@)
        &&& self.teams@.len() == before.teams@.len() + 1
        &&& self.teams@.last()@ == entry
        &&& self.teams@.drop_last() == before.teams@
    }

    /// `self` is `before` with an entry that skips the next team on the roster with the
    /// status.
    pub open spec fn has_skipped(
        self,
        before: LaunchSession,
        team_id: Seq<char>,
        status: StartStatus,
    ) -> bool {
        let place = before.teams@.len() + 1;
        &&& self.start_slots == before.start_slots
        &&& self.teams@.drop_last() == before.teams@
        &&& self.teams@.len() == place
        &&& self.teams@.last()@ == fresh_entry(
            team_id,
            place as u32,
            status,
            None,
            None,
            None,
            None,
        )
        &&& self.seen_teams@ == before.seen_teams@
        &&& self.is_between_teams()
    }

    /// `self` is `before` with the next team on the roster under way.
    pub open spec fn has_begun(
        self,
        before: LaunchSession,
        team_id: Seq<char>,
        team: PendingTeam,
    ) -> bool {
        &&& team.team_id@ == team_id
        &&& self.start_slots == before.start_slots
        &&& self.is_launching(team)
        &&& self.teams@ == before.teams@
        &&& self.seen_teams@ == before.seen_teams@.insert(team_id, ())
    }

    /// A launch onto a grid with the slots, of which there must be one.
    pub fn new(start_slots: u64) -> (r: Result<Self, Status>)
        ensures
            start_slots == 0 ==> (r matches Err(e) && e@ == (
                Code::FailedPrecondition,
                "official race map has no start slots"@,
            )),
            start_slots > 0 ==> (r matches Ok(s) && s.start_slots == start_slots && s.teams@.len()
                == 0 && s.seen_teams@ == Map::<Seq<char>, ()>::empty() && s.is_between_teams()),
    {
        if start_slots == 0 {
            return Err(Status::failed_precondition("official race map has no start slots"));
        }
        Ok(
            LaunchSession {
                start_slots,
                stats: OfficialRaceStartStats {
                    total_listed: 0,
                    started: 0,
                    skipped_grid_overflow: 0,
                    skipped_duplicate_team: 0,
                    skipped_missing_submission: 0,
                    skipped_runtime_error: 0,
                    skipped_token_error: 0,
                    skipped_container_error: 0,
                },
                teams: Vec::new(),
                seen_teams: TextMap::new(),
            },
        )
    }

    fn record(
        &mut self,
        team_id: &str,
        roster_index: u32,
        status: StartStatus,
        run: Option<&Runnable>,
        car_id: Option<u64>,
        container_id: Option<String>,
    )
        requires
            counts_statuses(old(self).stats, old(self).teams@),
        ensures
            final(self).has_recorded(
                *old(self),
                fresh_entry(
                    team_id@,
                    roster_index,
                    status,
                    match run {
                        Some(run) => Some(run.slot_index),
                        None => None,
                    },
                    match run {
                        Some(run) => Some(run.submission_id@),
                        None => None,
                    },
                    car_id,
                    opt_text(container_id),
                ),
            ),
    {
        let slot_index: Option<i16> = match run {
            Some(run) => Some(run.slot_index),
            None => None,
        };
        let submission_id: Option<String> = match run {
            Some(run) => Some(run.submission_id.clone()),
            None => None,
        };
        let ghost before = self.teams@;
        self.teams.push(
            OfficialRaceTeamResultEntry {
                team_id: team_id.to_owned(),
                roster_index,
                start_status: status,
                slot_index,
                submission_id,
                car_id,
                container_id,
                completed_laps: 0,
                current_lap_distance_m: None,
                total_distance_m: None,
                last_lap_time_ms: None,
                best_lap_time_ms: None,
                lap_times_ms: Vec::new(),
                has_started_moving: false,
                last_recorded_completed_laps: 0,
                initial_lap_progress_m: None,
            },
        );
        let count: usize = self.teams.len();
        proof {
            assert(self.teams@.drop_last() =~= before);
            lemma_count_is_bounded(self.teams@, status);
            assert(count_status(self.teams@, status) <= count);
        }
        match status {
            StartStatus::Started => {
                self.stats.started = self.stats.started + 1;
            },
            StartStatus::SkippedGridOverflow => {
                self.stats.skipped_grid_overflow = self.stats.skipped_grid_overflow + 1;
            },
            StartStatus::SkippedDuplicateTeam => {
                self.stats.skipped_duplicate_team = self.stats.skipped_duplicate_team + 1;
            },
            StartStatus::SkippedMissingSubmission => {
                self.stats.skipped_missing_submission = self.stats.skipped_missing_submission + 1;
            },
            StartStatus::SkippedRuntimeError => {
                self.stats.skipped_runtime_error = self.stats.skipped_runtime_error + 1;
            },
            StartStatus::SkippedTokenError => {
                self.stats.skipped_token_error = self.stats.skipped_token_error + 1;
            },
            StartStatus::SkippedContainerError => {
                self.stats.skipped_container_error = self.stats.skipped_container_error + 1;
            },
        }
    }

    /// The turn of the next team on the roster begins. A team that finds no place
    /// on the grid or has had its turn is skipped. Where the roster cannot be
    /// numbered any more, the launch ends.
    pub fn begin_team(&mut self, team_id: &str) -> (r: Result<TurnStart, Status>)
        requires
            old(self).is_between_teams(),
        ensures
            ({
                let place = old(self).teams@.len() + 1;
                if place > u32::MAX {
                    &&& r matches Err(e)
                    &&& e@ == (Code::Internal, "official race roster index overflow"@)
                    &&& *final(self) == *old(self)
                } else if place > old(self).start_slots {
                    &&& r matches Ok(TurnStart::Skipped)
                    &&& final(self).has_skipped(
                        *old(self),
                        team_id@,
                        StartStatus::SkippedGridOverflow,
                    )
                } else if old(self).seen_teams@.contains_key(team_id@) {
                    &&& r matches Ok(TurnStart::Skipped)
                    &&& final(self).has_skipped(
                        *old(self),
                        team_id@,
                        StartStatus::SkippedDuplicateTeam,
                    )
                } else {
                    &&& r matches Ok(TurnStart::FindSubmission(team))
                    &&& final(self).has_begun(*old(self), team_id@, team)
                }
            }),
    {
        let index: usize = self.teams.len();
        if index as u64 >= u32::MAX as u64 {
            return Err(Status::internal("official race roster index overflow"));
        }
        let roster_index: u32 = index as u32 + 1;
        let position_index: u64 = index as u64 + 1;
        self.stats.total_listed = index + 1;
        if position_index > self.start_slots {
            self.record(
                team_id,
                roster_index,
                StartStatus::SkippedGridOverflow,
                None,
                None,
                None,
            );
            proof {
                lemma_numbering_grows(old(self).teams@, self.teams@);
            }
            return Ok(TurnStart::Skipped);
        }
        if self.seen_teams.contains_key(team_id) {
            self.record(
                team_id,
                roster_index,
                StartStatus::SkippedDuplicateTeam,
                None,
                None,
                None,
            );
            proof {
                lemma_numbering_grows(old(self).teams@, self.teams@);
            }
            return Ok(TurnStart::Skipped);
        }
        self.seen_teams.insert(team_id.to_owned(), ());
        Ok(
            TurnStart::FindSubmission(
                PendingTeam { team_id: team_id.to_owned(), roster_index, position_index },
            ),
        )
    }

    /// The team's submission was looked up. Without one the team is skipped.
    pub fn on_submission(&mut self, team: &PendingTeam, run: &Option<Runnable>)
        requires
            old(self).is_launching(*team),
        ensures
            match run {
                Some(_) => *final(self) == *old(self),
                None => final(self).has_recorded(
                    *old(self),
                    fresh_entry(
                        team.team_id@,
                        team.roster_index,
                        StartStatus::SkippedMissingSubmission,
                        None,
                        None,
                        None,
                        None,
                    ),
                ) && are_numbered(final(self).teams@),
            },
    {
        match run {
            Some(_) => {},
            None => {
                self.record(
                    team.team_id.as_str(),
                    team.roster_index,
                    StartStatus::SkippedMissingSubmission,
                    None,
                    None,
                    None,
                );
                proof {
                    lemma_numbering_grows(old(self).teams@, self.teams@);
                }
            },
        }
    }

    /// A car was spawned for the team, or could not be. A spawned car is registered
    /// and is to be put on its start position.
    pub fn on_spawn(
        &mut self,
        team: PendingTeam,
        run: Runnable,
        engine_car_id: Option<u64>,
        store: &mut RaceRuntimeStore,
    ) -> (r: Option<SpawnedTeam>)
        requires
            old(self).is_launching(team),
        ensures
            match engine_car_id {
                None => {
                    &&& r is None
                    &&& final(store)@ == old(store)@
                    &&& are_numbered(final(self).teams@)
                    &&& final(self).has_recorded(
                        *old(self),
                        fresh_entry(
                            team.team_id@,
                            team.roster_index,
                            StartStatus::SkippedRuntimeError,
                            Some(run.slot_index),
                            Some(run.submission_id@),
                            None,
                            None,
                        ),
                    )
                },
                Some(engine_car_id) => {
                    let car_id = old(store)@.next_public_car_id;
                    &&& r == Some(
                        SpawnedTeam { team, run, public_car_id: car_id, engine_car_id },
                    )
                    &&& *final(self) == *old(self)
                    &&& final(store)@ == with_next_id(old(store)@).with_record(
                        car_id,
                        fresh_registration(
                            old(store)@.record(car_id),
                            engine_car_id,
                            TargetView::OfficialRace,
                            official_identity(team.team_id@, team.position_index),
                        ),
                    )
                },
            },
    {
        match engine_car_id {
            None => {
                self.record(
                    team.team_id.as_str(),
                    team.roster_index,
                    StartStatus::SkippedRuntimeError,
                    Some(&run),
                    None,
                    None,
                );
                proof {
                    lemma_numbering_grows(old(self).teams@, self.teams@);
                }
                None
            },
            Some(engine_car_id) => {
                let public_car_id: u64 = store.allocate_public_car_id();
                register_official_race_runtime_car(
                    store,
                    team.team_id.as_str(),
                    public_car_id,
                    engine_car_id,
                    team.position_index,
                );
                Some(SpawnedTeam { team, run, public_car_id, engine_car_id })
            },
        }
    }

    fn fail(
        &mut self,
        spawned: SpawnedTeam,
        status: StartStatus,
        container_name: Option<String>,
    ) -> (r: TeamStep)
        requires
            old(self).is_launching(spawned.team),
        ensures
            final(self).has_failed(*old(self), spawned, status),
            r == TeamStep::RollBack(
                RollBack {
                    public_car_id: spawned.public_car_id,
                    engine_car_id: spawned.engine_car_id,
                    container_name,
                },
            ),
    {
        self.record(
            spawned.team.team_id.as_str(),
            spawned.team.roster_index,
            status,
            Some(&spawned.run),
            Some(spawned.public_car_id),
            None,
        );
        proof {
            lemma_numbering_grows(old(self).teams@, self.teams@);
        }
        TeamStep::RollBack(
            RollBack {
                public_car_id: spawned.public_car_id,
                engine_car_id: spawned.engine_car_id,
                container_name,
            },
        )
    }

    /// The team's turn ended with the status after its car was registered.
    pub open spec fn has_failed(
        self,
        before: LaunchSession,
        spawned: SpawnedTeam,
        status: StartStatus,
    ) -> bool {
        &&& are_numbered(self.teams@)
        &&& self.has_recorded(
            before,
            fresh_entry(
                spawned.team.team_id@,
                spawned.team.roster_index,
                status,
                Some(spawned.run.slot_index),
                Some(spawned.run.submission_id@),
                Some(spawned.public_car_id),
                None,
            ),
        )
    }

    /// A step in the launch of a spawned team went well or failed. Where it failed,
    /// the turn ends with the status and the car is taken back.
    fn on_step(&mut self, spawned: SpawnedTeam, done: bool, status: StartStatus) -> (r: TeamStep)
        requires
            old(self).is_launching(spawned.team),
        ensures
            done ==> r == TeamStep::GoOn(spawned) && *final(self) == *old(self),
            !done ==> final(self).has_failed(*old(self), spawned, status) && r
                == TeamStep::RollBack(
                RollBack {
                    public_car_id: spawned.public_car_id,
                    engine_car_id: spawned.engine_car_id,
                    container_name: None,
                },
            ),
    {
        if done {
            TeamStep::GoOn(spawned)
        } else {
            self.fail(spawned, status, None)
        }
    }

    /// The car was put on its start position, or could not be.
    pub fn on_start_position(&mut self, spawned: SpawnedTeam, placed: bool) -> (r: TeamStep)
        requires
            old(self).is_launching(spawned.team),
        ensures
            placed ==> r == TeamStep::GoOn(spawned) && *final(self) == *old(self),
            !placed ==> final(self).has_failed(
                *old(self),
                spawned,
                StartStatus::SkippedRuntimeError,
            ) && r == TeamStep::RollBack(
                RollBack {
                    public_car_id: spawned.public_car_id,
                    engine_car_id: spawned.engine_car_id,
                    container_name: None,
                },
            ),
    {
        self.on_step(spawned, placed, StartStatus::SkippedRuntimeError)
    }

    /// One of the two tokens that a bot needs was issued, or could not be.
    pub fn on_token(&mut self, spawned: SpawnedTeam, issued: bool) -> (r: TeamStep)
        requires
            old(self).is_launching(spawned.team),
        ensures
            issued ==> r == TeamStep::GoOn(spawned) && *final(self) == *old(self),
            !issued ==> final(self).has_failed(
                *old(self),
                spawned,
                StartStatus::SkippedTokenError,
            ) && r == TeamStep::RollBack(
                RollBack {
                    public_car_id: spawned.public_car_id,
                    engine_car_id: spawned.engine_car_id,
                    container_name: None,
                },
            ),
    {
        self.on_step(spawned, issued, StartStatus::SkippedTokenError)
    }

    /// The team's name gave a name for the container, or did not.
    pub fn on_container_name(&mut self, spawned: SpawnedTeam, named: bool) -> (r: TeamStep)
        requires
            old(self).is_launching(spawned.team),
        ensures
            named ==> r == TeamStep::GoOn(spawned) && *final(self) == *old(self),
            !named ==> final(self).has_failed(
                *old(self),
                spawned,
                StartStatus::SkippedRuntimeError,
            ) && r == TeamStep::RollBack(
                RollBack {
                    public_car_id: spawned.public_car_id,
                    engine_car_id: spawned.engine_car_id,
                    container_name: None,
                },
            ),
    {
        self.on_step(spawned, named, StartStatus::SkippedRuntimeError)
    }

    /// The bot's container could not be started: its remains go too.
    pub fn on_container_failure(&mut self, spawned: SpawnedTeam, container_name: String) -> (r:
        TeamStep)
        requires
            old(self).is_launching(spawned.team),
        ensures
            final(self).has_failed(*old(self), spawned, StartStatus::SkippedContainerError),
            r == TeamStep::RollBack(
                RollBack {
                    public_car_id: spawned.public_car_id,
                    engine_car_id: spawned.engine_car_id,
                    container_name: Some(container_name),
                },
            ),
    {
        self.fail(spawned, StartStatus::SkippedContainerError, Some(container_name))
    }

    /// The bot's container runs and its log is captured: the team has started.
    pub fn on_started(
        &mut self,
        spawned: SpawnedTeam,
        container_name: String,
        container_id: String,
        log_file_path: String,
        bots: &mut OfficialRaceBots,
    )
        requires
            old(self).is_launching(spawned.team),
        ensures
            are_numbered(final(self).teams@),
            final(self).has_recorded(
                *old(self),
                fresh_entry(
                    spawned.team.team_id@,
                    spawned.team.roster_index,
                    StartStatus::Started,
                    Some(spawned.run.slot_index),
                    Some(spawned.run.submission_id@),
                    Some(spawned.public_car_id),
                    Some(container_id@),
                ),
            ),
            final(bots)@ == old(bots)@.insert(
                spawned.team.team_id@,
                TeamOfficialRaceBotState {
                    public_car_id: spawned.public_car_id,
                    engine_car_id: spawned.engine_car_id,
                    start_position_index: spawned.team.position_index,
                    slot_index: spawned.run.slot_index,
                    container_name,
                    container_id,
                    submission_id: spawned.run.submission_id,
                    image_ref: spawned.run.image_ref,
                    log_file_path,
                    auto_restart_attempts: 0,
                },
            ),
    {
        self.record(
            spawned.team.team_id.as_str(),
            spawned.team.roster_index,
            StartStatus::Started,
            Some(&spawned.run),
            Some(spawned.public_car_id),
            Some(container_id.clone()),
        );
        proof {
            lemma_numbering_grows(old(self).teams@, self.teams@);
        }
        bots.insert(
            spawned.team.team_id,
            TeamOfficialRaceBotState {
                public_car_id: spawned.public_car_id,
                engine_car_id: spawned.engine_car_id,
                start_position_index: spawned.team.position_index,
                slot_index: spawned.run.slot_index,
                container_name,
                container_id,
                submission_id: spawned.run.submission_id,
                image_ref: spawned.run.image_ref,
                log_file_path,
                auto_restart_attempts: 0,
            },
        );
    }
}

proof fn lemma_numbering_grows(
    before: Seq<OfficialRaceTeamResultEntry>,
    after: Seq<OfficialRaceTeamResultEntry>,
)
    requires
        are_numbered(before),
        after.len() == before.len() + 1,
        after.drop_last() == before,
        after.last()@.roster_index == before.len() + 1,
    ensures
        are_numbered(after),
{
    assert forall|i: int| 0 <= i < after.len() implies (#[trigger] after[i]).roster_index == i
        + 1 by {
        if i < before.len() {
            assert(after.drop_last()[i] == before[i]);
        }
    }
}

/// When a turn has ended, in whatever way, the launch is ready for the next team.
pub proof fn ended_turn_is_between_teams(
    before: LaunchSession,
    after: LaunchSession,
    team: PendingTeam,
    entry: EntryView,
)
    requires
        before.is_launching(team),
        after.has_recorded(before, entry),
        are_numbered(after.teams@),
    ensures
        after.is_between_teams(),
{
}

/// The team got as far as having its submission looked up.
pub open spec fn has_had_turn(entry: EntryView) -> bool {
    !(entry.start_status is SkippedGridOverflow) && !(entry.start_status is SkippedDuplicateTeam)
}

/// `entry` closes the turn of the team that is under way in `under_way`.
pub open spec fn is_turn_of(
    before: LaunchSession,
    team_id: Seq<char>,
    under_way: LaunchSession,
    team: PendingTeam,
    entry: EntryView,
    after: LaunchSession,
) -> bool {
    &&& under_way.has_begun(before, team_id, team)
    &&& entry.team_id == team.team_id@
    &&& entry.roster_index == team.roster_index
    &&& has_had_turn(entry)
    &&& after.has_recorded(under_way, entry)
}

/// `after` is the launch when the next team on the roster was skipped, or had its turn and
/// that has ended.
pub open spec fn is_turn(before: LaunchSession, team_id: Seq<char>, after: LaunchSession) -> bool {
    if before.teams@.len() + 1 > before.start_slots {
        after.has_skipped(before, team_id, StartStatus::SkippedGridOverflow)
    } else if before.seen_teams@.contains_key(team_id) {
        after.has_skipped(before, team_id, StartStatus::SkippedDuplicateTeam)
    } else {
        exists|under_way: LaunchSession, team: PendingTeam, entry: EntryView|
            is_turn_of(before, team_id, under_way, team, entry, after)
    }
}

pub open spec fn is_turn_at(
    sessions: Seq<LaunchSession>,
    roster: Seq<Seq<char>>,
    k: int,
) -> bool {
    &&& sessions[k].teams@.len() < u32::MAX
    &&& is_turn(sessions[k], roster[k], sessions[k + 1])
}

/// The entries are those of the listed teams, in order, and no team has had two turns.
pub open spec fn holds_roster(
    teams: Seq<OfficialRaceTeamResultEntry>,
    roster: Seq<Seq<char>>,
) -> bool {
    &&& teams.len() == roster.len()
    &&& forall|i: int|
        0 <= i < teams.len() ==> (#[trigger] teams[i])@.team_id == roster[i]
            && teams[i]@.roster_index == i + 1
    &&& forall|i: int, j: int|
        #![trigger teams[i], teams[j]]
        0 <= i < j < teams.len() && has_had_turn(teams[i]@) && has_had_turn(teams[j]@)
            ==> teams[i]@.team_id != teams[j]@.team_id
}

proof fn lemma_roster_is_recorded(
    sessions: Seq<LaunchSession>,
    roster: Seq<Seq<char>>,
    k: int,
)
    requires
        sessions.len() == roster.len() + 1,
        sessions[0].teams@.len() == 0,
        forall|i: int| 0 <= i < roster.len() ==> #[trigger] is_turn_at(sessions, roster, i),
        0 <= k <= roster.len(),
    ensures
        holds_roster(sessions[k].teams@, roster.take(k)),
        forall|i: int|
            0 <= i < k && has_had_turn((#[trigger] sessions[k].teams@[i])@)
                ==> sessions[k].seen_teams@.contains_key(roster[i]),
    decreases k,
{
    if k > 0 {
        lemma_roster_is_recorded(sessions, roster, k - 1);
        assert(is_turn_at(sessions, roster, k - 1));
        let before = sessions[k - 1];
        let after = sessions[k];
        let team_id = roster[k - 1];
        if before.teams@.len() + 1 <= before.start_slots && !before.seen_teams@.contains_key(
            team_id,
        ) {
            let (under_way, team, entry) = choose|
                under_way: LaunchSession,
                team: PendingTeam,
                entry: EntryView,
            | is_turn_of(before, team_id, under_way, team, entry, after);
            assert(under_way.teams@ == before.teams@);
            assert(after.seen_teams@ == before.seen_teams@.insert(team_id, ()));
            assert(after.teams@.last()@ == entry);
        }
        assert(after.teams@.drop_last() == before.teams@);
        assert forall|i: int| 0 <= i < k - 1 implies #[trigger] after.teams@[i]
            == before.teams@[i] by {
            assert(after.teams@.drop_last()[i] == after.teams@[i]);
        }
    }
}

/// When a roster was gone through, each listed team has one entry for each time that it is
/// listed, in the order of the roster and numbered from 1; of the entries of one team at
/// most one has had its turn, and so at most one has started.
pub proof fn every_listed_team_is_recorded(
    sessions: Seq<LaunchSession>,
    roster: Seq<Seq<char>>,
)
    requires
        sessions.len() == roster.len() + 1,
        sessions[0].teams@.len() == 0,
        forall|k: int| 0 <= k < roster.len() ==> #[trigger] is_turn_at(sessions, roster, k),
    ensures
        holds_roster(sessions.last().teams@, roster),
        forall|i: int, j: int|
            #![trigger roster[i], roster[j]]
            0 <= i < j < roster.len() && sessions.last().teams@[i].start_status is Started
                && sessions.last().teams@[j].start_status is Started ==> roster[i] != roster[j],
{
    lemma_roster_is_recorded(sessions, roster, roster.len() as int);
    assert(roster.take(roster.len() as int) =~= roster);
    let teams = sessions.last().teams@;
    assert forall|i: int, j: int|
        #![trigger roster[i], roster[j]]
        0 <= i < j < roster.len() && teams[i].start_status is Started
            && teams[j].start_status is Started implies roster[i] != roster[j] by {
        assert(teams[i]@.team_id == roster[i] && teams[j]@.team_id == roster[j]);
    }
}

/// A car that is taken back leaves the store as it was, but for the id that was
/// spent; no instance owned the id.
pub proof fn taken_back_car_leaves_no_trace(
    s: StoreView,
    team_id: Seq<char>,
    engine_car_id: u64,
    position_index: u64,
)
    requires
        !s.cars.contains_key(s.next_public_car_id),
    ensures
        with_next_id(s).with_record(
            s.next_public_car_id,
            fresh_registration(
                s.record(s.next_public_car_id),
                engine_car_id,
                TargetView::OfficialRace,
                official_identity(team_id, position_index),
            ),
        ).without_car(s.next_public_car_id) == with_next_id(s),
{
    let car_id = s.next_public_car_id;
    let registered = with_next_id(s).with_record(
        car_id,
        fresh_registration(
            s.record(car_id),
            engine_car_id,
            TargetView::OfficialRace,
            official_identity(team_id, position_index),
        ),
    );
    assert(registered.without_car(car_id).cars =~= s.cars);
}

/// The entry of a team that has not driven holds what the team was started with, each under
/// its own name, and nothing of a drive.
pub proof fn fresh_entry_has_no_laps(
    team_id: Seq<char>,
    roster_index: u32,
    start_status: StartStatus,
    slot_index: Option<i16>,
    submission_id: Option<Seq<char>>,
    car_id: Option<u64>,
    container_id: Option<Seq<char>>,
)
    ensures
        ({
            let entry = fresh_entry(
                team_id,
                roster_index,
                start_status,
                slot_index,
                submission_id,
                car_id,
                container_id,
            );
            &&& entry.team_id == team_id
            &&& entry.roster_index == roster_index
            &&& entry.start_status == start_status
            &&& entry.slot_index == slot_index
            &&& entry.submission_id == submission_id
            &&& entry.car_id == car_id
            &&& entry.container_id == container_id
            &&& entry.completed_laps == 0
            &&& entry.last_recorded_completed_laps == 0
            &&& entry.lap_times_ms.len() == 0
            &&& !entry.has_started_moving
            &&& entry.current_lap_distance_m is None
            &&& entry.total_distance_m is None
            &&& entry.last_lap_time_ms is None
            &&& entry.best_lap_time_ms is None
            &&& entry.initial_lap_progress_m is None
        }),
{
}

/// A bot can be started from a slot exactly where a submission is in it that names an image
/// which is not blank; the image is named without the whitespace around it.
pub proof fn runnable_slots_name_an_image(slot: Option<SlotSubmission>)
    ensures
        is_runnable(slot) <==> {
            &&& slot is Some
            &&& slot->Some_0.image_ref is Some
            &&& text::trimmed(slot->Some_0.image_ref->Some_0@).len() > 0
        },
        slot matches Some(submission) ==> (image_of(submission) matches Some(image)
            ==> submission.image_ref is Some && image == text::trimmed(
            submission.image_ref->Some_0@,
        )),
{
}

/// Entries one after the other are counted each on its own, and an entry counts for its own
/// status alone.
pub proof fn entries_count_for_their_status(
    first: Seq<OfficialRaceTeamResultEntry>,
    entry: OfficialRaceTeamResultEntry,
    status: StartStatus,
)
    ensures
        entry.start_status == status ==> count_status(first.push(entry), status) == count_status(
            first,
            status,
        ) + 1,
        entry.start_status != status ==> count_status(first.push(entry), status) == count_status(
            first,
            status,
        ),
        count_status(Seq::empty(), status) == 0,
{
    assert(first.push(entry).drop_last() =~= first);
}

/// Each counter counts the teams that ended in its own way.
pub proof fn counters_count_their_own(
    stats: OfficialRaceStartStats,
    teams: Seq<OfficialRaceTeamResultEntry>,
)
    requires
        counts_statuses(stats, teams),
    ensures
        stats.started == count_status(teams, StartStatus::Started),
        stats.skipped_grid_overflow == count_status(teams, StartStatus::SkippedGridOverflow),
        stats.skipped_duplicate_team == count_status(teams, StartStatus::SkippedDuplicateTeam),
        stats.skipped_missing_submission == count_status(
            teams,
            StartStatus::SkippedMissingSubmission,
        ),
        stats.skipped_runtime_error == count_status(teams, StartStatus::SkippedRuntimeError),
        stats.skipped_token_error == count_status(teams, StartStatus::SkippedTokenError),
        stats.skipped_container_error == count_status(teams, StartStatus::SkippedContainerError),
{
}

/// A turn that is recorded adds one entry behind those that there were, counts it under its
/// status, and leaves the grid and the teams that were seen.
pub proof fn recorded_turn_adds_its_entry(
    before: LaunchSession,
    after: LaunchSession,
    entry: EntryView,
)
    requires
        after.has_recorded(before, entry),
        counts_statuses(before.stats, before.teams@),
    ensures
        after.teams@.len() == before.teams@.len() + 1,
        after.teams@.last()@ == entry,
        forall|i: int| 0 <= i < before.teams@.len() ==> #[trigger] after.teams@[i] == before.teams@[i],
        after.start_slots == before.start_slots,
        after.seen_teams@ == before.seen_teams@,
        after.stats.total_listed == before.stats.total_listed,
        after.stats.started == before.stats.started + if entry.start_status is Started {
            1int
        } else {
            0
        },
        after.stats.skipped_token_error == before.stats.skipped_token_error
            + if entry.start_status is SkippedTokenError {
            1int
        } else {
            0
        },
        after.stats.skipped_container_error == before.stats.skipped_container_error
            + if entry.start_status is SkippedContainerError {
            1int
        } else {
            0
        },
        after.stats.skipped_runtime_error == before.stats.skipped_runtime_error
            + if entry.start_status is SkippedRuntimeError {
            1int
        } else {
            0
        },
        after.stats.skipped_missing_submission == before.stats.skipped_missing_submission
            + if entry.start_status is SkippedMissingSubmission {
            1int
        } else {
            0
        },
{
    assert forall|i: int| 0 <= i < before.teams@.len() implies #[trigger] after.teams@[i]
        == before.teams@[i] by {
        assert(after.teams@.drop_last()[i] == after.teams@[i]);
    }
}

/// A team that is skipped gets an entry under the next number on the roster, with its
/// status and without a car; it is not taken for a team that had its turn.
pub proof fn skipped_team_is_recorded(
    before: LaunchSession,
    after: LaunchSession,
    team_id: Seq<char>,
    status: StartStatus,
)
    requires
        after.has_skipped(before, team_id, status),
        before.teams@.len() < u32::MAX,
    ensures
        after.teams@.len() == before.teams@.len() + 1,
        after.teams@.last()@.team_id == team_id,
        after.teams@.last()@.roster_index == before.teams@.len() + 1,
        after.teams@.last()@.start_status == status,
        after.teams@.last()@.car_id is None,
        after.teams@.last()@.slot_index is None,
        after.teams@.last()@.submission_id is None,
        after.teams@.last()@.container_id is None,
        after.seen_teams@ == before.seen_teams@,
        after.stats.total_listed == after.teams@.len(),
{
}

/// A team whose turn has begun is the next on the roster and stands at the position of the
/// same number, on the grid; from then on it is seen.
pub proof fn begun_team_has_the_next_place(
    before: LaunchSession,
    after: LaunchSession,
    team_id: Seq<char>,
    team: PendingTeam,
)
    requires
        after.has_begun(before, team_id, team),
    ensures
        team.team_id@ == team_id,
        team.roster_index == before.teams@.len() + 1,
        team.position_index == before.teams@.len() + 1,
        team.position_index <= before.start_slots,
        after.seen_teams@.contains_key(team_id),
        after.stats.total_listed == before.teams@.len() + 1,
        after.teams@ == before.teams@,
{
}

/// A team whose launch failed is recorded with its status, its slot, its submission and its
/// car, but without a container.
pub proof fn failed_team_is_recorded(
    before: LaunchSession,
    after: LaunchSession,
    spawned: SpawnedTeam,
    status: StartStatus,
)
    requires
        after.has_failed(before, spawned, status),
    ensures
        after.teams@.len() == before.teams@.len() + 1,
        after.teams@.last()@.team_id == spawned.team.team_id@,
        after.teams@.last()@.roster_index == spawned.team.roster_index,
        after.teams@.last()@.start_status == status,
        after.teams@.last()@.slot_index == Some(spawned.run.slot_index),
        after.teams@.last()@.submission_id == Some(spawned.run.submission_id@),
        after.teams@.last()@.car_id == Some(spawned.public_car_id),
        after.teams@.last()@.container_id is None,
{
}

/// An entry is read field by field.
pub proof fn entry_is_read_as_it_is(entry: OfficialRaceTeamResultEntry)
    ensures
        entry@.team_id == entry.team_id@,
        entry@.roster_index == entry.roster_index,
        entry@.start_status == entry.start_status,
        entry@.slot_index == entry.slot_index,
        entry@.submission_id == opt_text(entry.submission_id),
        entry@.car_id == entry.car_id,
        entry@.container_id == opt_text(entry.container_id),
        entry@.completed_laps == entry.completed_laps,
        entry@.current_lap_distance_m == entry.current_lap_distance_m,
        entry@.total_distance_m == entry.total_distance_m,
        entry@.last_lap_time_ms == entry.last_lap_time_ms,
        entry@.best_lap_time_ms == entry.best_lap_time_ms,
        entry@.lap_times_ms == entry.lap_times_ms@,
        entry@.has_started_moving == entry.has_started_moving,
        entry@.last_recorded_completed_laps == entry.last_recorded_completed_laps,
        entry@.initial_lap_progress_m == entry.initial_lap_progress_m,
{
}

/// Entries are numbered by their places, from one.
pub proof fn entries_are_numbered_by_place(teams: Seq<OfficialRaceTeamResultEntry>, i: int)
    requires
        are_numbered(teams),
        0 <= i < teams.len(),
    ensures
        teams[i].roster_index == i + 1,
{
}

/// A launch between two teams has an entry for every listed one, and one with a team under way
/// for all others; the team has the next place, which is on the grid.
pub proof fn launches_have_entries_for_all(session: LaunchSession, team: PendingTeam)
    ensures
        session.is_between_teams() ==> session.stats.total_listed == session.teams@.len()
            && counts_statuses(session.stats, session.teams@) && are_numbered(session.teams@),
        session.is_launching(team) ==> session.stats.total_listed == session.teams@.len() + 1
            && counts_statuses(session.stats, session.teams@) && are_numbered(session.teams@)
            && team.roster_index == session.teams@.len() + 1 && team.position_index
            == session.teams@.len() + 1 && team.position_index <= session.start_slots,
{
}

} // verus!
