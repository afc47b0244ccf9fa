//! When the official race is prepared, started and closed: two signal files, looked
//! at in every tick, and the state of the race decide.

use vstd::prelude::*;
use crate::engine::{EngineActivityKind, EngineRuntimeState, EngineRuntimeTimeOfDayPreset, TargetView};
use crate::participant::official::{StaleOfficialCar, TeamOfficialRaceBotState};
use crate::participant::registry::OfficialRaceBots;
use crate::participant::roster::{
    engine_preset, race_time_of_day_preset_to_engine, RaceTimeOfDayPreset,
};
use crate::race::frame_hub::other_cars_stay;
use crate::race::runtime_store::{RaceRuntimeStore, StoreView};
use crate::text;

verus! {

/// Where the official race stands. A recorder of results is at work exactly while a
/// race is prepared.
#[derive(Clone, Copy, PartialEq, Eq, Debug, Structural)]
pub struct RaceLauncher {
    /// The prepare signal was there in the last tick that ended.
    pub prepare_signal_seen: bool,
    /// The start signal was there in the last tick that ended.
    pub start_signal_seen: bool,
    pub race_prepared: bool,
    pub race_started: bool,
}

/// What a signal asks for.
#[derive(Clone, Copy, PartialEq, Eq, Debug, Structural)]
pub struct PrepareStep {
    /// The results of the race before are to be finalized.
    pub finalize: bool,
    /// A race is to be prepared, and `on_prepared` to be told how that went.
    pub prepare: bool,
}

/// What is to be done for the race in the rest of a tick.
#[derive(Clone, Copy, PartialEq, Eq, Debug, Structural)]
pub enum SessionWork {
    /// There is no race.
    Rest,
    /// The cars are put back on the grid, then the results are recorded.
    KeepGrid,
    /// The results are recorded.
    Record,
    /// The race is over: the results are finalized and the session is closed.
    Close,
}

impl RaceLauncher {
    /// A race that has started is one that was prepared.
    pub open spec fn is_consistent(self) -> bool {
        self.race_started ==> self.race_prepared
    }

    /// The prepare signal is there and is new.
    pub open spec fn sees_prepare(self, present: bool) -> bool {
        present && !self.prepare_signal_seen
    }

    /// The start signal is there and is new.
    pub open spec fn sees_start(self, present: bool) -> bool {
        present && !self.start_signal_seen
    }

    pub open spec fn without_race(self) -> RaceLauncher {
        RaceLauncher { race_prepared: false, race_started: false, ..self }
    }

    pub open spec fn with_prepared(self, done: bool) -> RaceLauncher {
        RaceLauncher { race_prepared: done, ..self }
    }

    pub open spec fn after_start(self, present: bool) -> RaceLauncher {
        RaceLauncher {
            race_started: self.race_started || (self.sees_start(present) && self.race_prepared),
            ..self
        }
    }

    /// No race, no signal seen.
    pub fn new() -> (r: Self)
        ensures
            r == (RaceLauncher {
                prepare_signal_seen: false,
                start_signal_seen: false,
                race_prepared: false,
                race_started: false,
            }),
            r.is_consistent(),
    {
        RaceLauncher {
            prepare_signal_seen: false,
            start_signal_seen: false,
            race_prepared: false,
            race_started: false,
        }
    }

    /// A prepare signal that was not there before ends the race that there is and
    /// has a new one prepared.
    pub fn on_prepare_signal(&mut self, present: bool) -> (step: PrepareStep)
        requires
            old(self).is_consistent(),
        ensures
            step.prepare == old(self).sees_prepare(present),
            step.finalize == (step.prepare && old(self).race_prepared),
            *final(self) == if step.prepare {
                old(self).without_race()
            } else {
                *old(self)
            },
            final(self).is_consistent(),
    {
        let prepare = present && !self.prepare_signal_seen;
        let finalize = prepare && self.race_prepared;
        if prepare {
            self.race_prepared = false;
            self.race_started = false;
        }
        PrepareStep { finalize, prepare }
    }

    /// A start signal that was not there before has a race prepared where none is.
    pub fn on_start_signal(&self, present: bool) -> (prepare: bool)
        ensures
            prepare == (self.sees_start(present) && !self.race_prepared),
    {
        present && !self.start_signal_seen && !self.race_prepared
    }

    /// A race was prepared, or could not be.
    pub fn on_prepared(&mut self, done: bool)
        requires
            !old(self).race_prepared,
            old(self).is_consistent(),
        ensures
            *final(self) == old(self).with_prepared(done),
            final(self).is_consistent(),
    {
        self.race_prepared = done;
    }

    /// Whether the race is started in this tick: a new start signal starts a race
    /// that is prepared and has not started. The bots are refreshed, the cars get
    /// hard tyres, and then the race is marked as started.
    pub fn take_start(&mut self, present: bool) -> (start: bool)
        requires
            old(self).is_consistent(),
        ensures
            start == (old(self).sees_start(present) && old(self).race_prepared && !old(
                self,
            ).race_started),
            *final(self) == old(self).after_start(present),
            final(self).is_consistent(),
    {
        let start = present && !self.start_signal_seen && self.race_prepared && !self.race_started;
        if start {
            self.race_started = true;
        }
        start
    }

    /// The work for the race that there is. `time_is_up` says that the race has a
    /// duration and it has passed; it counts only once the race has started. When
    /// the race is closed, the tick ends without `end_tick`: signals that came in
    /// this tick come again in the next one.
    pub fn session_work(&mut self, time_is_up: bool) -> (work: SessionWork)
        requires
            old(self).is_consistent(),
        ensures
            work == if !old(self).race_prepared {
                SessionWork::Rest
            } else if !old(self).race_started {
                SessionWork::KeepGrid
            } else if time_is_up {
                SessionWork::Close
            } else {
                SessionWork::Record
            },
            *final(self) == if work == SessionWork::Close {
                old(self).without_race()
            } else {
                *old(self)
            },
            final(self).is_consistent(),
    {
        if !self.race_prepared {
            return SessionWork::Rest;
        }
        if !self.race_started {
            return SessionWork::KeepGrid;
        }
        if time_is_up {
            self.race_prepared = false;
            self.race_started = false;
            return SessionWork::Close;
        }
        SessionWork::Record
    }

    /// After the results were recorded: where the engine does not run the official
    /// race any more, the results are finalized and the session is cleared.
    pub fn on_recorded(&mut self, activity: Option<EngineActivityKind>) -> (ended: bool)
        requires
            old(self).race_prepared,
            old(self).is_consistent(),
        ensures
            ended == (activity != Some(EngineActivityKind::OfficialRace)),
            *final(self) == if ended {
                old(self).without_race()
            } else {
                *old(self)
            },
            final(self).is_consistent(),
    {
        let is_official = match activity {
            Some(EngineActivityKind::OfficialRace) => true,
            _ => false,
        };
        if !is_official {
            self.race_prepared = false;
            self.race_started = false;
        }
        !is_official
    }

    /// The tick ends: the signals that were there have been seen.
    pub fn end_tick(&mut self, prepare_present: bool, start_present: bool)
        requires
            old(self).is_consistent(),
        ensures
            *final(self) == (RaceLauncher {
                prepare_signal_seen: prepare_present,
                start_signal_seen: start_present,
                ..*old(self)
            }),
            final(self).is_consistent(),
    {
        self.prepare_signal_seen = prepare_present;
        self.start_signal_seen = start_present;
    }
}

/// The launcher after both signals were handled in a tick. `prepared` and
/// `prepared_late` say how the preparing went that the prepare signal and the start
/// signal asked for, where they did.
pub open spec fn after_signals(
    s: RaceLauncher,
    prepare_present: bool,
    start_present: bool,
    prepared: bool,
    prepared_late: bool,
) -> RaceLauncher {
    let a = if s.sees_prepare(prepare_present) {
        s.without_race().with_prepared(prepared)
    } else {
        s
    };
    let b = if a.sees_start(start_present) && !a.race_prepared {
        a.with_prepared(prepared_late)
    } else {
        a
    };
    b.after_start(start_present)
}

/// A signal that stays where it is prepares and starts nothing a second time.
pub proof fn held_signals_change_nothing(s: RaceLauncher, prepared: bool, prepared_late: bool)
    requires
        s.prepare_signal_seen,
        s.start_signal_seen,
    ensures
        after_signals(s, true, true, prepared, prepared_late) == s,
{
}

/// A race starts only in a tick in which the start signal is new, and only where it
/// is prepared.
pub proof fn only_new_start_signal_starts(
    s: RaceLauncher,
    prepare_present: bool,
    start_present: bool,
    prepared: bool,
    prepared_late: bool,
)
    requires
        s.is_consistent(),
    ensures
        ({
            let after = after_signals(s, prepare_present, start_present, prepared, prepared_late);
            &&& after.is_consistent()
            &&& after.race_started && !s.race_started ==> start_present && !s.start_signal_seen
        }),
{
}

/// A start signal alone is enough: where no race is prepared, one is prepared and
/// started in the same tick, if it can be.
pub proof fn start_signal_alone_is_enough(s: RaceLauncher, prepared: bool)
    requires
        s.is_consistent(),
        !s.race_prepared,
        !s.start_signal_seen,
    ensures
        after_signals(s, false, true, prepared, true).race_started,
        !after_signals(s, false, true, prepared, false).race_started,
{
}

/// A bot of the official race that is to leave, and what is needed for it: its log
/// is closed, the registry forgets it, its container is removed, its car is
/// despawned, and then `finish_bot_cleanup` ends it.
#[derive(Debug)]
pub struct BotCleanup {
    pub team_id: String,
    pub container_name: String,
    pub public_car_id: u64,
    pub engine_car_id: u64,
}

/// The entry of `plan` is the bot of the team in `bots`.
pub open spec fn is_bot_of(
    entry: BotCleanup,
    bots: Map<Seq<char>, TeamOfficialRaceBotState>,
) -> bool {
    &&& bots.contains_key(entry.team_id@)
    &&& entry.container_name == bots[entry.team_id@].container_name
    &&& entry.public_car_id == bots[entry.team_id@].public_car_id
    &&& entry.engine_car_id == bots[entry.team_id@].engine_car_id
}

/// Every bot that there is, once each.
pub fn plan_bot_cleanups(bots: &OfficialRaceBots) -> (plan: Vec<BotCleanup>)
    ensures
        forall|i: int| 0 <= i < plan@.len() ==> is_bot_of(#[trigger] plan@[i], bots@),
        forall|i: int, j: int|
            #![trigger plan@[i], plan@[j]]
            0 <= i < j < plan@.len() ==> plan@[i].team_id@ != plan@[j].team_id@,
        forall|team: Seq<char>| #[trigger]
            bots@.contains_key(team) ==> exists|i: int|
                0 <= i < plan@.len() && (#[trigger] plan@[i]).team_id@ == team,
{
    let teams: Vec<String> = bots.keys();
    let ghost keys = text::text_views(teams@);
    let mut plan: Vec<BotCleanup> = Vec::new();
    let mut i: usize = 0;
    while i < teams.len()
        invariant
            i <= teams@.len(),
            keys == text::text_views(teams@),
            forall|k: Seq<char>| #[trigger] keys.contains(k) <==> bots@.contains_key(k),
            plan@.len() == i,
            forall|k: int|
                0 <= k < i ==> is_bot_of(#[trigger] plan@[k], bots@) && plan@[k].team_id@
                    == keys[k],
        decreases teams@.len() - i,
    {
        proof {
            assert(keys.contains(keys[i as int]));
        }
        match bots.get(teams[i].as_str()) {
            Some(bot) => {
                plan.push(
                    BotCleanup {
                        team_id: teams[i].clone(),
                        container_name: bot.container_name.clone(),
                        public_car_id: bot.public_car_id,
                        engine_car_id: bot.engine_car_id,
                    },
                );
            },
            None => {},
        }
        i += 1;
    }
    proof {
        assert forall|team: Seq<char>| #[trigger] bots@.contains_key(team) implies exists|k: int|
            0 <= k < plan@.len() && (#[trigger] plan@[k]).team_id@ == team by {
            assert(keys.contains(team));
            let k = choose|k: int| 0 <= k < keys.len() && keys[k] == team;
            assert(plan@[k].team_id@ == team);
        }
    }
    plan
}

/// The registry forgets a bot.
pub fn forget_bot(bots: &mut OfficialRaceBots, team_id: &str)
    ensures
        final(bots)@ == old(bots)@.remove(team_id@),
{
    bots.remove(team_id);
}

/// A bot's car is gone from the engine and leaves the store.
pub fn finish_bot_cleanup(store: &mut RaceRuntimeStore, entry: &BotCleanup)
    ensures
        final(store)@ == old(store)@.without_car(entry.public_car_id),
{
    store.remove_car(entry.public_car_id);
}

/// A car that was left over is gone from the engine and leaves the store.
pub fn finish_stale_car(store: &mut RaceRuntimeStore, car: &StaleOfficialCar)
    ensures
        final(store)@ == old(store)@.without_car(car.public_car_id),
{
    store.remove_car(car.public_car_id);
}

/// Once the left-over cars have left the store, none is registered with the
/// official race any more, and every other car is as it was.
pub proof fn cleaned_session_has_no_official_car(s: StoreView, stale: Set<u64>, car_id: u64)
    requires
        forall|c: u64|
            stale.contains(c) <==> (#[trigger] s.record(c)).target == Some(
                TargetView::OfficialRace,
            ),
    ensures
        s.without_cars(stale).record(car_id).target != Some(TargetView::OfficialRace),
        s.record(car_id).target != Some(TargetView::OfficialRace) ==> s.without_cars(stale).record(
            car_id,
        ) == s.record(car_id),
{
    other_cars_stay(s, stale, car_id);
    assert(stale.contains(car_id) <==> s.record(car_id).target == Some(TargetView::OfficialRace));
}

/// A switch of the runtime.
#[derive(Debug)]
pub struct RuntimeSwitch {
    pub expected_revision: u64,
    pub activity_kind: EngineActivityKind,
    pub map_id: String,
    pub time_of_day_preset: EngineRuntimeTimeOfDayPreset,
}

/// The switch that closes the session, where the official race still runs: to no
/// activity, on the same map, at the same time of day.
pub fn close_session_switch(state: &EngineRuntimeState) -> (r: Option<RuntimeSwitch>)
    ensures
        r == if state.activity_kind == EngineActivityKind::OfficialRace {
            Some(
                RuntimeSwitch {
                    expected_revision: state.revision,
                    activity_kind: EngineActivityKind::Idle,
                    map_id: state.map_id,
                    time_of_day_preset: state.time_of_day_preset,
                },
            )
        } else {
            None
        },
{
    match state.activity_kind {
        EngineActivityKind::OfficialRace => Some(
            RuntimeSwitch {
                expected_revision: state.revision,
                activity_kind: EngineActivityKind::Idle,
                map_id: state.map_id.clone(),
                time_of_day_preset: state.time_of_day_preset,
            },
        ),
        _ => None,
    }
}

/// The switch that opens the session of a race on the map.
pub fn open_session_switch(revision: u64, map_id: &str, preset: RaceTimeOfDayPreset) -> (r:
    RuntimeSwitch)
    ensures
        r.expected_revision == revision,
        r.activity_kind == EngineActivityKind::OfficialRace,
        r.map_id@ == map_id@,
        r.time_of_day_preset == engine_preset(preset),
{
    RuntimeSwitch {
        expected_revision: revision,
        activity_kind: EngineActivityKind::OfficialRace,
        map_id: map_id.to_owned(),
        time_of_day_preset: race_time_of_day_preset_to_engine(preset),
    }
}

/// A signal is new exactly where it is there and was not there in the last tick.
pub proof fn signals_are_new_once(s: RaceLauncher, present: bool)
    ensures
        s.sees_prepare(present) <==> present && !s.prepare_signal_seen,
        s.sees_start(present) <==> present && !s.start_signal_seen,
        s.is_consistent() <==> (s.race_started ==> s.race_prepared),
{
}

/// What ends, prepares or starts a race changes the race alone and leaves the signals that
/// were seen.
pub proof fn races_begin_and_end(s: RaceLauncher, done: bool, present: bool)
    ensures
        !s.without_race().race_prepared && !s.without_race().race_started,
        s.without_race().prepare_signal_seen == s.prepare_signal_seen,
        s.without_race().start_signal_seen == s.start_signal_seen,
        s.with_prepared(done).race_prepared == done,
        s.with_prepared(done).race_started == s.race_started,
        s.with_prepared(done).prepare_signal_seen == s.prepare_signal_seen,
        s.with_prepared(done).start_signal_seen == s.start_signal_seen,
        s.after_start(present).race_started <==> s.race_started || (present
            && !s.start_signal_seen && s.race_prepared),
        s.after_start(present).race_prepared == s.race_prepared,
        s.after_start(present).prepare_signal_seen == s.prepare_signal_seen,
        s.after_start(present).start_signal_seen == s.start_signal_seen,
{
}

/// A new prepare signal ends the race that there was: what runs after it is the race that
/// was prepared for it or, where that failed, for the start signal, and it has started only
/// with a new start signal.
pub proof fn new_prepare_signal_ends_the_race(
    s: RaceLauncher,
    start_present: bool,
    prepared: bool,
    prepared_late: bool,
)
    requires
        !s.prepare_signal_seen,
    ensures
        ({
            let after = after_signals(s, true, start_present, prepared, prepared_late);
            let starts = start_present && !s.start_signal_seen;
            &&& after.race_prepared <==> prepared || (starts && prepared_late)
            &&& after.race_started <==> starts && (prepared || prepared_late)
        }),
{
}

/// An entry of a cleanup is about the team's own bot: its container and its car under both
/// ids.
pub proof fn cleanup_is_about_the_teams_bot(
    entry: BotCleanup,
    bots: Map<Seq<char>, TeamOfficialRaceBotState>,
)
    ensures
        is_bot_of(entry, bots) <==> {
            &&& bots.contains_key(entry.team_id@)
            &&& bots[entry.team_id@].container_name == entry.container_name
            &&& bots[entry.team_id@].public_car_id == entry.public_car_id
            &&& bots[entry.team_id@].engine_car_id == entry.engine_car_id
        },
{
}

} // verus!
