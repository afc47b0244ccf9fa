//! The watch over a bot's container: what is done step by step once the container has
//! exited.

use vstd::prelude::*;
use crate::engine::EngineActivityKind;
use crate::participant::bots::{
    attempts_after_restart, bot_in_container, find_bot_in_container,
    handle_unrecoverable_official_race_bot_exit, has_restarts_left, is_parked_bot, record_restart,
    remove_exited_bot, restart_delay, restart_delay_ms, unrecoverable_exit, UnrecoverableExit,
    AUTO_RESTART_MAX_ATTEMPTS,
};
use crate::participant::official::TeamOfficialRaceBotState;
use crate::participant::registry::OfficialRaceBots;
use crate::participant::stream::with_emergency_pitstop;
use crate::race::runtime_store::{RaceRuntimeStore, StoreView, TELEPORT_IDLE_WINDOW_MS};
use crate::text;

verus! {

/// The watch over the container in which a team's bot was started.
#[derive(Debug)]
pub struct ExitMonitor {
    pub team_id: String,
    pub container_id: String,
}

/// A bot that may be restarted, and whether the race had started when that was
/// decided.
#[derive(Debug)]
pub struct RestartPlan {
    pub current: TeamOfficialRaceBotState,
    pub race_started: bool,
}

/// A container that was started in the place of one that exited.
#[derive(Debug)]
pub struct NewContainer {
    pub container_id: String,
    pub log_file_path: String,
}

/// What is to be done next.
#[derive(Debug)]
pub enum ExitAction {
    /// The watch is over.
    Done,
    /// Wait, then call `on_delay`.
    Sleep { delay_ms: u64 },
    /// Ask the engine what it runs, then call `on_runtime`.
    ReadRuntime(RestartPlan),
    /// Issue the two tokens and start the bot's image in a new container, then call
    /// `on_restart`.
    Restart(RestartPlan),
    /// Watch over the new container; this watch is over.
    Watch { container_id: String },
    /// Close the log, remove the container and have the engine put the car into the
    /// pit, then call `on_pit`.
    ToPit(TeamOfficialRaceBotState),
    /// Close the log and have the engine despawn the car, then call `on_despawned`.
    Despawn(TeamOfficialRaceBotState),
}

/// Whether the end of the container's log is worth showing.
pub fn wants_log_tail(exit_code: i32) -> (r: bool)
    ensures
        r == (exit_code != 0),
{
    exit_code != 0
}

impl ExitMonitor {
    /// The bot that still runs in the container, where there is one.
    pub open spec fn watched(self, bots: Map<Seq<char>, TeamOfficialRaceBotState>) -> Option<
        TeamOfficialRaceBotState,
    > {
        bot_in_container(bots, self.team_id@, self.container_id@)
    }

    /// The bot is not restarted: `before` and `after` are the bots, `current` is the
    /// bot as it was when the restart was looked into. A bot whose car is in a
    /// started race is parked; every other bot leaves with its car.
    pub open spec fn has_given_up(
        self,
        action: ExitAction,
        s: StoreView,
        before: Map<Seq<char>, TeamOfficialRaceBotState>,
        after: Map<Seq<char>, TeamOfficialRaceBotState>,
        current: TeamOfficialRaceBotState,
        race_started: bool,
        server_time_ms: u64,
    ) -> bool {
        let team = self.team_id@;
        match unrecoverable_exit(race_started, s, before, team, current, self.container_id@) {
            UnrecoverableExit::Remove => match self.watched(before) {
                Some(bot) => action == ExitAction::Despawn(bot) && after == before.remove(team),
                None => action is Done && after == before,
            },
            UnrecoverableExit::Superseded => action is Done && after == before,
            UnrecoverableExit::AwaitSlotSwitch => {
                &&& action == ExitAction::ToPit(current)
                &&& after.contains_key(team)
                &&& after == before.insert(team, after[team])
                &&& is_parked_bot(after[team], before[team], server_time_ms)
            },
        }
    }

    /// The container has exited. A bot that runs elsewhere by now is left alone.
    pub fn on_exit(&self, bots: &OfficialRaceBots, race_started: bool) -> (a: ExitAction)
        ensures
            match self.watched(bots@) {
                None => a is Done,
                Some(bot) => a matches ExitAction::Sleep { delay_ms } && delay_ms == restart_delay(
                    race_started,
                    bot.auto_restart_attempts,
                ),
            },
    {
        match find_bot_in_container(bots, self.team_id.as_str(), self.container_id.as_str()) {
            None => ExitAction::Done,
            Some(bot) => ExitAction::Sleep {
                delay_ms: restart_delay_ms(race_started, bot.auto_restart_attempts),
            },
        }
    }

    /// The wait is over. A bot that has restarts left may be restarted.
    pub fn on_delay(
        &self,
        store: &RaceRuntimeStore,
        bots: &mut OfficialRaceBots,
        race_started: bool,
        server_time_ms: u64,
    ) -> (a: ExitAction)
        ensures
            match self.watched(old(bots)@) {
                None => a is Done && final(bots)@ == old(bots)@,
                Some(current) => if !race_started || current.auto_restart_attempts
                    < AUTO_RESTART_MAX_ATTEMPTS {
                    &&& a == ExitAction::ReadRuntime(RestartPlan { current, race_started })
                    &&& final(bots)@ == old(bots)@
                } else {
                    self.has_given_up(
                        a,
                        store@,
                        old(bots)@,
                        final(bots)@,
                        current,
                        race_started,
                        server_time_ms,
                    )
                },
            },
    {
        match find_bot_in_container(bots, self.team_id.as_str(), self.container_id.as_str()) {
            None => ExitAction::Done,
            Some(current) => {
                if has_restarts_left(race_started, current.auto_restart_attempts) {
                    ExitAction::ReadRuntime(RestartPlan { current, race_started })
                } else {
                    self.give_up(store, bots, current, race_started, server_time_ms)
                }
            },
        }
    }

    /// The engine said what it runs, or could not be asked. Only in an official race
    /// are bots restarted.
    pub fn on_runtime(
        &self,
        plan: RestartPlan,
        activity: Option<EngineActivityKind>,
        store: &RaceRuntimeStore,
        bots: &mut OfficialRaceBots,
        race_started: bool,
        server_time_ms: u64,
    ) -> (a: ExitAction)
        ensures
            activity == Some(EngineActivityKind::OfficialRace) ==> a == ExitAction::Restart(plan)
                && final(bots)@ == old(bots)@,
            activity != Some(EngineActivityKind::OfficialRace) ==> self.has_given_up(
                a,
                store@,
                old(bots)@,
                final(bots)@,
                plan.current,
                race_started,
                server_time_ms,
            ),
    {
        match activity {
            Some(EngineActivityKind::OfficialRace) => ExitAction::Restart(plan),
            _ => self.give_up(store, bots, plan.current, race_started, server_time_ms),
        }
    }

    /// The bot runs in a new container, or could not be restarted.
    pub fn on_restart(
        &self,
        plan: RestartPlan,
        started: Option<NewContainer>,
        store: &RaceRuntimeStore,
        bots: &mut OfficialRaceBots,
        race_started: bool,
        server_time_ms: u64,
    ) -> (a: ExitAction)
        ensures
            match started {
                Some(new) => {
                    &&& a == (ExitAction::Watch { container_id: new.container_id })
                    &&& final(bots)@ == old(bots)@.insert(
                        self.team_id@,
                        (TeamOfficialRaceBotState {
                            container_id: new.container_id,
                            log_file_path: new.log_file_path,
                            auto_restart_attempts: attempts_after_restart(
                                plan.race_started,
                                plan.current.auto_restart_attempts,
                            ),
                            ..plan.current
                        }),
                    )
                },
                None => self.has_given_up(
                    a,
                    store@,
                    old(bots)@,
                    final(bots)@,
                    plan.current,
                    race_started,
                    server_time_ms,
                ),
            },
    {
        match started {
            Some(new) => {
                let container_id: String = new.container_id.clone();
                record_restart(
                    bots,
                    self.team_id.as_str(),
                    &plan.current,
                    plan.race_started,
                    new.container_id,
                    new.log_file_path,
                );
                ExitAction::Watch { container_id }
            },
            None => self.give_up(store, bots, plan.current, race_started, server_time_ms),
        }
    }

    fn give_up(
        &self,
        store: &RaceRuntimeStore,
        bots: &mut OfficialRaceBots,
        current: TeamOfficialRaceBotState,
        race_started: bool,
        server_time_ms: u64,
    ) -> (a: ExitAction)
        ensures
            self.has_given_up(
                a,
                store@,
                old(bots)@,
                final(bots)@,
                current,
                race_started,
                server_time_ms,
            ),
    {
        let outcome: UnrecoverableExit = handle_unrecoverable_official_race_bot_exit(
            store,
            bots,
            self.team_id.as_str(),
            &current,
            self.container_id.as_str(),
            race_started,
            server_time_ms,
        );
        match outcome {
            UnrecoverableExit::Remove => {
                match remove_exited_bot(bots, self.team_id.as_str(), self.container_id.as_str()) {
                    Some(bot) => ExitAction::Despawn(bot),
                    None => ExitAction::Done,
                }
            },
            UnrecoverableExit::Superseded => ExitAction::Done,
            UnrecoverableExit::AwaitSlotSwitch => ExitAction::ToPit(current),
        }
    }

    /// The engine has put the car of a parked bot into the pit, or has not.
    pub fn on_pit(
        store: &mut RaceRuntimeStore,
        bot: &TeamOfficialRaceBotState,
        done: bool,
        server_time_ms: u64,
    )
        requires
            server_time_ms + TELEPORT_IDLE_WINDOW_MS <= u64::MAX,
        ensures
            final(store)@ == if done {
                with_emergency_pitstop(old(store)@, bot.public_car_id, server_time_ms)
            } else {
                old(store)@
            },
    {
        if done {
            store.mark_emergency_pitstop_requested(bot.public_car_id, server_time_ms);
        }
    }

    /// The engine was asked to despawn the car, whatever came of that.
    pub fn on_despawned(store: &mut RaceRuntimeStore, bot: &TeamOfficialRaceBotState)
        ensures
            final(store)@ == old(store)@.without_car(bot.public_car_id),
    {
        store.remove_car(bot.public_car_id);
    }
}

/// Giving a bot up leaves the bots of all other teams alone, and no bot runs in the
/// container any more, unless the container is called what a parked bot's would be.
/// A bot that had left the container before stays as it was.
pub proof fn given_up_bot_has_left_its_container(
    monitor: ExitMonitor,
    action: ExitAction,
    s: StoreView,
    before: Map<Seq<char>, TeamOfficialRaceBotState>,
    after: Map<Seq<char>, TeamOfficialRaceBotState>,
    current: TeamOfficialRaceBotState,
    race_started: bool,
    server_time_ms: u64,
    team: Seq<char>,
)
    requires
        monitor.has_given_up(
            action,
            s,
            before,
            after,
            current,
            race_started,
            server_time_ms,
        ),
    ensures
        team != monitor.team_id@ ==> after.contains_key(team) == before.contains_key(team)
            && after[team] == before[team],
        monitor.watched(after) is Some ==> monitor.container_id@ == "awaiting-slot-switch-"@
            + text::decimal(server_time_ms as nat),
        monitor.watched(before) is None ==> after == before,
{
}

/// The watch is over the team's bot in the container that it was begun for, and over no
/// other.
pub proof fn watch_is_over_one_container(
    monitor: ExitMonitor,
    bots: Map<Seq<char>, TeamOfficialRaceBotState>,
)
    ensures
        monitor.watched(bots) is Some <==> bots.contains_key(monitor.team_id@)
            && bots[monitor.team_id@].container_id@ == monitor.container_id@,
        monitor.watched(bots) matches Some(bot) ==> bot == bots[monitor.team_id@],
{
}

/// A bot that is given up leaves with its car, or is parked and its car sent to the pit, or
/// is left alone where another runs for the team. Other teams' bots stay as they are.
pub proof fn giving_up_concerns_one_bot(
    monitor: ExitMonitor,
    action: ExitAction,
    s: StoreView,
    before: Map<Seq<char>, TeamOfficialRaceBotState>,
    after: Map<Seq<char>, TeamOfficialRaceBotState>,
    current: TeamOfficialRaceBotState,
    race_started: bool,
    server_time_ms: u64,
    other: Seq<char>,
)
    requires
        monitor.has_given_up(
            action,
            s,
            before,
            after,
            current,
            race_started,
            server_time_ms,
        ),
        other != monitor.team_id@,
    ensures
        after.contains_key(other) == before.contains_key(other),
        after.contains_key(other) ==> after[other] == before[other],
        action is Done || action is Despawn || action is ToPit,
        action is Done ==> after == before,
        action matches ExitAction::Despawn(bot) ==> bot == before[monitor.team_id@]
            && bot.container_id@ == monitor.container_id@ && !after.contains_key(
            monitor.team_id@,
        ),
        action matches ExitAction::ToPit(bot) ==> bot == current && race_started
            && after.contains_key(monitor.team_id@) && after[monitor.team_id@].engine_car_id
            == before[monitor.team_id@].engine_car_id
            && after[monitor.team_id@].auto_restart_attempts == 0,
        !race_started && monitor.watched(before) is Some ==> action is Despawn,
{
}

} // verus!
