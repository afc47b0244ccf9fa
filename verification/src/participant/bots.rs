//! The bots of the official race once they run: what is done when one exits, when
//! its car has gone, and when the team picks another slot for it.

use vstd::prelude::*;
use crate::engine::TargetView;
use crate::participant::official::TeamOfficialRaceBotState;
use crate::participant::registry::OfficialRaceBots;
use crate::race::runtime_store::{PitView, RaceRuntimeStore, RuntimePitTireType, StoreView};
use crate::text;

verus! {

pub const AUTO_RESTART_MAX_ATTEMPTS: u32 = 12;

pub const AUTO_RESTART_BASE_DELAY_MS: u64 = 500;

pub const PRESTART_RESTART_DELAY_MS: u64 = 1_000;

/// The delay doubles with each of the first restarts, this many times at most.
pub const MAX_DELAY_DOUBLINGS: u32 = 4;

/// `n` doubled `times` times.
pub open spec fn doubled(n: nat, times: nat) -> nat
    decreases times,
{
    if times == 0 {
        n
    } else {
        2 * doubled(n, (times - 1) as nat)
    }
}

/// How long a bot that exited waits for its restart.
pub open spec fn restart_delay(race_started: bool, attempts: u32) -> nat {
    if !race_started {
        PRESTART_RESTART_DELAY_MS as nat
    } else if attempts < MAX_DELAY_DOUBLINGS {
        doubled(AUTO_RESTART_BASE_DELAY_MS as nat, attempts as nat)
    } else {
        doubled(AUTO_RESTART_BASE_DELAY_MS as nat, MAX_DELAY_DOUBLINGS as nat)
    }
}

pub fn restart_delay_ms(race_started: bool, attempts: u32) -> (r: u64)
    ensures
        r == restart_delay(race_started, attempts),
        !race_started ==> r == 1_000,
        race_started && attempts == 0 ==> r == 500,
        race_started && attempts >= 4 ==> r == 8_000,
{
    if !race_started {
        return PRESTART_RESTART_DELAY_MS;
    }
    let limit: u32 = if attempts < MAX_DELAY_DOUBLINGS {
        attempts
    } else {
        MAX_DELAY_DOUBLINGS
    };
    let mut delay: u64 = AUTO_RESTART_BASE_DELAY_MS;
    let mut i: u32 = 0;
    proof {
        reveal_with_fuel(doubled, 5);
    }
    while i < limit
        invariant
            i <= limit <= MAX_DELAY_DOUBLINGS,
            delay == doubled(AUTO_RESTART_BASE_DELAY_MS as nat, i as nat),
            i == 0 ==> delay == 500,
            i == 1 ==> delay == 1000,
            i == 2 ==> delay == 2000,
            i == 3 ==> delay == 4000,
            i == 4 ==> delay == 8000,
        decreases limit - i,
    {
        delay = delay * 2;
        i += 1;
    }
    delay
}

/// In a race the wait is at least half a second and at most eight, and does not
/// shrink as the attempts grow.
pub proof fn restart_delay_grows_to_a_limit(attempts: u32, more: u32)
    requires
        attempts <= more,
    ensures
        500 <= restart_delay(true, attempts) <= restart_delay(true, more) <= 8_000,
{
    reveal_with_fuel(doubled, 5);
}

/// The bot of a team, where it still runs in the container.
pub open spec fn bot_in_container(
    bots: Map<Seq<char>, TeamOfficialRaceBotState>,
    team_id: Seq<char>,
    container_id: Seq<char>,
) -> Option<TeamOfficialRaceBotState> {
    if bots.contains_key(team_id) && bots[team_id].container_id@ == container_id {
        Some(bots[team_id])
    } else {
        None
    }
}

pub fn find_bot_in_container(
    bots: &OfficialRaceBots,
    team_id: &str,
    container_id: &str,
) -> (r: Option<TeamOfficialRaceBotState>)
    ensures
        r == bot_in_container(bots@, team_id@, container_id@),
{
    match bots.get(team_id) {
        Some(bot) => {
            if text::str_eq(bot.container_id.as_str(), container_id) {
                Some(bot)
            } else {
                None
            }
        },
        None => None,
    }
}

/// Whether a bot that exited has restarts left: before the start of the race it
/// always has.
pub fn has_restarts_left(race_started: bool, attempts: u32) -> (r: bool)
    ensures
        r == (!race_started || attempts < AUTO_RESTART_MAX_ATTEMPTS),
        r == (!race_started || attempts < 12),
{
    !race_started || attempts < AUTO_RESTART_MAX_ATTEMPTS
}

/// The restarts that are counted against a bot after one more: they count in a race
/// only.
pub open spec fn attempts_after_restart(race_started: bool, attempts: u32) -> u32 {
    if !race_started {
        0
    } else if attempts == u32::MAX {
        u32::MAX
    } else {
        (attempts + 1) as u32
    }
}

/// The bot runs in a new container.
pub fn record_restart(
    bots: &mut OfficialRaceBots,
    team_id: &str,
    current: &TeamOfficialRaceBotState,
    race_started: bool,
    container_id: String,
    log_file_path: String,
)
    ensures
        final(bots)@ == old(bots)@.insert(
            team_id@,
            (TeamOfficialRaceBotState {
                container_id,
                log_file_path,
                auto_restart_attempts: attempts_after_restart(
                    race_started,
                    current.auto_restart_attempts,
                ),
                ..*current
            }),
        ),
{
    let mut next: TeamOfficialRaceBotState = current.clone();
    next.container_id = container_id;
    next.log_file_path = log_file_path;
    next.auto_restart_attempts = if !race_started {
        0
    } else if current.auto_restart_attempts == u32::MAX {
        u32::MAX
    } else {
        current.auto_restart_attempts + 1
    };
    bots.insert(team_id.to_owned(), next);
}

/// The bot was refreshed for the start of the race: it runs in a new container with
/// all its restarts.
pub fn record_refresh(
    bots: &mut OfficialRaceBots,
    team_id: &str,
    current: &TeamOfficialRaceBotState,
    container_id: String,
    log_file_path: String,
)
    ensures
        final(bots)@ == old(bots)@.insert(
            team_id@,
            (TeamOfficialRaceBotState {
                container_id,
                log_file_path,
                auto_restart_attempts: 0,
                ..*current
            }),
        ),
{
    record_restart(bots, team_id, current, false, container_id, log_file_path);
}

/// How many times something went well, and how many times not.
#[derive(Clone, Copy, PartialEq, Eq, Debug, Structural)]
pub struct Tally {
    pub done: usize,
    pub failed: usize,
}

/// One more, up to the largest count.
pub open spec fn counted(n: usize) -> usize {
    if n == usize::MAX {
        n
    } else {
        (n + 1) as usize
    }
}

impl Tally {
    pub fn new() -> (r: Tally)
        ensures
            r == (Tally { done: 0, failed: 0 }),
    {
        Tally { done: 0, failed: 0 }
    }

    pub fn count(&mut self, done: bool)
        ensures
            *final(self) == if done {
                Tally { done: counted(old(self).done), ..*old(self) }
            } else {
                Tally { failed: counted(old(self).failed), ..*old(self) }
            },
    {
        if done {
            if self.done < usize::MAX {
                self.done = self.done + 1;
            }
        } else if self.failed < usize::MAX {
            self.failed = self.failed + 1;
        }
    }
}

/// The engine has put a bot's car on hard tyres, or has not; a car that it has gets
/// hard tyres at its next stop too.
pub fn on_hard_tyres(
    store: &mut RaceRuntimeStore,
    bot: &TeamOfficialRaceBotState,
    forced: bool,
    tally: &mut Tally,
)
    ensures
        final(store)@ == if forced {
            old(store)@.with_pit(
                bot.public_car_id,
                PitView {
                    next_pit_tire_type: RuntimePitTireType::Hard,
                    ..old(store)@.pit(bot.public_car_id)
                },
            )
        } else {
            old(store)@
        },
        *final(tally) == if forced {
            Tally { done: counted(old(tally).done), ..*old(tally) }
        } else {
            Tally { failed: counted(old(tally).failed), ..*old(tally) }
        },
{
    tally.count(forced);
    if forced {
        store.set_next_pit_tire_type(bot.public_car_id, RuntimePitTireType::Hard);
    }
}

/// The bot's car is registered as the bot knows it.
pub open spec fn car_matches(s: StoreView, bot: TeamOfficialRaceBotState) -> bool {
    &&& s.record(bot.public_car_id).target == Some(TargetView::OfficialRace)
    &&& s.record(bot.public_car_id).engine_car_id == Some(bot.engine_car_id)
}

pub fn is_car_matching(store: &RaceRuntimeStore, bot: &TeamOfficialRaceBotState) -> (r: bool)
    ensures
        r == car_matches(store@, *bot),
{
    let is_official = match store.car_target(bot.public_car_id) {
        Some(target) => target.is_official_race(),
        None => false,
    };
    let is_same_car = match store.car_engine_id(bot.public_car_id) {
        Some(id) => id == bot.engine_car_id,
        None => false,
    };
    is_official && is_same_car
}

/// What becomes of a bot that exited and was not restarted.
#[derive(Clone, Copy, PartialEq, Eq, Debug, Structural)]
pub enum UnrecoverableExit {
    /// The bot and its car are to be removed.
    Remove,
    /// Something else runs for the team already.
    Superseded,
    /// The car waits in the pit until the team picks another slot: the log is
    /// closed, the container is removed, the car is sent to the pit.
    AwaitSlotSwitch,
}

pub open spec fn unrecoverable_exit(
    race_started: bool,
    s: StoreView,
    bots: Map<Seq<char>, TeamOfficialRaceBotState>,
    team_id: Seq<char>,
    current: TeamOfficialRaceBotState,
    exited: Seq<char>,
) -> UnrecoverableExit {
    if !race_started || !car_matches(s, current) {
        UnrecoverableExit::Remove
    } else if bot_in_container(bots, team_id, exited) is None {
        UnrecoverableExit::Superseded
    } else {
        UnrecoverableExit::AwaitSlotSwitch
    }
}

/// `before` with another container id, made of a word and a time, and with no
/// restarts counted.
pub open spec fn is_parked_bot(
    after: TeamOfficialRaceBotState,
    before: TeamOfficialRaceBotState,
    server_time_ms: u64,
) -> bool {
    &&& after.container_id@ == "awaiting-slot-switch-"@ + text::decimal(server_time_ms as nat)
    &&& after == (TeamOfficialRaceBotState {
        container_id: after.container_id,
        auto_restart_attempts: 0,
        ..before
    })
}

/// Decides on a bot that exited and was not restarted. One whose car is still in a
/// started race is kept, under a container id that no container has.
pub fn handle_unrecoverable_official_race_bot_exit(
    store: &RaceRuntimeStore,
    bots: &mut OfficialRaceBots,
    team_id: &str,
    current: &TeamOfficialRaceBotState,
    exited_container_id: &str,
    race_started: bool,
    server_time_ms: u64,
) -> (r: UnrecoverableExit)
    ensures
        r == unrecoverable_exit(
            race_started,
            store@,
            old(bots)@,
            team_id@,
            *current,
            exited_container_id@,
        ),
        r != UnrecoverableExit::AwaitSlotSwitch ==> final(bots)@ == old(bots)@,
        r == UnrecoverableExit::AwaitSlotSwitch ==> final(bots)@.contains_key(team_id@)
            && final(bots)@ == old(bots)@.insert(team_id@, final(bots)@[team_id@]) && is_parked_bot(
            final(bots)@[team_id@],
            old(bots)@[team_id@],
            server_time_ms,
        ),
{
    if !race_started || !is_car_matching(store, current) {
        return UnrecoverableExit::Remove;
    }
    match find_bot_in_container(bots, team_id, exited_container_id) {
        None => UnrecoverableExit::Superseded,
        Some(bot) => {
            let mut parked: TeamOfficialRaceBotState = bot;
            parked.container_id = stamped("awaiting-slot-switch-", server_time_ms);
            parked.auto_restart_attempts = 0;
            bots.insert(team_id.to_owned(), parked);
            UnrecoverableExit::AwaitSlotSwitch
        },
    }
}

fn stamped(word: &str, server_time_ms: u64) -> (r: String)
    ensures
        r@ == word@ + text::decimal(server_time_ms as nat),
{
    let mut r: String = word.to_owned();
    text::push_decimal(&mut r, server_time_ms as u128);
    r
}

/// The registry forgets the bot that exited, where nothing else runs for the team.
pub fn remove_exited_bot(bots: &mut OfficialRaceBots, team_id: &str, container_id: &str) -> (r:
    Option<TeamOfficialRaceBotState>)
    ensures
        r == bot_in_container(old(bots)@, team_id@, container_id@),
        final(bots)@ == if r is Some {
            old(bots)@.remove(team_id@)
        } else {
            old(bots)@
        },
{
    let found = find_bot_in_container(bots, team_id, container_id);
    match &found {
        Some(_) => {
            bots.remove(team_id);
        },
        None => {},
    }
    found
}

/// A bot whose car is not registered as the bot knows it is forgotten; its log is
/// closed and its container removed.
pub fn reconcile_official_race_bot_liveness(
    store: &RaceRuntimeStore,
    bots: &mut OfficialRaceBots,
    team_id: &str,
) -> (r: Option<TeamOfficialRaceBotState>)
    ensures
        ({
            let is_stale = old(bots)@.contains_key(team_id@) && !car_matches(
                store@,
                old(bots)@[team_id@],
            );
            &&& r == if is_stale {
                Some(old(bots)@[team_id@])
            } else {
                None
            }
            &&& final(bots)@ == if is_stale {
                old(bots)@.remove(team_id@)
            } else {
                old(bots)@
            }
        }),
{
    match bots.get(team_id) {
        None => None,
        Some(bot) => {
            if is_car_matching(store, &bot) {
                return None;
            }
            bots.remove(team_id);
            Some(bot)
        },
    }
}

/// After it was reconciled, a bot that is left has its car.
pub proof fn reconciled_bot_has_its_car(
    s: StoreView,
    before: Map<Seq<char>, TeamOfficialRaceBotState>,
    after: Map<Seq<char>, TeamOfficialRaceBotState>,
    team_id: Seq<char>,
)
    requires
        after == if before.contains_key(team_id) && !car_matches(s, before[team_id]) {
            before.remove(team_id)
        } else {
            before
        },
        after.contains_key(team_id),
    ensures
        car_matches(s, after[team_id]),
        after[team_id] == before[team_id],
{
}

/// Whether a bot is switched to the slot that the team has selected: only while its
/// car stands in the pit, and only to another slot.
pub fn is_slot_switch_due(
    bot: &TeamOfficialRaceBotState,
    stands_in_fix: bool,
    selected_slot: i16,
) -> (r: bool)
    ensures
        r == (stands_in_fix && selected_slot != bot.slot_index),
{
    stands_in_fix && selected_slot != bot.slot_index
}

/// Before the container for the new slot starts, the bot gets a container id that no
/// container has: the exit of the old one is then no exit of the bot.
pub fn begin_slot_switch(bots: &mut OfficialRaceBots, team_id: &str, server_time_ms: u64)
    ensures
        !old(bots)@.contains_key(team_id@) ==> final(bots)@ == old(bots)@,
        old(bots)@.contains_key(team_id@) ==> {
            &&& final(bots)@.contains_key(team_id@)
            &&& final(bots)@ == old(bots)@.insert(team_id@, final(bots)@[team_id@])
            &&& final(bots)@[team_id@].container_id@ == "switching-"@ + text::decimal(
                server_time_ms as nat,
            )
            &&& final(bots)@[team_id@] == (TeamOfficialRaceBotState {
                container_id: final(bots)@[team_id@].container_id,
                ..old(bots)@[team_id@]
            })
        },
{
    match bots.get(team_id) {
        None => {},
        Some(bot) => {
            let mut switching: TeamOfficialRaceBotState = bot;
            switching.container_id = stamped("switching-", server_time_ms);
            bots.insert(team_id.to_owned(), switching);
        },
    }
}

/// The container for the new slot runs: the bot keeps its car and starts afresh
/// otherwise.
pub fn finish_slot_switch(
    bots: &mut OfficialRaceBots,
    team_id: &str,
    bot: TeamOfficialRaceBotState,
    selected_slot: i16,
    submission_id: String,
    image_ref: String,
    container_id: String,
    log_file_path: String,
)
    ensures
        final(bots)@ == old(bots)@.insert(
            team_id@,
            (TeamOfficialRaceBotState {
                slot_index: selected_slot,
                container_id,
                submission_id,
                image_ref,
                log_file_path,
                auto_restart_attempts: 0,
                ..bot
            }),
        ),
{
    bots.insert(
        team_id.to_owned(),
        TeamOfficialRaceBotState {
            public_car_id: bot.public_car_id,
            engine_car_id: bot.engine_car_id,
            start_position_index: bot.start_position_index,
            slot_index: selected_slot,
            container_name: bot.container_name,
            container_id,
            submission_id,
            image_ref,
            log_file_path,
            auto_restart_attempts: 0,
        },
    );
}

/// Before the race a bot waits a second. In the race the first wait is half a second, each
/// of the four that follow is twice the one before, and from then on it stays.
pub proof fn waits_double_four_times(attempts: u32)
    ensures
        restart_delay(false, attempts) == 1_000,
        restart_delay(true, 0) == 500,
        attempts < 4 ==> restart_delay(true, (attempts + 1) as u32) == 2 * restart_delay(
            true,
            attempts,
        ),
        4 <= attempts < u32::MAX ==> restart_delay(true, (attempts + 1) as u32) == restart_delay(
            true,
            attempts,
        ),
        attempts >= 4 ==> restart_delay(true, attempts) == 8_000,
{
    reveal_with_fuel(doubled, 6);
}

/// Restarts count one by one in a race, and none before it.
pub proof fn restarts_count_in_a_race(attempts: u32)
    ensures
        attempts_after_restart(false, attempts) == 0,
        attempts < u32::MAX ==> attempts_after_restart(true, attempts) == attempts + 1,
        attempts == u32::MAX ==> attempts_after_restart(true, attempts) == attempts,
{
}

/// A bot is found exactly where it is the team's and runs in the container.
pub proof fn bot_is_found_in_its_container(
    bots: Map<Seq<char>, TeamOfficialRaceBotState>,
    team_id: Seq<char>,
    container_id: Seq<char>,
)
    ensures
        bot_in_container(bots, team_id, container_id) is Some <==> bots.contains_key(team_id)
            && bots[team_id].container_id@ == container_id,
        bot_in_container(bots, team_id, container_id) matches Some(bot) ==> bot == bots[team_id]
            && bot.container_id@ == container_id,
{
}

/// A count grows by one until it can grow no more.
pub proof fn counts_grow_by_one(n: usize)
    ensures
        n < usize::MAX ==> counted(n) == n + 1,
        n == usize::MAX ==> counted(n) == n,
{
}

/// A bot's car is known as it is registered exactly where it runs in the official race under
/// the engine's id that the bot has.
pub proof fn car_is_known_by_race_and_id(s: StoreView, bot: TeamOfficialRaceBotState)
    ensures
        car_matches(s, bot) <==> s.record(bot.public_car_id).target == Some(
            TargetView::OfficialRace,
        ) && s.record(bot.public_car_id).engine_car_id == Some(bot.engine_car_id),
{
}

/// Before the race, or without its car, a bot that was not restarted is removed. In the race
/// it waits for another slot while it still runs in the container that exited, and nothing
/// is done once another runs for the team.
pub proof fn exit_is_decided_by_race_car_and_container(
    race_started: bool,
    s: StoreView,
    bots: Map<Seq<char>, TeamOfficialRaceBotState>,
    team_id: Seq<char>,
    current: TeamOfficialRaceBotState,
    exited: Seq<char>,
)
    ensures
        ({
            let exit = unrecoverable_exit(race_started, s, bots, team_id, current, exited);
            let stays = race_started && s.record(current.public_car_id).target == Some(
                TargetView::OfficialRace,
            ) && s.record(current.public_car_id).engine_car_id == Some(current.engine_car_id);
            let runs = bots.contains_key(team_id) && bots[team_id].container_id@ == exited;
            &&& (exit is Remove) == !stays
            &&& (exit is Superseded) == (stays && !runs)
            &&& (exit is AwaitSlotSwitch) == (stays && runs)
        }),
{
}

/// A bot that waits for another slot keeps its car, its slot and its build; its restarts are
/// counted anew, and its container is named after the time.
pub proof fn parked_bot_keeps_its_car(
    after: TeamOfficialRaceBotState,
    before: TeamOfficialRaceBotState,
    server_time_ms: u64,
)
    requires
        is_parked_bot(after, before, server_time_ms),
    ensures
        after.public_car_id == before.public_car_id,
        after.engine_car_id == before.engine_car_id,
        after.slot_index == before.slot_index,
        after.submission_id == before.submission_id,
        after.image_ref == before.image_ref,
        after.log_file_path == before.log_file_path,
        after.auto_restart_attempts == 0,
        after.container_id@ == "awaiting-slot-switch-"@ + text::decimal(server_time_ms as nat),
{
}

} // verus!
