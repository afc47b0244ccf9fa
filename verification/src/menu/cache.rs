//! What the menu remembers of stored races and sandboxes, and the signals by which it
//! forgets it.

use vstd::prelude::*;
use crate::race_config::records::RaceConfigRecord;
use crate::sandbox_config::records::SandboxConfigRecord;
use crate::status::{Code, Status};
use crate::text;
use crate::timestamp::{ms_to_timestamp, timestamp_of, Timestamp};

verus! {

/// Races that start within this time are upcoming.
pub const UPCOMING_RACE_WINDOW_MS: i64 = 3_600_000;

pub const UPCOMING_CACHE_TTL_MS: i64 = 60_000;

pub const SANDBOX_CONFIG_CACHE_TTL_MS: i64 = 60_000;

/// The next generation; the count wraps round.
pub open spec fn generation_after(generation: u64) -> u64 {
    if generation == u64::MAX {
        0
    } else {
        (generation + 1) as u64
    }
}

fn next_generation(generation: u64) -> (r: u64)
    ensures
        r == generation_after(generation),
{
    if generation == u64::MAX {
        0
    } else {
        generation + 1
    }
}

/// The race starts from now on and within the window.
pub open spec fn starts_soon(start_ms: i64, now_ms: i64) -> bool {
    now_ms <= start_ms <= now_ms + UPCOMING_RACE_WINDOW_MS
}

pub fn is_within_upcoming_window(start_ms: i64, now_ms: i64) -> (r: bool)
    ensures
        r == starts_soon(start_ms, now_ms),
{
    let window_end_ms: i128 = now_ms as i128 + UPCOMING_RACE_WINDOW_MS as i128;
    start_ms >= now_ms && start_ms as i128 <= window_end_ms
}

/// The signal that upcoming races have changed.
#[derive(PartialEq, Eq, Debug, Structural)]
pub struct UpcomingRacesCacheInvalidation {
    pub generation: u64,
}

/// The start is one of a race that is upcoming.
pub open spec fn is_upcoming_start(start_ms: Option<i64>, now_ms: i64) -> bool {
    start_ms is Some && starts_soon(start_ms->Some_0, now_ms)
}

impl UpcomingRacesCacheInvalidation {
    pub fn new() -> (r: Self)
        ensures
            r.generation == 0,
    {
        UpcomingRacesCacheInvalidation { generation: 0 }
    }

    pub fn generation(&self) -> (r: u64)
        ensures
            r == self.generation,
    {
        self.generation
    }

    /// A race was moved, added or removed: a new generation begins where it was or is
    /// an upcoming one.
    pub fn invalidate_for_change(
        &mut self,
        old_start_ms: Option<i64>,
        new_start_ms: Option<i64>,
        now_ms: i64,
    )
        ensures
            final(self).generation == if is_upcoming_start(old_start_ms, now_ms)
                || is_upcoming_start(new_start_ms, now_ms) {
                generation_after(old(self).generation)
            } else {
                old(self).generation
            },
    {
        let was_upcoming = match old_start_ms {
            Some(start_ms) => is_within_upcoming_window(start_ms, now_ms),
            None => false,
        };
        let is_upcoming = match new_start_ms {
            Some(start_ms) => is_within_upcoming_window(start_ms, now_ms),
            None => false,
        };
        if was_upcoming || is_upcoming {
            self.generation = next_generation(self.generation);
        }
    }
}

/// The signal that sandboxes were configured.
#[derive(PartialEq, Eq, Debug, Structural)]
pub struct SandboxConfigCacheInvalidation {
    pub generation: u64,
}

impl SandboxConfigCacheInvalidation {
    pub fn new() -> (r: Self)
        ensures
            r.generation == 0,
    {
        SandboxConfigCacheInvalidation { generation: 0 }
    }

    pub fn generation(&self) -> (r: u64)
        ensures
            r == self.generation,
    {
        self.generation
    }

    pub fn invalidate(&mut self)
        ensures
            final(self).generation == generation_after(old(self).generation),
    {
        self.generation = next_generation(self.generation);
    }
}

/// What was read from storage, of which generation and when.
#[derive(Debug)]
pub struct MenuCache<T> {
    pub generation: u64,
    pub cached_at_ms: i64,
    pub content: T,
}

/// What was read is of the current generation and at most `ttl_ms` old.
pub open spec fn is_current<T>(
    cache: MenuCache<T>,
    generation: u64,
    now_ms: i64,
    ttl_ms: i64,
) -> bool {
    cache.generation == generation && now_ms - cache.cached_at_ms <= ttl_ms
}

impl<T> MenuCache<T> {
    /// A cache that was never filled.
    pub fn new(content: T) -> (r: Self)
        ensures
            r.generation == 0,
            r.cached_at_ms == 0,
            r.content == content,
    {
        MenuCache { generation: 0, cached_at_ms: 0, content }
    }

    /// What was read, where it is current.
    pub fn get(&self, generation: u64, now_ms: i64, ttl_ms: i64) -> (r: Option<&T>)
        ensures
            match r {
                Some(content) => is_current(*self, generation, now_ms, ttl_ms) && *content
                    == self.content,
                None => !is_current(*self, generation, now_ms, ttl_ms),
            },
    {
        let age: i128 = now_ms as i128 - self.cached_at_ms as i128;
        if self.generation == generation && age <= ttl_ms as i128 {
            Some(&self.content)
        } else {
            None
        }
    }

    /// Keeps what was read.
    pub fn store(&mut self, generation: u64, now_ms: i64, content: T)
        ensures
            *final(self) == (MenuCache { generation, cached_at_ms: now_ms, content }),
    {
        self.generation = generation;
        self.cached_at_ms = now_ms;
        self.content = content;
    }
}

/// After a new generation has begun, nothing that was read before is current.
pub proof fn new_generation_makes_stale<T>(
    cache: MenuCache<T>,
    generation: u64,
    now_ms: i64,
    ttl_ms: i64,
)
    requires
        cache.generation == generation,
    ensures
        !is_current(cache, generation_after(generation), now_ms, ttl_ms),
{
}

/// What was kept is current until it is too old.
pub proof fn kept_content_is_current<T>(
    generation: u64,
    stored_ms: i64,
    now_ms: i64,
    ttl_ms: i64,
    content: T,
)
    ensures
        is_current(
            MenuCache { generation, cached_at_ms: stored_ms, content },
            generation,
            now_ms,
            ttl_ms,
        ) <==> now_ms - stored_ms <= ttl_ms,
{
}

/// A race in the menu.
#[derive(Debug)]
pub struct PublicUpcomingRaceSummary {
    pub race_name: String,
    pub start_time_utc: Option<Timestamp>,
    pub race_duration_sec: u32,
}

impl Clone for PublicUpcomingRaceSummary {
    fn clone(&self) -> (r: Self)
        ensures
            r == *self,
    {
        PublicUpcomingRaceSummary {
            race_name: self.race_name.clone(),
            start_time_utc: self.start_time_utc,
            race_duration_sec: self.race_duration_sec,
        }
    }
}

/// The race in the menu.
pub open spec fn summary_of(race: RaceConfigRecord) -> PublicUpcomingRaceSummary {
    PublicUpcomingRaceSummary {
        race_name: race.config.race_name,
        start_time_utc: Some(timestamp_of(race.config.starts_at_ms as int)),
        race_duration_sec: race.config.race_duration_sec,
    }
}

/// The upcoming ones among the races, in their order.
pub open spec fn upcoming_of(races: Seq<RaceConfigRecord>, now_ms: i64) -> Seq<
    PublicUpcomingRaceSummary,
>
    decreases races.len(),
{
    if races.len() == 0 {
        Seq::empty()
    } else if starts_soon(races.last().config.starts_at_ms, now_ms) {
        upcoming_of(races.drop_last(), now_ms).push(summary_of(races.last()))
    } else {
        upcoming_of(races.drop_last(), now_ms)
    }
}

pub fn build_upcoming_races(races: &Vec<RaceConfigRecord>, now_ms: i64) -> (r: Vec<
    PublicUpcomingRaceSummary,
>)
    ensures
        r@ == upcoming_of(races@, now_ms),
{
    let mut r: Vec<PublicUpcomingRaceSummary> = Vec::new();
    let mut n: usize = 0;
    proof {
        assert(races@.take(0) =~= Seq::<RaceConfigRecord>::empty());
    }
    while n < races.len()
        invariant
            n <= races@.len(),
            r@ == upcoming_of(races@.take(n as int), now_ms),
        decreases races@.len() - n,
    {
        proof {
            assert(races@.take(n + 1).drop_last() =~= races@.take(n as int));
        }
        if is_within_upcoming_window(races[n].config.starts_at_ms, now_ms) {
            r.push(
                PublicUpcomingRaceSummary {
                    race_name: races[n].config.race_name.clone(),
                    start_time_utc: Some(ms_to_timestamp(races[n].config.starts_at_ms)),
                    race_duration_sec: races[n].config.race_duration_sec,
                },
            );
        }
        n += 1;
    }
    proof {
        assert(races@.take(n as int) =~= races@);
    }
    r
}

/// The menu service: where sandboxes and races are stored, the engine, and the shared
/// signals of changes.
#[derive(Debug)]
pub struct PublicMenuServiceImpl<S, R, E, U, I> {
    pub sandbox_repo: S,
    pub race_repo: R,
    pub engine: E,
    pub upcoming_invalidation: U,
    pub sandbox_invalidation: I,
    pub upcoming_cache: MenuCache<Vec<PublicUpcomingRaceSummary>>,
    pub sandbox_cache: MenuCache<Vec<SandboxConfigRecord>>,
}

impl<S, R, E, U, I> PublicMenuServiceImpl<S, R, E, U, I> {
    pub fn with_repo(
        sandbox_repo: S,
        race_repo: R,
        engine: E,
        upcoming_invalidation: U,
        sandbox_invalidation: I,
    ) -> (r: Self)
        ensures
            r.sandbox_repo == sandbox_repo,
            r.race_repo == race_repo,
            r.engine == engine,
            r.upcoming_invalidation == upcoming_invalidation,
            r.sandbox_invalidation == sandbox_invalidation,
            r.upcoming_cache.content@.len() == 0,
            r.sandbox_cache.content@.len() == 0,
            r.upcoming_cache.generation == 0 && r.upcoming_cache.cached_at_ms == 0,
            r.sandbox_cache.generation == 0 && r.sandbox_cache.cached_at_ms == 0,
    {
        PublicMenuServiceImpl {
            sandbox_repo,
            race_repo,
            engine,
            upcoming_invalidation,
            sandbox_invalidation,
            upcoming_cache: MenuCache::new(Vec::new()),
            sandbox_cache: MenuCache::new(Vec::new()),
        }
    }

    /// The upcoming races, where they were read lately and in the current generation.
    pub fn cached_upcoming_races(&self, generation: u64, now_ms: i64) -> (r: Option<
        &Vec<PublicUpcomingRaceSummary>,
    >)
        ensures
            match r {
                Some(races) => is_current(
                    self.upcoming_cache,
                    generation,
                    now_ms,
                    UPCOMING_CACHE_TTL_MS,
                ) && *races == self.upcoming_cache.content,
                None => !is_current(
                    self.upcoming_cache,
                    generation,
                    now_ms,
                    UPCOMING_CACHE_TTL_MS,
                ),
            },
    {
        self.upcoming_cache.get(generation, now_ms, UPCOMING_CACHE_TTL_MS)
    }

    /// Keeps the upcoming ones of the races that were read.
    pub fn keep_upcoming_races(
        &mut self,
        generation: u64,
        now_ms: i64,
        races: &Vec<RaceConfigRecord>,
    )
        ensures
            final(self).upcoming_cache.generation == generation,
            final(self).upcoming_cache.cached_at_ms == now_ms,
            final(self).upcoming_cache.content@ == upcoming_of(races@, now_ms),
            final(self).sandbox_cache == old(self).sandbox_cache,
            final(self).sandbox_repo == old(self).sandbox_repo,
            final(self).race_repo == old(self).race_repo,
            final(self).engine == old(self).engine,
            final(self).upcoming_invalidation == old(self).upcoming_invalidation,
            final(self).sandbox_invalidation == old(self).sandbox_invalidation,
    {
        self.upcoming_cache.store(generation, now_ms, build_upcoming_races(races, now_ms));
    }

    /// The sandboxes, where they were read lately and in the current generation.
    pub fn cached_sandbox_configs(&self, generation: u64, now_ms: i64) -> (r: Option<
        &Vec<SandboxConfigRecord>,
    >)
        ensures
            match r {
                Some(sandboxes) => is_current(
                    self.sandbox_cache,
                    generation,
                    now_ms,
                    SANDBOX_CONFIG_CACHE_TTL_MS,
                ) && *sandboxes == self.sandbox_cache.content,
                None => !is_current(
                    self.sandbox_cache,
                    generation,
                    now_ms,
                    SANDBOX_CONFIG_CACHE_TTL_MS,
                ),
            },
    {
        self.sandbox_cache.get(generation, now_ms, SANDBOX_CONFIG_CACHE_TTL_MS)
    }

    /// Keeps the sandboxes that were read.
    pub fn keep_sandbox_configs(
        &mut self,
        generation: u64,
        now_ms: i64,
        sandboxes: Vec<SandboxConfigRecord>,
    )
        ensures
            final(self).sandbox_cache == (MenuCache {
                generation,
                cached_at_ms: now_ms,
                content: sandboxes,
            }),
            final(self).upcoming_cache == old(self).upcoming_cache,
            final(self).sandbox_repo == old(self).sandbox_repo,
            final(self).race_repo == old(self).race_repo,
            final(self).engine == old(self).engine,
            final(self).upcoming_invalidation == old(self).upcoming_invalidation,
            final(self).sandbox_invalidation == old(self).sandbox_invalidation,
    {
        self.sandbox_cache.store(generation, now_ms, sandboxes);
    }
}

/// The menu service that remembers nothing.
#[derive(Debug)]
pub struct FrontendMenuServiceImpl<R, E> {
    pub repo: R,
    pub engine: E,
}

impl<R, E> FrontendMenuServiceImpl<R, E> {
    pub fn with_repo(repo: R, engine: E) -> (r: Self)
        ensures
            r.repo == repo,
            r.engine == engine,
    {
        FrontendMenuServiceImpl { repo, engine }
    }
}

/// What could not be read from storage.
#[derive(Clone, Copy, PartialEq, Eq, Debug, Structural)]
pub enum MenuSource {
    SandboxConfigs,
    RaceConfigs,
}

/// The status for stored things that could not be read.
pub fn load_failed(source: MenuSource, error: &str) -> (r: Status)
    ensures
        r@ == (
            Code::Internal,
            match source {
                MenuSource::SandboxConfigs => "failed to load sandbox configs: "@ + error@,
                MenuSource::RaceConfigs => "failed to load race configs: "@ + error@,
            },
        ),
{
    let message: String = match source {
        MenuSource::SandboxConfigs => text::join2("failed to load sandbox configs: ", error),
        MenuSource::RaceConfigs => text::join2("failed to load race configs: ", error),
    };
    Status::with_message(Code::Internal, message)
}

/// A new generation has the next number, and after the last number come the first ones
/// again.
pub proof fn generations_follow_each_other(generation: u64)
    ensures
        generation < u64::MAX ==> generation_after(generation) == generation + 1,
        generation == u64::MAX ==> generation_after(generation) == 0,
{
}

/// A race is upcoming from an hour before its start up to its start, both included.
pub proof fn upcoming_lasts_an_hour(start_ms: i64, now_ms: i64)
    ensures
        starts_soon(start_ms, now_ms) <==> 0 <= start_ms - now_ms <= 3_600_000,
        is_upcoming_start(Some(start_ms), now_ms) == starts_soon(start_ms, now_ms),
        !is_upcoming_start(None, now_ms),
{
}

/// What was read is kept for a minute.
pub proof fn kept_for_a_minute<T>(cache: MenuCache<T>, generation: u64, now_ms: i64)
    ensures
        is_current(cache, generation, now_ms, UPCOMING_CACHE_TTL_MS) <==> cache.generation
            == generation && now_ms - cache.cached_at_ms <= 60_000,
        is_current(cache, generation, now_ms, SANDBOX_CONFIG_CACHE_TTL_MS) <==> cache.generation
            == generation && now_ms - cache.cached_at_ms <= 60_000,
{
}

/// A race is shown in the menu under its name, with its start as whole seconds and the
/// milliseconds beyond them, and with how long it lasts.
pub proof fn race_is_shown_as_stored(race: RaceConfigRecord)
    ensures
        summary_of(race).race_name == race.config.race_name,
        summary_of(race).race_duration_sec == race.config.race_duration_sec,
        summary_of(race).start_time_utc matches Some(t) && t.seconds * 1000 + t.nanos / 1_000_000
            == race.config.starts_at_ms,
{
}

/// Of races one after the other each is shown on its own, in the same order.
pub proof fn upcoming_races_are_shown_in_turn(
    first: Seq<RaceConfigRecord>,
    then: Seq<RaceConfigRecord>,
    now_ms: i64,
)
    ensures
        upcoming_of(first + then, now_ms) == upcoming_of(first, now_ms) + upcoming_of(
            then,
            now_ms,
        ),
    decreases then.len(),
{
    if then.len() == 0 {
        assert(first + then =~= first);
        assert(upcoming_of(then, now_ms) =~= Seq::empty());
    } else {
        upcoming_races_are_shown_in_turn(first, then.drop_last(), now_ms);
        assert((first + then).drop_last() =~= first + then.drop_last());
        assert((first + then).last() == then.last());
    }
}

/// A race on its own is shown exactly where it starts within the hour to come.
pub proof fn upcoming_race_is_shown(race: RaceConfigRecord, now_ms: i64)
    ensures
        0 <= race.config.starts_at_ms - now_ms <= 3_600_000 ==> upcoming_of(seq![race], now_ms)
            == seq![summary_of(race)],
        !(0 <= race.config.starts_at_ms - now_ms <= 3_600_000) ==> upcoming_of(
            seq![race],
            now_ms,
        ).len() == 0,
{
    let races = seq![race];
    assert(races.drop_last() =~= Seq::empty());
    assert(races.last() == race);
    reveal_with_fuel(upcoming_of, 2);
    assert(Seq::empty().push(summary_of(race)) =~= seq![summary_of(race)]);
}

} // verus!
