//! The achievement stream: the sessions it follows, what it tells of them, and in
//! which order the cars of a session run.

use vstd::prelude::*;
use crate::engine::{
    EngineActiveSandboxState, EngineActivityKind, EngineCommandTarget, EngineRuntimeState,
    TargetView,
};
use crate::float_bits::{F32Bits, ZERO_BITS};
use crate::mappers::TyreType;
use crate::race::frame_hub::RuntimeCarFrame;
use crate::race::stream_settings::{
    is_rate, resolve_stream_rate, smaller, StreamRate, MAX_STREAM_HZ,
};
use crate::race_table::rows::next_place;
use crate::race::runtime_store::RuntimeCarIdentity;
use crate::sorting::{ranked, ranked_is_sorted_permutation, sort_ranked, Ranked};
use crate::status::{Code, Status};
use crate::text;
use crate::text_map::TextMap;

verus! {

/// A session that the stream follows.
#[derive(Debug)]
pub enum AchievementSourceKey {
    OfficialRace,
    OfficialSandbox(String),
}

/// A session that the stream follows, by views.
pub enum SourceKeyView {
    OfficialRace,
    OfficialSandbox(Seq<char>),
}

impl View for AchievementSourceKey {
    type V = SourceKeyView;

    open spec fn view(&self) -> SourceKeyView {
        match self {
            AchievementSourceKey::OfficialRace => SourceKeyView::OfficialRace,
            AchievementSourceKey::OfficialSandbox(id) => SourceKeyView::OfficialSandbox(id@),
        }
    }
}

/// The engine's target of the same session.
pub open spec fn engine_target(key: SourceKeyView) -> TargetView {
    match key {
        SourceKeyView::OfficialRace => TargetView::OfficialRace,
        SourceKeyView::OfficialSandbox(id) => TargetView::Sandbox { sandbox_id: id },
    }
}

/// The official race comes first, then the sandboxes in the order of their ids.
pub open spec fn key_before(a: SourceKeyView, b: SourceKeyView) -> bool {
    match (a, b) {
        (SourceKeyView::OfficialRace, SourceKeyView::OfficialSandbox(_)) => true,
        (SourceKeyView::OfficialSandbox(x), SourceKeyView::OfficialSandbox(y)) => text::text_before(
            x,
            y,
        ),
        _ => false,
    }
}

impl Clone for AchievementSourceKey {
    fn clone(&self) -> (r: Self)
        ensures
            r == *self,
    {
        match self {
            AchievementSourceKey::OfficialRace => AchievementSourceKey::OfficialRace,
            AchievementSourceKey::OfficialSandbox(id) => AchievementSourceKey::OfficialSandbox(
                id.clone(),
            ),
        }
    }
}

impl AchievementSourceKey {
    pub fn to_engine_target(&self) -> (r: EngineCommandTarget)
        ensures
            r@ == engine_target(self@),
    {
        match self {
            AchievementSourceKey::OfficialRace => EngineCommandTarget::OfficialRace,
            AchievementSourceKey::OfficialSandbox(id) => EngineCommandTarget::Sandbox {
                sandbox_id: id.clone(),
            },
        }
    }
}

/// The car with the target takes part in the session.
pub fn source_matches_target(source: &AchievementSourceKey, target: &EngineCommandTarget) -> (r:
    bool)
    ensures
        r == (target@ == engine_target(source@)),
{
    match (source, target) {
        (AchievementSourceKey::OfficialRace, EngineCommandTarget::OfficialRace) => true,
        (
            AchievementSourceKey::OfficialSandbox(expected),
            EngineCommandTarget::Sandbox { sandbox_id },
        ) => text::str_eq(expected.as_str(), sandbox_id.as_str()),
        _ => false,
    }
}

/// A session that is running, and its map.
#[derive(Debug)]
pub struct ActiveSource {
    pub key: AchievementSourceKey,
    pub map_id: String,
}

impl Ranked for ActiveSource {
    open spec fn ranks_before(&self, other: &Self) -> bool {
        key_before(self.key@, other.key@)
    }

    fn is_before(&self, other: &Self) -> (r: bool) {
        match (&self.key, &other.key) {
            (AchievementSourceKey::OfficialRace, AchievementSourceKey::OfficialSandbox(_)) => true,
            (
                AchievementSourceKey::OfficialSandbox(x),
                AchievementSourceKey::OfficialSandbox(y),
            ) => text::is_text_before(x.as_str(), y.as_str()),
            _ => false,
        }
    }

    proof fn rank_is_asymmetric(a: &Self, b: &Self) {
        match (a.key@, b.key@) {
            (SourceKeyView::OfficialSandbox(x), SourceKeyView::OfficialSandbox(y)) => {
                text::text_order_is_total(x, y);
            },
            _ => {},
        }
    }

    proof fn rank_is_transitive(a: &Self, b: &Self, c: &Self) {
        match (a.key@, b.key@, c.key@) {
            (
                SourceKeyView::OfficialSandbox(x),
                SourceKeyView::OfficialSandbox(y),
                SourceKeyView::OfficialSandbox(z),
            ) => {
                text::text_order_is_total(x, y);
                text::text_order_is_total(y, z);
                text::text_order_is_total(x, z);
                if text::text_before(z, x) && text::text_before(x, y) {
                    text::text_order_is_transitive(z, x, y);
                }
            },
            _ => {},
        }
    }
}

/// The source is the sandbox.
pub open spec fn is_sandbox_source(source: ActiveSource, sandbox: EngineActiveSandboxState) -> bool {
    source.key@ == SourceKeyView::OfficialSandbox(sandbox.sandbox_id@) && source.map_id@
        == sandbox.map_id@
}

/// The sources are those of the state: the official race, where it runs, and the
/// sandboxes as they are listed.
pub open spec fn are_sources_of(sources: Seq<ActiveSource>, state: EngineRuntimeState) -> bool {
    let first: int = if state.activity_kind == EngineActivityKind::OfficialRace {
        1
    } else {
        0
    };
    let sandboxes = state.active_sandboxes@;
    &&& sources.len() == first + sandboxes.len()
    &&& first == 1 ==> sources[0].key@ == SourceKeyView::OfficialRace && sources[0].map_id@
        == state.map_id@
    &&& forall|k: int|
        first <= k < sources.len() ==> is_sandbox_source(
            #[trigger] sources[k],
            sandboxes[k - first],
        )
}

/// The sessions that are running, in their order.
pub fn collect_active_sources(state: Option<&EngineRuntimeState>) -> (r: Vec<ActiveSource>)
    ensures
        match state {
            None => r@.len() == 0,
            Some(state) => exists|listed: Seq<ActiveSource>| #[trigger]
                are_sources_of(listed, *state) && r@ == ranked(listed),
        },
{
    let state: &EngineRuntimeState = match state {
        None => return Vec::new(),
        Some(state) => state,
    };
    let mut sources: Vec<ActiveSource> = Vec::new();
    match state.activity_kind {
        EngineActivityKind::OfficialRace => {
            sources.push(
                ActiveSource {
                    key: AchievementSourceKey::OfficialRace,
                    map_id: state.map_id.clone(),
                },
            );
        },
        _ => {},
    }
    let ghost first = sources@.len() as int;
    let ghost begun = sources@;
    let mut n: usize = 0;
    while n < state.active_sandboxes.len()
        invariant
            n <= state.active_sandboxes@.len(),
            first == begun.len(),
            sources@.len() == first + n,
            forall|i: int| 0 <= i < first ==> #[trigger] sources@[i] == begun[i],
            forall|i: int|
                0 <= i < n ==> is_sandbox_source(
                    #[trigger] sources@[first + i],
                    state.active_sandboxes@[i],
                ),
        decreases state.active_sandboxes@.len() - n,
    {
        let ghost before = sources@;
        sources.push(
            ActiveSource {
                key: AchievementSourceKey::OfficialSandbox(
                    state.active_sandboxes[n].sandbox_id.clone(),
                ),
                map_id: state.active_sandboxes[n].map_id.clone(),
            },
        );
        proof {
            assert forall|i: int| 0 <= i < n + 1 implies is_sandbox_source(
                #[trigger] sources@[first + i],
                state.active_sandboxes@[i],
            ) by {
                if i < n {
                    assert(sources@[first + i] == before[first + i]);
                }
            }
        }
        n += 1;
    }
    proof {
        assert forall|k: int| first <= k < sources@.len() implies is_sandbox_source(
            #[trigger] sources@[k],
            state.active_sandboxes@[k - first],
        ) by {
            assert(sources@[first + (k - first)] == sources@[k]);
        }
        assert(are_sources_of(sources@, *state));
    }
    sort_ranked(sources)
}

/// A map whose keys are sessions.
#[derive(Debug)]
pub struct SourceMap<V> {
    pub official_race: Option<V>,
    pub sandboxes: TextMap<V>,
}

impl<V> View for SourceMap<V> {
    type V = Map<SourceKeyView, V>;

    open spec fn view(&self) -> Map<SourceKeyView, V> {
        Map::new(|k: SourceKeyView| self.has(k), |k: SourceKeyView| self.at(k))
    }
}

impl<V> SourceMap<V> {
    pub open spec fn has(&self, key: SourceKeyView) -> bool {
        match key {
            SourceKeyView::OfficialRace => self.official_race is Some,
            SourceKeyView::OfficialSandbox(id) => self.sandboxes@.contains_key(id),
        }
    }

    pub open spec fn at(&self, key: SourceKeyView) -> V {
        match key {
            SourceKeyView::OfficialRace => self.official_race->Some_0,
            SourceKeyView::OfficialSandbox(id) => self.sandboxes@[id],
        }
    }

    pub fn new() -> (r: Self)
        ensures
            r@ == Map::<SourceKeyView, V>::empty(),
    {
        let r = SourceMap { official_race: None, sandboxes: TextMap::new() };
        proof {
            assert forall|k: SourceKeyView| !(#[trigger] r.has(k)) by {}
            assert(r@ =~= Map::<SourceKeyView, V>::empty());
        }
        r
    }

    pub fn get(&self, key: &AchievementSourceKey) -> (r: Option<&V>)
        ensures
            match r {
                Some(v) => self@.contains_key(key@) && *v == self@[key@],
                None => !self@.contains_key(key@),
            },
    {
        match key {
            AchievementSourceKey::OfficialRace => match &self.official_race {
                Some(v) => Some(v),
                None => None,
            },
            AchievementSourceKey::OfficialSandbox(id) => self.sandboxes.get(id.as_str()),
        }
    }

    pub fn insert(&mut self, key: &AchievementSourceKey, value: V)
        ensures
            final(self)@ == old(self)@.insert(key@, value),
    {
        match key {
            AchievementSourceKey::OfficialRace => {
                self.official_race = Some(value);
            },
            AchievementSourceKey::OfficialSandbox(id) => {
                self.sandboxes.insert(id.clone(), value);
            },
        }
        proof {
            assert(self@ =~= old(self)@.insert(key@, value));
        }
    }
}

/// What is known of a session's track, as long as its map stays the same.
#[derive(Debug)]
pub struct SourceDescriptorCacheEntry<D> {
    pub map_id: String,
    pub track: D,
}

/// The tracks of sessions that were asked for.
#[derive(Debug)]
pub struct DescriptorCache<D> {
    pub entries: SourceMap<SourceDescriptorCacheEntry<D>>,
}

impl<D> DescriptorCache<D> {
    pub fn new() -> (r: Self)
        ensures
            r.entries@ == Map::<SourceKeyView, SourceDescriptorCacheEntry<D>>::empty(),
    {
        DescriptorCache { entries: SourceMap::new() }
    }

    /// The track of the session, where it is known and on the session's map.
    pub fn cached_descriptor(&self, source: &ActiveSource) -> (r: Option<&D>)
        ensures
            ({
                let known = self.entries@.contains_key(source.key@)
                    && self.entries@[source.key@].map_id@ == source.map_id@;
                match r {
                    Some(track) => known && *track == self.entries@[source.key@].track,
                    None => !known,
                }
            }),
    {
        match self.entries.get(&source.key) {
            Some(entry) => {
                if text::str_eq(entry.map_id.as_str(), source.map_id.as_str()) {
                    Some(&entry.track)
                } else {
                    None
                }
            },
            None => None,
        }
    }

    pub fn store(&mut self, source: &ActiveSource, track: D)
        ensures
            final(self).entries@ == old(self).entries@.insert(
                source.key@,
                SourceDescriptorCacheEntry { map_id: source.map_id, track },
            ),
    {
        self.entries.insert(
            &source.key,
            SourceDescriptorCacheEntry { map_id: source.map_id.clone(), track },
        );
    }
}

/// A track that was stored is found again for the session on its map, and not for
/// the session on another.
pub proof fn stored_track_is_found_on_its_map<D>(
    before: Map<SourceKeyView, SourceDescriptorCacheEntry<D>>,
    source: ActiveSource,
    track: D,
    asked: ActiveSource,
)
    requires
        asked.key@ == source.key@,
    ensures
        ({
            let after = before.insert(
                source.key@,
                SourceDescriptorCacheEntry { map_id: source.map_id, track },
            );
            after.contains_key(asked.key@) && after[asked.key@].track == track && (
            after[asked.key@].map_id@ == asked.map_id@ <==> source.map_id@ == asked.map_id@)
        }),
{
}

/// The stream must be asked for with a rate.
pub fn check_requested_hz(requested_hz: u32) -> (r: Result<(), Status>)
    ensures
        requested_hz > 0 ==> r == Ok::<(), Status>(()),
        requested_hz == 0 ==> (r matches Err(e) && e@ == (
            Code::InvalidArgument,
            "requested_hz must be >= 1 for achievement stream"@,
        )),
{
    if requested_hz == 0 {
        return Err(Status::invalid_argument("requested_hz must be >= 1 for achievement stream"));
    }
    Ok(())
}

/// The rate of the stream.
pub fn resolve_achievement_rate(requested_hz: u32, simulation_hz: u32) -> (r: StreamRate)
    requires
        requested_hz >= 1,
    ensures
        is_rate(
            r,
            requested_hz as int,
            smaller(
                MAX_STREAM_HZ as int,
                if simulation_hz == 0 {
                    1
                } else {
                    simulation_hz as int
                },
            ),
        ),
{
    resolve_stream_rate(
        requested_hz,
        if simulation_hz == 0 {
            1
        } else {
            simulation_hz
        },
    )
}

/// The session is new to the client, or is on another map than the client knows.
pub open spec fn is_news(announced: Map<SourceKeyView, String>, source: ActiveSource) -> bool {
    !(announced.contains_key(source.key@) && announced[source.key@]@ == source.map_id@)
}

/// The places of the sessions among `current` that are news to the client, and what
/// the client knows once it is told.
pub fn announce(announced: &SourceMap<String>, current: &Vec<ActiveSource>) -> (r: (
    Vec<usize>,
    SourceMap<String>,
))
    ensures
        forall|i: int|
            0 <= i < r.0@.len() ==> (#[trigger] r.0@[i]) < current@.len() && is_news(
                announced@,
                current@[r.0@[i] as int],
            ),
        forall|i: int, j: int| 0 <= i < j < r.0@.len() ==> r.0@[i] < r.0@[j],
        forall|k: int|
            0 <= k < current@.len() && is_news(announced@, #[trigger] current@[k])
                ==> r.0@.contains(k as usize),
        r.1@ == known_sources(current@),
{
    let mut news: Vec<usize> = Vec::new();
    let mut known: SourceMap<String> = SourceMap::new();
    let mut n: usize = 0;
    proof {
        assert(current@.take(0) =~= Seq::<ActiveSource>::empty());
    }
    while n < current.len()
        invariant
            n <= current@.len(),
            known@ == known_sources(current@.take(n as int)),
            forall|i: int|
                0 <= i < news@.len() ==> (#[trigger] news@[i]) < n && is_news(
                    announced@,
                    current@[news@[i] as int],
                ),
            forall|i: int, j: int| 0 <= i < j < news@.len() ==> news@[i] < news@[j],
            forall|k: int|
                0 <= k < n && is_news(announced@, #[trigger] current@[k]) ==> news@.contains(
                    k as usize,
                ),
        decreases current@.len() - n,
    {
        let ghost before = news@;
        let is_known = match announced.get(&current[n].key) {
            Some(map_id) => text::str_eq(map_id.as_str(), current[n].map_id.as_str()),
            None => false,
        };
        if !is_known {
            news.push(n);
        }
        known.insert(&current[n].key, current[n].map_id.clone());
        proof {
            assert(current@.take(n + 1).drop_last() =~= current@.take(n as int));
            assert forall|k: int|
                0 <= k < n + 1 && is_news(
                    announced@,
                    #[trigger] current@[k],
                ) implies news@.contains(k as usize) by {
                if k < n {
                    let i = choose|i: int| 0 <= i < before.len() && before[i] == k as usize;
                    assert(news@[i] == k as usize);
                } else {
                    assert(news@[before.len() as int] == k as usize);
                }
            }
        }
        n += 1;
    }
    proof {
        assert(current@.take(n as int) =~= current@);
    }
    (news, known)
}

/// The maps of the sessions; of a session that is listed twice the last one counts.
pub open spec fn known_sources(sources: Seq<ActiveSource>) -> Map<SourceKeyView, String>
    decreases sources.len(),
{
    if sources.len() == 0 {
        Map::empty()
    } else {
        known_sources(sources.drop_last()).insert(sources.last().key@, sources.last().map_id)
    }
}

proof fn lemma_known_source(sources: Seq<ActiveSource>, k: int)
    requires
        0 <= k < sources.len(),
        forall|i: int, j: int|
            #![trigger sources[i], sources[j]]
            0 <= i < j < sources.len() ==> sources[i].key@ != sources[j].key@,
    ensures
        known_sources(sources).contains_key(sources[k].key@),
        known_sources(sources)[sources[k].key@] == sources[k].map_id,
    decreases sources.len(),
{
    if k < sources.len() - 1 {
        let rest = sources.drop_last();
        assert forall|i: int, j: int|
            #![trigger rest[i], rest[j]]
            0 <= i < j < rest.len() implies rest[i].key@ != rest[j].key@ by {
            assert(sources[i].key@ != sources[j].key@);
        }
        lemma_known_source(rest, k);
        assert(sources[k].key@ != sources[sources.len() - 1].key@);
    }
}

/// What was announced is not announced again while it stays as it is.
pub proof fn announced_source_is_no_news(sources: Seq<ActiveSource>, k: int)
    requires
        0 <= k < sources.len(),
        forall|i: int, j: int|
            #![trigger sources[i], sources[j]]
            0 <= i < j < sources.len() ==> sources[i].key@ != sources[j].key@,
    ensures
        !is_news(known_sources(sources), sources[k]),
{
    lemma_known_source(sources, k);
}

/// A message of the stream. Sessions are given by their places among those that run.
#[derive(Debug)]
pub enum AchievementMessage {
    Settings(StreamRate),
    /// All sessions that run when the stream begins.
    Bootstrap(Vec<usize>),
    /// The sessions that are new or have changed their map.
    TopologyUpdate(Vec<usize>),
    /// The cars of the sessions.
    Snapshot,
}

/// What the client of a stream knows.
#[derive(Debug)]
pub struct AchievementStream {
    /// The client was told which sessions run.
    pub is_bootstrapped: bool,
    pub announced: SourceMap<String>,
}

/// The places of the sessions among `current` that are news, in ascending order.
pub open spec fn are_news(
    places: Seq<usize>,
    announced: Map<SourceKeyView, String>,
    current: Seq<ActiveSource>,
) -> bool {
    &&& forall|i: int|
        0 <= i < places.len() ==> (#[trigger] places[i]) < current.len() && is_news(
            announced,
            current[places[i] as int],
        )
    &&& forall|i: int, j: int| 0 <= i < j < places.len() ==> places[i] < places[j]
    &&& forall|k: int|
        0 <= k < current.len() && is_news(announced, #[trigger] current[k]) ==> places.contains(
            k as usize,
        )
}

/// Some session is news.
pub open spec fn has_news(
    announced: Map<SourceKeyView, String>,
    current: Seq<ActiveSource>,
) -> bool {
    exists|k: int| 0 <= k < current.len() && is_news(announced, #[trigger] current[k])
}

/// The messages when the stream begins: all sessions, and their cars.
pub open spec fn are_first_messages(
    messages: Seq<AchievementMessage>,
    current: Seq<ActiveSource>,
) -> bool {
    &&& messages.len() == 2
    &&& messages[0] matches AchievementMessage::Bootstrap(places) && places@ =~= Seq::new(
        current.len(),
        |k: int| k as usize,
    )
    &&& messages[1] is Snapshot
}

/// The messages of a tick: what is news, where anything is, and the cars.
pub open spec fn are_tick_messages(
    messages: Seq<AchievementMessage>,
    announced: Map<SourceKeyView, String>,
    current: Seq<ActiveSource>,
) -> bool {
    if has_news(announced, current) {
        &&& messages.len() == 2
        &&& messages[0] matches AchievementMessage::TopologyUpdate(places) && places@.len() > 0
            && are_news(places@, announced, current)
        &&& messages[1] is Snapshot
    } else {
        messages.len() == 1 && messages[0] is Snapshot
    }
}

impl AchievementStream {
    /// A stream begins with its settings.
    pub fn begin(rate: StreamRate) -> (r: (AchievementStream, AchievementMessage))
        ensures
            !r.0.is_bootstrapped,
            r.0.announced@ == Map::<SourceKeyView, String>::empty(),
            r.1 == AchievementMessage::Settings(rate),
    {
        (
            AchievementStream { is_bootstrapped: false, announced: SourceMap::new() },
            AchievementMessage::Settings(rate),
        )
    }

    /// These sessions run now: what the client is sent, in this order.
    pub fn on_sources(&mut self, current: &Vec<ActiveSource>) -> (messages: Vec<
        AchievementMessage,
    >)
        ensures
            final(self).is_bootstrapped,
            final(self).announced@ == known_sources(current@),
            !old(self).is_bootstrapped ==> are_first_messages(messages@, current@),
            old(self).is_bootstrapped ==> are_tick_messages(
                messages@,
                old(self).announced@,
                current@,
            ),
    {
        let (news, known) = announce(&self.announced, current);
        let mut messages: Vec<AchievementMessage> = Vec::new();
        if !self.is_bootstrapped {
            let mut places: Vec<usize> = Vec::new();
            let mut i: usize = 0;
            while i < current.len()
                invariant
                    i <= current@.len(),
                    places@.len() == i,
                    forall|k: int| 0 <= k < i ==> #[trigger] places@[k] == k,
                decreases current@.len() - i,
            {
                places.push(i);
                i += 1;
            }
            messages.push(AchievementMessage::Bootstrap(places));
        } else if news.len() > 0 {
            proof {
                assert(is_news(self.announced@, current@[news@[0] as int]));
            }
            messages.push(AchievementMessage::TopologyUpdate(news));
        } else {
            proof {
                assert forall|k: int| 0 <= k < current@.len() implies !is_news(
                    self.announced@,
                    #[trigger] current@[k],
                ) by {
                    if is_news(self.announced@, current@[k]) {
                        assert(news@.contains(k as usize));
                    }
                }
            }
        }
        messages.push(AchievementMessage::Snapshot);
        self.is_bootstrapped = true;
        self.announced = known;
        messages
    }
}

/// One tick of a stream: the sessions that run, and what was sent.
pub struct AchievementTick {
    pub current: Seq<ActiveSource>,
    pub messages: Seq<AchievementMessage>,
    pub after: AchievementStream,
}

/// The tick is what `on_sources` makes of the stream before it.
pub open spec fn is_tick(before: AchievementStream, tick: AchievementTick) -> bool {
    &&& tick.after.is_bootstrapped
    &&& tick.after.announced@ == known_sources(tick.current)
    &&& if before.is_bootstrapped {
        are_tick_messages(tick.messages, before.announced@, tick.current)
    } else {
        are_first_messages(tick.messages, tick.current)
    }
}

pub open spec fn is_tick_at(
    first: AchievementStream,
    ticks: Seq<AchievementTick>,
    k: int,
) -> bool {
    is_tick(
        if k <= 0 {
            first
        } else {
            ticks[k - 1].after
        },
        ticks[k],
    )
}

/// Behind its settings a stream sends the bootstrap and a snapshot, and then in every tick
/// one snapshot, with a topology update in front of it exactly where some session is not as
/// it was in the tick before; the update is never empty and lists just these sessions.
pub proof fn achievement_messages_are_in_order(
    first: AchievementStream,
    ticks: Seq<AchievementTick>,
    k: int,
)
    requires
        !first.is_bootstrapped,
        forall|i: int| 0 <= i < ticks.len() ==> #[trigger] is_tick_at(first, ticks, i),
        0 <= k < ticks.len(),
    ensures
        k == 0 ==> are_first_messages(ticks[0].messages, ticks[0].current),
        k > 0 ==> are_tick_messages(
            ticks[k].messages,
            known_sources(ticks[k - 1].current),
            ticks[k].current,
        ),
        ticks[k].messages.last() is Snapshot,
        forall|i: int|
            0 <= i < ticks[k].messages.len() - 1 ==> !(#[trigger] ticks[k].messages[i] is Snapshot),
{
    assert(is_tick_at(first, ticks, k));
    if k > 0 {
        assert(is_tick_at(first, ticks, k - 1));
    }
}

/// How far a car of the session has come.
#[derive(Clone, Copy, PartialEq, Eq, Debug, Structural)]
pub struct CarStanding {
    /// The place of the car in the frame.
    pub place: usize,
    pub completed_laps: u32,
    pub lap_progress_m: F32Bits,
    pub car_id: u64,
}

/// `a` runs before `b`: more laps come first, then more of the lap, then the lower id. A
/// distance that is not a number is neither more nor less than another.
pub open spec fn runs_before(a: CarStanding, b: CarStanding) -> bool {
    a.completed_laps > b.completed_laps || (a.completed_laps == b.completed_laps && (
    a.lap_progress_m.above(b.lap_progress_m) || (!b.lap_progress_m.above(a.lap_progress_m)
        && a.car_id < b.car_id)))
}

fn is_running_before(a: &CarStanding, b: &CarStanding) -> (r: bool)
    ensures
        r == runs_before(*a, *b),
{
    a.completed_laps > b.completed_laps || (a.completed_laps == b.completed_laps && (
    a.lap_progress_m.is_above(b.lap_progress_m) || (!b.lap_progress_m.is_above(a.lap_progress_m)
        && a.car_id < b.car_id)))
}

/// How many of the first `n` cars run before `car`.
pub open spec fn cars_ahead(cars: Seq<CarStanding>, car: CarStanding, n: int) -> nat
    decreases n,
{
    if n <= 0 {
        0
    } else {
        cars_ahead(cars, car, n - 1) + if runs_before(cars[n - 1], car) {
            1nat
        } else {
            0
        }
    }
}

/// A car and how many cars of its session run before it.
#[derive(Clone, Copy, PartialEq, Eq, Debug, Structural)]
pub struct RankedCar {
    pub standing: CarStanding,
    pub cars_ahead: usize,
}

impl Ranked for RankedCar {
    /// Who has fewer cars ahead comes first.
    open spec fn ranks_before(&self, other: &Self) -> bool {
        self.cars_ahead < other.cars_ahead
    }

    fn is_before(&self, other: &Self) -> (r: bool) {
        self.cars_ahead < other.cars_ahead
    }

    proof fn rank_is_asymmetric(a: &Self, b: &Self) {
    }

    proof fn rank_is_transitive(a: &Self, b: &Self, c: &Self) {
    }
}

/// Each car with the cars that run before it counted.
pub open spec fn with_cars_ahead(cars: Seq<CarStanding>) -> Seq<RankedCar> {
    Seq::new(
        cars.len(),
        |i: int|
            RankedCar {
                standing: cars[i],
                cars_ahead: cars_ahead(cars, cars[i], cars.len() as int) as usize,
            },
    )
}

/// The cars in the order in which they run: by how many run before each.
pub open spec fn in_running_order(cars: Seq<CarStanding>) -> Seq<RankedCar> {
    ranked(with_cars_ahead(cars))
}

/// Of two cars of which one runs before the other, every third runs behind the first or
/// before the second. Distances that are not numbers can break this for three cars.
pub open spec fn is_running_order(cars: Seq<CarStanding>) -> bool {
    forall|i: int, j: int, k: int|
        #![trigger cars[i], cars[j], cars[k]]
        0 <= i < cars.len() && 0 <= j < cars.len() && 0 <= k < cars.len() && runs_before(
            cars[i],
            cars[j],
        ) ==> runs_before(cars[i], cars[k]) || runs_before(cars[k], cars[j])
}

proof fn lemma_cars_ahead_bound(cars: Seq<CarStanding>, car: CarStanding, n: int)
    requires
        0 <= n <= cars.len(),
    ensures
        cars_ahead(cars, car, n) <= n,
    decreases n,
{
    if n > 0 {
        lemma_cars_ahead_bound(cars, car, n - 1);
    }
}

proof fn lemma_no_fewer_ahead(cars: Seq<CarStanding>, i: int, j: int, n: int)
    requires
        is_running_order(cars),
        0 <= i < cars.len(),
        0 <= j < cars.len(),
        !runs_before(cars[j], cars[i]),
        0 <= n <= cars.len(),
    ensures
        cars_ahead(cars, cars[i], n) <= cars_ahead(cars, cars[j], n),
        runs_before(cars[i], cars[j]) && i < n ==> cars_ahead(cars, cars[i], n) < cars_ahead(
            cars,
            cars[j],
            n,
        ),
    decreases n,
{
    if n > 0 {
        lemma_no_fewer_ahead(cars, i, j, n - 1);
        let k = n - 1;
        if runs_before(cars[k], cars[i]) {
            assert(runs_before(cars[k], cars[j]) || runs_before(cars[j], cars[i]));
        }
    }
}

/// Where the distances of a session's cars put them in an order, no car stands behind one
/// that it runs before, and every car stands there once.
pub proof fn cars_stand_as_they_run(cars: Seq<CarStanding>)
    requires
        is_running_order(cars),
        cars.len() <= usize::MAX,
    ensures
        forall|i: int, j: int|
            #![trigger in_running_order(cars)[i], in_running_order(cars)[j]]
            0 <= i < j < in_running_order(cars).len() ==> !runs_before(
                in_running_order(cars)[j].standing,
                in_running_order(cars)[i].standing,
            ),
        in_running_order(cars).to_multiset() == with_cars_ahead(cars).to_multiset(),
{
    let counted = with_cars_ahead(cars);
    let sorted = in_running_order(cars);
    ranked_is_sorted_permutation(counted);
    counted.to_multiset_ensures();
    sorted.to_multiset_ensures();
    assert forall|i: int, j: int|
        #![trigger sorted[i], sorted[j]]
        0 <= i < j < sorted.len() implies !runs_before(sorted[j].standing, sorted[i].standing) by {
        assert(sorted.contains(sorted[i]) && sorted.contains(sorted[j]));
        assert(counted.to_multiset().count(sorted[i]) > 0);
        assert(counted.to_multiset().count(sorted[j]) > 0);
        assert(counted.contains(sorted[i]) && counted.contains(sorted[j]));
        let a = choose|a: int| 0 <= a < counted.len() && counted[a] == sorted[i];
        let b = choose|b: int| 0 <= b < counted.len() && counted[b] == sorted[j];
        let n = cars.len() as int;
        lemma_cars_ahead_bound(cars, cars[a], n);
        lemma_cars_ahead_bound(cars, cars[b], n);
        if runs_before(cars[b], cars[a]) {
            lemma_no_fewer_ahead(cars, b, a, n);
            assert(sorted[j].ranks_before(&sorted[i]));
        }
    }
}

/// Distances that are numbers put any cars in an order, and any distances do so with two
/// cars.
pub proof fn distances_order_the_cars(cars: Seq<CarStanding>)
    requires
        cars.len() <= 2 || forall|i: int|
            0 <= i < cars.len() ==> !(#[trigger] cars[i]).lap_progress_m.nan(),
    ensures
        is_running_order(cars),
{
}

/// The standing of the car at the place in the frame; a car that is not timed has
/// not come anywhere.
pub open spec fn standing_of<T>(cars: Seq<RuntimeCarFrame<T>>, place: int) -> CarStanding {
    CarStanding {
        place: place as usize,
        completed_laps: match cars[place].race_metrics {
            Some(metrics) => metrics.completed_laps,
            None => 0,
        },
        lap_progress_m: match cars[place].race_metrics {
            Some(metrics) => metrics.lap_progress_m,
            None => F32Bits { bits: ZERO_BITS },
        },
        car_id: cars[place].public_car_id,
    }
}

/// The standings of the session's cars among the first `n` of the frame.
pub open spec fn standings<T>(
    cars: Seq<RuntimeCarFrame<T>>,
    source: SourceKeyView,
    n: int,
) -> Seq<CarStanding>
    decreases n,
{
    if n <= 0 {
        Seq::empty()
    } else if cars[n - 1].target@ == engine_target(source) {
        standings(cars, source, n - 1).push(standing_of(cars, n - 1))
    } else {
        standings(cars, source, n - 1)
    }
}

/// A car of the session in the order in which the cars run.
#[derive(Clone, Copy, PartialEq, Eq, Debug, Structural)]
pub struct PlacedCar {
    pub place: usize,
    pub completed_laps: u32,
    pub race_position: u32,
}

fn count_cars_ahead(cars: &Vec<CarStanding>) -> (r: Vec<RankedCar>)
    ensures
        r@ == with_cars_ahead(cars@),
{
    let mut r: Vec<RankedCar> = Vec::new();
    let mut i: usize = 0;
    while i < cars.len()
        invariant
            i <= cars@.len(),
            r@.len() == i,
            forall|k: int| 0 <= k < i ==> #[trigger] r@[k] == with_cars_ahead(cars@)[k],
        decreases cars@.len() - i,
    {
        let mut ahead: usize = 0;
        let mut n: usize = 0;
        while n < cars.len()
            invariant
                i < cars@.len(),
                n <= cars@.len(),
                ahead <= n,
                ahead == cars_ahead(cars@, cars@[i as int], n as int),
            decreases cars@.len() - n,
        {
            if is_running_before(&cars[n], &cars[i]) {
                ahead += 1;
            }
            n += 1;
        }
        r.push(RankedCar { standing: cars[i], cars_ahead: ahead });
        i += 1;
    }
    r
}

/// The cars of the session, in the order in which they run.
pub fn place_source_cars<T>(cars: &Vec<RuntimeCarFrame<T>>, source: &AchievementSourceKey) -> (r:
    Vec<PlacedCar>)
    ensures
        ({
            let sorted = in_running_order(standings(cars@, source@, cars@.len() as int));
            &&& r@.len() == sorted.len()
            &&& forall|i: int|
                0 <= i < r@.len() ==> #[trigger] r@[i] == (PlacedCar {
                    place: sorted[i].standing.place,
                    completed_laps: sorted[i].standing.completed_laps,
                    race_position: (i + 1) as u32,
                })
        }),
{
    let mut found: Vec<CarStanding> = Vec::new();
    let mut n: usize = 0;
    while n < cars.len()
        invariant
            n <= cars@.len(),
            found@ == standings(cars@, source@, n as int),
        decreases cars@.len() - n,
    {
        if source_matches_target(source, &cars[n].target) {
            let (completed_laps, lap_progress_m) = match cars[n].race_metrics {
                Some(metrics) => (metrics.completed_laps, metrics.lap_progress_m),
                None => (0u32, F32Bits { bits: ZERO_BITS }),
            };
            found.push(
                CarStanding {
                    place: n,
                    completed_laps,
                    lap_progress_m,
                    car_id: cars[n].public_car_id,
                },
            );
        }
        n += 1;
    }
    let counted: Vec<RankedCar> = count_cars_ahead(&found);
    let sorted: Vec<RankedCar> = sort_ranked(counted);
    let mut r: Vec<PlacedCar> = Vec::new();
    let mut i: usize = 0;
    while i < sorted.len()
        invariant
            i <= sorted@.len(),
            r@.len() == i,
            forall|k: int|
                0 <= k < i ==> #[trigger] r@[k] == (PlacedCar {
                    place: sorted@[k].standing.place,
                    completed_laps: sorted@[k].standing.completed_laps,
                    race_position: (k + 1) as u32,
                }),
        decreases sorted@.len() - i,
    {
        r.push(
            PlacedCar {
                place: sorted[i].standing.place,
                completed_laps: sorted[i].standing.completed_laps,
                race_position: next_place(i),
            },
        );
        i += 1;
    }
    r
}

/// The team that the stream shows for a car.
pub fn team_of(identity: &Option<RuntimeCarIdentity>) -> (r: String)
    ensures
        r@ == match identity {
            Some(i) => match i.team_id {
                Some(team) => team@,
                None => "unknown"@,
            },
            None => "unknown"@,
        },
{
    match identity {
        Some(i) => match &i.team_id {
            Some(team) => team.clone(),
            None => "unknown".to_owned(),
        },
        None => "unknown".to_owned(),
    }
}

#[derive(Clone, Copy, PartialEq, Eq, Debug, Structural)]
pub enum AchievementTireType {
    Hard,
    Soft,
    Wet,
}

pub fn achievement_tire_type_from_engine(value: TyreType) -> (r: AchievementTireType)
    ensures
        r == match value {
            TyreType::Hard => AchievementTireType::Hard,
            TyreType::Soft => AchievementTireType::Soft,
            TyreType::Wet => AchievementTireType::Wet,
        },
{
    match value {
        TyreType::Hard => AchievementTireType::Hard,
        TyreType::Soft => AchievementTireType::Soft,
        TyreType::Wet => AchievementTireType::Wet,
    }
}

/// A session is the engine's own: the official race, or the sandbox with the id. Different
/// sessions are different to the engine.
pub proof fn sessions_are_the_engines(a: SourceKeyView, b: SourceKeyView)
    ensures
        (engine_target(a) is OfficialRace) == (a is OfficialRace),
        (engine_target(a) is Sandbox) == (a is OfficialSandbox),
        a matches SourceKeyView::OfficialSandbox(id) ==> engine_target(a)->sandbox_id == id,
        engine_target(a) == engine_target(b) ==> a == b,
{
}

/// No session comes before the official race, and sandboxes come in the order of their ids.
pub proof fn official_race_comes_first(a: SourceKeyView, x: Seq<char>, y: Seq<char>)
    ensures
        !key_before(a, SourceKeyView::OfficialRace),
        a is OfficialSandbox ==> key_before(SourceKeyView::OfficialRace, a),
        key_before(SourceKeyView::OfficialSandbox(x), SourceKeyView::OfficialSandbox(y))
            == text::text_before(x, y),
{
}

/// Listed, the sessions that run stand with the official race in front, no sandbox behind one
/// whose id comes after its own, and each as often as it was found.
pub proof fn sessions_stand_in_order(listed: Seq<ActiveSource>)
    ensures
        ranked(listed).len() == listed.len(),
        ranked(listed).to_multiset() == listed.to_multiset(),
        forall|i: int, j: int|
            #![trigger ranked(listed)[i], ranked(listed)[j]]
            0 <= i < j < listed.len() ==> !(ranked(listed)[j].key@ is OfficialRace && ranked(
                listed,
            )[i].key@ is OfficialSandbox),
        forall|i: int, j: int|
            #![trigger ranked(listed)[i], ranked(listed)[j]]
            0 <= i < j < listed.len() ==> (ranked(listed)[i].key@ matches
                SourceKeyView::OfficialSandbox(x) ==> (ranked(listed)[j].key@ matches
                SourceKeyView::OfficialSandbox(y) ==> !text::text_before(y, x))),
{
    ranked_is_sorted_permutation(listed);
    let r = ranked(listed);
    assert forall|i: int, j: int|
        #![trigger r[i], r[j]]
        0 <= i < j < listed.len() implies !key_before(r[j].key@, r[i].key@) by {
        assert(!r[j].ranks_before(&r[i]));
    }
}

/// The sessions of a state are the official race on the engine's map, exactly where it runs,
/// and every sandbox that runs, under its id and on its map.
pub proof fn sessions_of_a_state_run(
    sources: Seq<ActiveSource>,
    state: EngineRuntimeState,
    i: int,
)
    requires
        are_sources_of(sources, state),
    ensures
        state.activity_kind is OfficialRace ==> sources.len() == state.active_sandboxes@.len() + 1
            && sources[0].key@ is OfficialRace && sources[0].map_id@ == state.map_id@,
        !(state.activity_kind is OfficialRace) ==> sources.len() == state.active_sandboxes@.len(),
        0 <= i < state.active_sandboxes@.len() ==> ({
            let source = sources[if state.activity_kind is OfficialRace {
                1 + i
            } else {
                i
            }];
            &&& source.key@ == SourceKeyView::OfficialSandbox(
                state.active_sandboxes@[i].sandbox_id@,
            )
            &&& source.map_id@ == state.active_sandboxes@[i].map_id@
        }),
{
    if 0 <= i < state.active_sandboxes@.len() {
        let first: int = if state.activity_kind == EngineActivityKind::OfficialRace {
            1
        } else {
            0
        };
        assert(is_sandbox_source(sources[first + i], state.active_sandboxes@[i]));
    }
}

/// The map of sessions holds the official race apart from the sandboxes, and each sandbox
/// under its id.
pub proof fn sessions_are_held_apart<V>(map: SourceMap<V>, id: Seq<char>)
    ensures
        map@.contains_key(SourceKeyView::OfficialRace) == (map.official_race is Some),
        map.official_race matches Some(v) ==> map@[SourceKeyView::OfficialRace] == v,
        map@.contains_key(SourceKeyView::OfficialSandbox(id)) == map.sandboxes@.contains_key(id),
        map.sandboxes@.contains_key(id) ==> map@[SourceKeyView::OfficialSandbox(id)]
            == map.sandboxes@[id],
{
}

/// A session is news exactly where the client does not know it or knows it on another map.
pub proof fn other_sessions_and_maps_are_news(
    announced: Map<SourceKeyView, String>,
    source: ActiveSource,
)
    ensures
        !announced.contains_key(source.key@) ==> is_news(announced, source),
        announced.contains_key(source.key@) ==> is_news(announced, source) == (
        announced[source.key@]@ != source.map_id@),
{
}

/// A car with more laps runs before one with fewer; of two with as many, the one that has come
/// further; of two that have come equally far, the one with the lower id.
pub proof fn laps_count_before_distance(a: CarStanding, b: CarStanding)
    ensures
        a.completed_laps > b.completed_laps ==> runs_before(a, b) && !runs_before(b, a),
        a.completed_laps == b.completed_laps && a.lap_progress_m.above(b.lap_progress_m)
            ==> runs_before(a, b),
        a.completed_laps == b.completed_laps && !a.lap_progress_m.above(b.lap_progress_m)
            && !b.lap_progress_m.above(a.lap_progress_m) ==> runs_before(a, b) == (a.car_id
            < b.car_id),
        a.completed_laps == b.completed_laps && b.lap_progress_m.above(a.lap_progress_m)
            && !a.lap_progress_m.above(b.lap_progress_m) ==> !runs_before(a, b),
{
}

/// Every car that runs before another counts for it once, and no other does.
pub proof fn cars_ahead_are_counted(cars: Seq<CarStanding>, car: CarStanding, n: int)
    ensures
        n > 0 && runs_before(cars[n - 1], car) ==> cars_ahead(cars, car, n) == cars_ahead(
            cars,
            car,
            n - 1,
        ) + 1,
        n > 0 && !runs_before(cars[n - 1], car) ==> cars_ahead(cars, car, n) == cars_ahead(
            cars,
            car,
            n - 1,
        ),
        cars_ahead(cars, car, 0) == 0,
        with_cars_ahead(cars).len() == cars.len(),
        0 <= n < cars.len() ==> with_cars_ahead(cars)[n].standing == cars[n],
{
}

/// A car stands where its metrics put it, and at the start without any.
pub proof fn car_stands_where_it_has_come<T>(cars: Seq<RuntimeCarFrame<T>>, place: int)
    requires
        0 <= place <= usize::MAX,
    ensures
        standing_of(cars, place).place == place,
        standing_of(cars, place).car_id == cars[place].public_car_id,
        cars[place].race_metrics matches Some(m) ==> standing_of(cars, place).completed_laps
            == m.completed_laps && standing_of(cars, place).lap_progress_m == m.lap_progress_m,
        cars[place].race_metrics is None ==> standing_of(cars, place).completed_laps == 0
            && standing_of(cars, place).lap_progress_m.bits == 0,
{
}

/// Every car of the session has a standing, and no other car has.
pub proof fn cars_of_the_session_stand<T>(
    cars: Seq<RuntimeCarFrame<T>>,
    source: SourceKeyView,
    n: int,
)
    requires
        0 <= n <= cars.len() <= usize::MAX,
    ensures
        forall|k: int|
            #![trigger standings(cars, source, n)[k]]
            0 <= k < standings(cars, source, n).len() ==> {
                let place = standings(cars, source, n)[k].place as int;
                &&& place < n
                &&& cars[place].target@ == engine_target(source)
                &&& standings(cars, source, n)[k] == standing_of(cars, place)
            },
        forall|i: int|
            0 <= i < n && (#[trigger] cars[i]).target@ == engine_target(source) ==> standings(
                cars,
                source,
                n,
            ).contains(standing_of(cars, i)),
    decreases n,
{
    if n > 0 {
        cars_of_the_session_stand(cars, source, n - 1);
        let before = standings(cars, source, n - 1);
        let now = standings(cars, source, n);
        if cars[n - 1].target@ == engine_target(source) {
            assert(now[before.len() as int] == standing_of(cars, n - 1));
            assert forall|k: int| 0 <= k < before.len() implies now[k] == #[trigger] before[k] by {}
        }
        assert forall|i: int|
            0 <= i < n && (#[trigger] cars[i]).target@ == engine_target(
                source,
            ) implies now.contains(standing_of(cars, i)) by {
            if i < n - 1 {
                let k = choose|k: int|
                    0 <= k < before.len() && before[k] == standing_of(cars, i);
                assert(now[k] == standing_of(cars, i));
            }
        }
        assert forall|k: int| #![trigger now[k]] 0 <= k < now.len() implies {
            let place = now[k].place as int;
            &&& place < n
            &&& cars[place].target@ == engine_target(source)
            &&& now[k] == standing_of(cars, place)
        } by {
            if k < before.len() {
                assert(now[k] == before[k]);
            }
        }
    }
}

/// A client that is told of a session behind others knows it on its map from then on, and the
/// others as before; told of none it knows none.
pub proof fn told_sessions_are_known(
    sources: Seq<ActiveSource>,
    source: ActiveSource,
    key: SourceKeyView,
)
    ensures
        known_sources(sources.push(source)).contains_key(key) <==> source.key@ == key
            || known_sources(sources).contains_key(key),
        source.key@ == key ==> known_sources(sources.push(source))[key] == source.map_id,
        source.key@ != key && known_sources(sources).contains_key(key) ==> known_sources(
            sources.push(source),
        )[key] == known_sources(sources)[key],
        !known_sources(Seq::empty()).contains_key(key),
{
    assert(sources.push(source).drop_last() =~= sources);
}

/// The places of the news are those of the sessions that are news, all of them, in order.
pub proof fn news_are_listed_in_order(
    places: Seq<usize>,
    announced: Map<SourceKeyView, String>,
    current: Seq<ActiveSource>,
    i: int,
    j: int,
    k: int,
)
    requires
        are_news(places, announced, current),
        0 <= i < j < places.len(),
        0 <= k < current.len(),
    ensures
        places[i] < places[j],
        places[j] < current.len(),
        is_news(announced, current[places[i] as int]),
        is_news(announced, current[k]) ==> places.contains(k as usize) && has_news(
            announced,
            current,
        ),
{
}

/// A stream begins with all sessions and their cars; later it tells its news, where there are
/// any, and the cars.
pub proof fn streams_tell_news_and_cars(
    messages: Seq<AchievementMessage>,
    announced: Map<SourceKeyView, String>,
    current: Seq<ActiveSource>,
    k: int,
)
    requires
        0 <= k < current.len() <= usize::MAX,
    ensures
        are_first_messages(messages, current) ==> messages.len() == 2 && (messages[0] matches
            AchievementMessage::Bootstrap(places) && places@.len() == current.len() && places@[k]
            == k) && messages[1] is Snapshot,
        are_tick_messages(messages, announced, current) && is_news(announced, current[k])
            ==> messages.len() == 2 && (messages[0] matches AchievementMessage::TopologyUpdate(
            places,
        ) && places@.contains(k as usize)) && messages[1] is Snapshot,
        are_tick_messages(messages, announced, current) && !has_news(announced, current)
            ==> messages.len() == 1 && messages[0] is Snapshot,
{
    if is_news(announced, current[k]) {
        assert(has_news(announced, current));
    }
}

} // verus!
