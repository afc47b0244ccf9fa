//! Where a car was when: the points from which the gap to the leader is read off.
//!
//! A distance is held by the bit pattern of a double-precision number that is not
//! negative. Of two such numbers the larger one has the larger pattern.

use std::collections::VecDeque;
use vstd::prelude::*;

verus! {

/// Points older than this are dropped.
pub const TRAJECTORY_MAX_AGE_MS: u64 = 86_400_000;

/// The car was at the distance at the time.
#[derive(Clone, Copy, PartialEq, Eq, Debug, Structural)]
pub struct TrajectorySample {
    pub progress: u64,
    pub race_elapsed_ms: u64,
}

/// How a car's distance compares with that of its last point: by more than the
/// tolerances that the caller applies.
#[derive(Clone, Copy, PartialEq, Eq, Debug, Structural)]
pub struct ProgressChange {
    /// The car is so far back that it must have been moved.
    pub has_fallen_back: bool,
    /// The car has come far enough for another point.
    pub has_advanced: bool,
}

/// Distances and times both ascend strictly.
pub open spec fn points_ascend(s: Seq<TrajectorySample>) -> bool {
    forall|i: int, j: int|
        #![trigger s[i], s[j]]
        0 <= i < j < s.len() ==> s[i].progress < s[j].progress && s[i].race_elapsed_ms
            < s[j].race_elapsed_ms
}

/// `s` without the points from before the time at its front; the last point stays.
pub open spec fn without_old(s: Seq<TrajectorySample>, min_keep_ms: u64) -> Seq<TrajectorySample>
    decreases s.len(),
{
    if s.len() > 1 && s[0].race_elapsed_ms < min_keep_ms {
        without_old(s.subrange(1, s.len() as int), min_keep_ms)
    } else {
        s
    }
}

/// The points with the new one, where it is one: the first one always is; a later
/// one must be later, further, and further by enough.
pub open spec fn with_point(
    s: Seq<TrajectorySample>,
    point: TrajectorySample,
    change: ProgressChange,
) -> Seq<TrajectorySample> {
    let kept = if change.has_fallen_back {
        Seq::empty()
    } else {
        s
    };
    if kept.len() == 0 {
        kept.push(point)
    } else if point.race_elapsed_ms <= kept.last().race_elapsed_ms || point.progress
        <= kept.last().progress {
        kept
    } else if change.has_advanced {
        kept.push(point)
    } else {
        kept
    }
}

/// The earliest time of which points are kept.
pub open spec fn keep_from(race_elapsed_ms: u64) -> u64 {
    if race_elapsed_ms < TRAJECTORY_MAX_AGE_MS {
        0
    } else {
        (race_elapsed_ms - TRAJECTORY_MAX_AGE_MS) as u64
    }
}

/// The points after one more reading.
pub open spec fn after_reading(
    s: Seq<TrajectorySample>,
    point: TrajectorySample,
    change: ProgressChange,
) -> Seq<TrajectorySample> {
    without_old(with_point(s, point, change), keep_from(point.race_elapsed_ms))
}

/// A car's points.
#[derive(Debug)]
pub struct Trajectory {
    points: VecDeque<TrajectorySample>,
}

/// Between which points a distance lies.
#[derive(Clone, Copy, PartialEq, Eq, Debug, Structural)]
pub struct Bracket {
    /// The last point that is short of the distance.
    pub lower: Option<TrajectorySample>,
    /// The first point that is not.
    pub upper: TrajectorySample,
}

/// The bracket of a distance that is within the points.
pub open spec fn is_bracket(s: Seq<TrajectorySample>, progress: u64, b: Bracket) -> bool {
    exists|i: int|
        {
            &&& 0 <= i < s.len()
            &&& b.upper == #[trigger] s[i]
            &&& s[i].progress >= progress
            &&& b.lower == if i == 0 {
                None
            } else {
                Some(s[i - 1])
            }
            &&& i > 0 ==> s[i - 1].progress < progress
        }
}

/// The distance is not beyond either end of the points.
pub open spec fn is_within(s: Seq<TrajectorySample>, progress: u64) -> bool {
    s.len() > 0 && s[0].progress <= progress <= s.last().progress
}

impl View for Trajectory {
    type V = Seq<TrajectorySample>;

    closed spec fn view(&self) -> Seq<TrajectorySample> {
        self.points@
    }
}

impl Trajectory {
    #[verifier::type_invariant]
    spec fn well_formed(self) -> bool {
        points_ascend(self.points@)
    }

    pub fn new() -> (r: Self)
        ensures
            r@ == Seq::<TrajectorySample>::empty(),
    {
        Trajectory { points: VecDeque::new() }
    }

    pub fn len(&self) -> (r: usize)
        ensures
            r == self@.len(),
    {
        self.points.len()
    }

    pub fn last(&self) -> (r: Option<TrajectorySample>)
        ensures
            r == if self@.len() == 0 {
                None
            } else {
                Some(self@.last())
            },
    {
        let n: usize = self.points.len();
        if n == 0 {
            None
        } else {
            Some(self.points[n - 1])
        }
    }

    /// Takes one more reading.
    pub fn record(self, point: TrajectorySample, change: ProgressChange) -> (r: Self)
        ensures
            r@ == after_reading(self@, point, change),
            points_ascend(r@),
    {
        proof {
            use_type_invariant(&self);
        }
        let Trajectory { points } = self;
        let mut points: VecDeque<TrajectorySample> = points;
        if change.has_fallen_back {
            points = VecDeque::new();
        }
        let n: usize = points.len();
        let is_point = if n == 0 {
            true
        } else {
            let last: TrajectorySample = points[n - 1];
            point.race_elapsed_ms > last.race_elapsed_ms && point.progress > last.progress
                && change.has_advanced
        };
        let ghost before = points@;
        if is_point {
            points.push_back(point);
        }
        proof {
            assert(points@ == with_point(self@, point, change));
            assert forall|i: int, j: int|
                #![trigger points@[i], points@[j]]
                0 <= i < j < points@.len() implies points@[i].progress < points@[j].progress
                && points@[i].race_elapsed_ms < points@[j].race_elapsed_ms by {
                if j < before.len() {
                    assert(before[i].progress < before[j].progress);
                } else if i < before.len() - 1 {
                    assert(before[i].progress < before[before.len() - 1].progress);
                }
            }
        }
        let min_keep_ms: u64 = point.race_elapsed_ms.saturating_sub(TRAJECTORY_MAX_AGE_MS);
        let ghost all = points@;
        while points.len() > 1 && points[0].race_elapsed_ms < min_keep_ms
            invariant
                points_ascend(points@),
                without_old(all, min_keep_ms) == without_old(points@, min_keep_ms),
            decreases points@.len(),
        {
            let ghost shown = points@;
            points.pop_front();
            proof {
                assert forall|i: int, j: int|
                    #![trigger points@[i], points@[j]]
                    0 <= i < j < points@.len() implies points@[i].progress < points@[j].progress
                    && points@[i].race_elapsed_ms < points@[j].race_elapsed_ms by {
                    assert(shown[i + 1].progress < shown[j + 1].progress);
                }
            }
        }
        Trajectory { points }
    }

    /// Between which points the distance lies, where it is within them.
    pub fn bracket(&self, progress: u64) -> (r: Option<Bracket>)
        ensures
            r is Some <==> is_within(self@, progress),
            r is Some ==> is_bracket(self@, progress, r->Some_0),
    {
        proof {
            use_type_invariant(self);
        }
        let n: usize = self.points.len();
        if n == 0 {
            return None;
        }
        if progress < self.points[0].progress || progress > self.points[n - 1].progress {
            return None;
        }
        let ghost s = self@;
        let mut lo: usize = 0;
        let mut hi: usize = n - 1;
        while lo < hi
            invariant
                lo <= hi < n,
                n == s.len(),
                s == self.points@,
                points_ascend(s),
                s[hi as int].progress >= progress,
                lo > 0 ==> s[lo - 1].progress < progress,
            decreases hi - lo,
        {
            let mid: usize = lo + (hi - lo) / 2;
            if self.points[mid].progress < progress {
                lo = mid + 1;
            } else {
                hi = mid;
            }
        }
        let upper: TrajectorySample = self.points[lo];
        let lower: Option<TrajectorySample> = if lo == 0 {
            None
        } else {
            Some(self.points[lo - 1])
        };
        proof {
            assert(s[lo as int] == upper);
        }
        Some(Bracket { lower, upper })
    }
}

/// A distance lies between one pair of points only.
pub proof fn bracket_is_unique(s: Seq<TrajectorySample>, progress: u64, a: Bracket, b: Bracket)
    requires
        points_ascend(s),
        is_bracket(s, progress, a),
        is_bracket(s, progress, b),
    ensures
        a == b,
{
    let i = choose|i: int|
        {
            &&& 0 <= i < s.len()
            &&& a.upper == #[trigger] s[i]
            &&& s[i].progress >= progress
            &&& a.lower == if i == 0 {
                None
            } else {
                Some(s[i - 1])
            }
            &&& i > 0 ==> s[i - 1].progress < progress
        };
    let j = choose|j: int|
        {
            &&& 0 <= j < s.len()
            &&& b.upper == #[trigger] s[j]
            &&& s[j].progress >= progress
            &&& b.lower == if j == 0 {
                None
            } else {
                Some(s[j - 1])
            }
            &&& j > 0 ==> s[j - 1].progress < progress
        };
    if i < j {
        if i < j - 1 {
            assert(s[i].progress < s[j - 1].progress);
        }
    } else if j < i {
        if j < i - 1 {
            assert(s[j].progress < s[i - 1].progress);
        }
    }
}

/// Readings keep a car's points in order, and never drop the last one.
pub proof fn readings_keep_order(
    s: Seq<TrajectorySample>,
    point: TrajectorySample,
    change: ProgressChange,
)
    requires
        points_ascend(s),
    ensures
        points_ascend(after_reading(s, point, change)),
        after_reading(s, point, change).len() >= 1,
{
    let all = with_point(s, point, change);
    assert(points_ascend(all)) by {
        assert forall|i: int, j: int|
            #![trigger all[i], all[j]]
            0 <= i < j < all.len() implies all[i].progress < all[j].progress
            && all[i].race_elapsed_ms < all[j].race_elapsed_ms by {
            if all.len() > s.len() && j == s.len() {
                if i < s.len() - 1 {
                    assert(s[i].progress < s[s.len() - 1].progress);
                }
            } else {
                assert(s[i].progress < s[j].progress);
            }
        }
    }
    lemma_without_old(all, keep_from(point.race_elapsed_ms));
}

proof fn lemma_without_old(s: Seq<TrajectorySample>, min_keep_ms: u64)
    requires
        points_ascend(s),
        s.len() >= 1,
    ensures
        points_ascend(without_old(s, min_keep_ms)),
        without_old(s, min_keep_ms).len() >= 1,
        without_old(s, min_keep_ms).last() == s.last(),
    decreases s.len(),
{
    if s.len() > 1 && s[0].race_elapsed_ms < min_keep_ms {
        let rest = s.subrange(1, s.len() as int);
        assert forall|i: int, j: int|
            #![trigger rest[i], rest[j]]
            0 <= i < j < rest.len() implies rest[i].progress < rest[j].progress
            && rest[i].race_elapsed_ms < rest[j].race_elapsed_ms by {
            assert(s[i + 1].progress < s[j + 1].progress);
        }
        lemma_without_old(rest, min_keep_ms);
    }
}

proof fn lemma_without_old_keeps(s: Seq<TrajectorySample>, min_keep_ms: u64)
    ensures
        forall|p: TrajectorySample| #[trigger]
            without_old(s, min_keep_ms).contains(p) ==> s.contains(p),
        points_ascend(s) ==> forall|i: int|
            0 <= i < s.len() && (#[trigger] s[i]).race_elapsed_ms >= min_keep_ms ==> without_old(
                s,
                min_keep_ms,
            ).contains(s[i]),
        points_ascend(s) ==> forall|i: int|
            0 <= i < without_old(s, min_keep_ms).len() - 1 ==> (#[trigger] without_old(
                s,
                min_keep_ms,
            )[i]).race_elapsed_ms >= min_keep_ms,
    decreases s.len(),
{
    if s.len() > 1 && s[0].race_elapsed_ms < min_keep_ms {
        let rest = s.subrange(1, s.len() as int);
        lemma_without_old_keeps(rest, min_keep_ms);
        assert(without_old(s, min_keep_ms) == without_old(rest, min_keep_ms));
        assert forall|p: TrajectorySample| #[trigger]
            without_old(s, min_keep_ms).contains(p) implies s.contains(p) by {
            assert(rest.contains(p));
            let k = choose|k: int| 0 <= k < rest.len() && rest[k] == p;
            assert(s[k + 1] == p);
        }
        if points_ascend(s) {
            assert(points_ascend(rest)) by {
                assert forall|i: int, j: int|
                    #![trigger rest[i], rest[j]]
                    0 <= i < j < rest.len() implies rest[i].progress < rest[j].progress
                    && rest[i].race_elapsed_ms < rest[j].race_elapsed_ms by {
                    assert(s[i + 1].progress < s[j + 1].progress);
                }
            }
            assert forall|i: int|
                0 <= i < s.len() && (#[trigger] s[i]).race_elapsed_ms
                    >= min_keep_ms implies without_old(s, min_keep_ms).contains(s[i]) by {
                assert(rest[i - 1] == s[i]);
            }
        }
    } else {
        assert forall|i: int| 0 <= i < s.len() implies s.contains(#[trigger] s[i]) by {
        }
        if points_ascend(s) {
            assert forall|i: int| 0 <= i < s.len() - 1 implies (#[trigger] s[i]).race_elapsed_ms
                >= min_keep_ms by {
                if i > 0 {
                    assert(s[0].race_elapsed_ms < s[i].race_elapsed_ms);
                }
            }
        }
    }
}

/// What a reading does to a car's points. A car that was moved back begins afresh with it,
/// and so does a car without points. Else it becomes the last point where it is later and
/// further and far enough from the one before, and only there. No other point comes in, and
/// none goes but those of more than a day before the reading.
pub proof fn reading_adds_a_point_or_none(
    s: Seq<TrajectorySample>,
    point: TrajectorySample,
    change: ProgressChange,
    p: TrajectorySample,
)
    requires
        points_ascend(s),
    ensures
        change.has_fallen_back || s.len() == 0 ==> after_reading(s, point, change) == seq![point],
        !change.has_fallen_back && s.len() > 0 && change.has_advanced && point.race_elapsed_ms
            > s.last().race_elapsed_ms && point.progress > s.last().progress ==> after_reading(
            s,
            point,
            change,
        ).last() == point,
        !change.has_fallen_back && s.len() > 0 && !(change.has_advanced && point.race_elapsed_ms
            > s.last().race_elapsed_ms && point.progress > s.last().progress) ==> after_reading(
            s,
            point,
            change,
        ).last() == s.last(),
        after_reading(s, point, change).contains(p) ==> p == point || s.contains(p),
        !change.has_fallen_back && s.contains(p) && p.race_elapsed_ms + 86_400_000
            >= point.race_elapsed_ms ==> after_reading(s, point, change).contains(p),
        after_reading(s, point, change).contains(p) ==> p.race_elapsed_ms + 86_400_000
            >= point.race_elapsed_ms || p == after_reading(s, point, change).last(),
{
    let all = with_point(s, point, change);
    let kept = keep_from(point.race_elapsed_ms);
    readings_keep_order(s, point, change);
    assert(points_ascend(all)) by {
        assert forall|i: int, j: int|
            #![trigger all[i], all[j]]
            0 <= i < j < all.len() implies all[i].progress < all[j].progress
            && all[i].race_elapsed_ms < all[j].race_elapsed_ms by {
            if all.len() > s.len() && j == s.len() {
                if i < s.len() - 1 {
                    assert(s[i].progress < s[s.len() - 1].progress);
                }
            } else {
                assert(s[i].progress < s[j].progress);
            }
        }
    }
    lemma_without_old(all, kept);
    lemma_without_old_keeps(all, kept);
    let r = after_reading(s, point, change);
    if change.has_fallen_back || s.len() == 0 {
        assert(all =~= seq![point]);
        assert(r =~= seq![point]);
    }
    if r.contains(p) {
        assert(all.contains(p));
        let k = choose|k: int| 0 <= k < all.len() && all[k] == p;
        if k < s.len() && !change.has_fallen_back {
            assert(s[k] == p);
        }
        let m = choose|m: int| 0 <= m < r.len() && r[m] == p;
        if m < r.len() - 1 {
            assert(r[m].race_elapsed_ms >= kept);
        }
    }
    if !change.has_fallen_back && s.contains(p) && p.race_elapsed_ms + 86_400_000
        >= point.race_elapsed_ms {
        let k = choose|k: int| 0 <= k < s.len() && s[k] == p;
        assert(all[k] == p);
        assert(p.race_elapsed_ms >= kept);
    }
}

/// The two points of a bracket enclose the distance and are neighbours: the upper one is the
/// nearest that is not short of it, the lower one the nearest that is.
pub proof fn bracket_encloses(s: Seq<TrajectorySample>, progress: u64, b: Bracket, k: int)
    requires
        points_ascend(s),
        is_bracket(s, progress, b),
        0 <= k < s.len(),
    ensures
        progress <= b.upper.progress,
        b.lower matches Some(lower) ==> lower.progress < progress,
        s.contains(b.upper),
        s[k].progress >= progress ==> s[k].progress >= b.upper.progress,
        s[k].progress < progress ==> (b.lower matches Some(lower) && s[k].progress
            <= lower.progress),
{
    let i = choose|i: int|
        {
            &&& 0 <= i < s.len()
            &&& b.upper == #[trigger] s[i]
            &&& s[i].progress >= progress
            &&& b.lower == if i == 0 {
                None
            } else {
                Some(s[i - 1])
            }
            &&& i > 0 ==> s[i - 1].progress < progress
        };
    if k < i - 1 {
        assert(s[k].progress < s[i - 1].progress);
    } else if k > i {
        assert(s[i].progress < s[k].progress);
    }
}

/// A distance is within the points exactly where some point is not beyond it and some point
/// is not short of it.
pub proof fn distance_within_is_enclosed(s: Seq<TrajectorySample>, progress: u64)
    requires
        points_ascend(s),
    ensures
        is_within(s, progress) <==> (exists|i: int|
            0 <= i < s.len() && (#[trigger] s[i]).progress <= progress) && (exists|j: int|
            0 <= j < s.len() && (#[trigger] s[j]).progress >= progress),
{
    if is_within(s, progress) {
        assert(s[0].progress <= progress);
        assert(s[s.len() - 1].progress >= progress);
    }
    if (exists|i: int| 0 <= i < s.len() && (#[trigger] s[i]).progress <= progress) && (exists|j: int|
        0 <= j < s.len() && (#[trigger] s[j]).progress >= progress) {
        let i = choose|i: int| 0 <= i < s.len() && (#[trigger] s[i]).progress <= progress;
        let j = choose|j: int| 0 <= j < s.len() && (#[trigger] s[j]).progress >= progress;
        if i > 0 {
            assert(s[0].progress < s[i].progress);
        }
        if j < s.len() - 1 {
            assert(s[j].progress < s[s.len() - 1].progress);
        }
    }
}

/// Of a trajectory the oldest points go, as many as are too old, and nothing else; the last
/// point stays however old it is.
pub proof fn only_old_points_go(s: Seq<TrajectorySample>, min_keep_ms: u64) -> (n: int)
    ensures
        0 <= n <= s.len(),
        without_old(s, min_keep_ms) == s.skip(n),
        forall|i: int| 0 <= i < n ==> (#[trigger] s[i]).race_elapsed_ms < min_keep_ms,
        s.len() > 0 ==> n < s.len(),
        n < s.len() - 1 ==> s[n].race_elapsed_ms >= min_keep_ms,
    decreases s.len(),
{
    if s.len() > 1 && s[0].race_elapsed_ms < min_keep_ms {
        let rest = s.subrange(1, s.len() as int);
        let n = only_old_points_go(rest, min_keep_ms);
        assert(rest.skip(n) =~= s.skip(n + 1));
        assert forall|i: int| 0 <= i < n + 1 implies (#[trigger] s[i]).race_elapsed_ms
            < min_keep_ms by {
            if i > 0 {
                assert(rest[i - 1] == s[i]);
            }
        }
        assert(rest[n] == s[n + 1]);
        n + 1
    } else {
        assert(s.skip(0) =~= s);
        0
    }
}

} // verus!
