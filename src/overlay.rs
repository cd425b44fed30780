//! Derivation of the scoreboard overlay from a war's per-race differentials.
use vstd::prelude::*;

verus! {

/// Points that one race hands out to each team before the differential.
pub const RACE_POINTS: i32 = 41;

/// Races planned for one war.
pub const PLANNED_RACES: i32 = 12;

/// Extra races of the carry-over band once the plan is exceeded.
pub const CARRY_RACES: i32 = 4;

/// What the overlay reads of a stored war record.
#[derive(Debug, PartialEq, Eq)]
pub struct WarRecord {
    pub tag: String,
    pub enemy_tag: String,
    /// Per-race score differentials, home perspective, oldest first.
    pub diff: Vec<i32>,
}

/// The display state derived from a war record.
#[derive(Debug, PartialEq, Eq)]
pub struct OverlayData {
    pub tag: String,
    pub enemy_tag: String,
    pub score: i32,
    pub enemy_score: i32,
    pub diff: i32,
    pub last_diff: Option<i32>,
    pub race_left: i32,
}

/// Sum of a differential sequence.
pub open spec fn sum_of(s: Seq<i32>) -> int
    decreases s.len(),
{
    if s.len() == 0 {
        0
    } else {
        sum_of(s.drop_last()) + s.last()
    }
}

/// Integer halving that truncates toward zero.
pub open spec fn half_toward_zero(t: int) -> int {
    if t >= 0 {
        t / 2
    } else {
        -((-t) / 2)
    }
}

pub open spec fn home_score_of(s: Seq<i32>) -> int {
    RACE_POINTS * s.len() + half_toward_zero(sum_of(s))
}

pub open spec fn enemy_score_of(s: Seq<i32>) -> int {
    RACE_POINTS * s.len() - half_toward_zero(sum_of(s))
}

/// Races left after `n` have been recorded, with the carry-over band.
pub open spec fn races_left_of(n: int) -> int {
    let r = PLANNED_RACES - n;
    if r >= 0 {
        r
    } else if r > -CARRY_RACES {
        r + CARRY_RACES
    } else {
        0
    }
}

pub open spec fn last_diff_of(s: Seq<i32>) -> Option<i32> {
    if s.len() == 0 {
        None
    } else {
        Some(s.last())
    }
}

pub open spec fn fits_i32(x: int) -> bool {
    i32::MIN <= x <= i32::MAX
}

/// The derived numbers of a sequence can be held by the overlay's fields.
pub open spec fn derivable(s: Seq<i32>) -> bool {
    &&& fits_i32(sum_of(s))
    &&& fits_i32(home_score_of(s))
    &&& fits_i32(enemy_score_of(s))
}

/// `o` is exactly the overlay that `w` derives to.
pub open spec fn derived_from(o: OverlayData, w: WarRecord) -> bool {
    &&& o.tag@ == w.tag@
    &&& o.enemy_tag@ == w.enemy_tag@
    &&& o.score == home_score_of(w.diff@)
    &&& o.enemy_score == enemy_score_of(w.diff@)
    &&& o.diff == sum_of(w.diff@)
    &&& o.last_diff == last_diff_of(w.diff@)
    &&& o.race_left == races_left_of(w.diff@.len() as int)
}

proof fn lemma_sum_prefix_step(s: Seq<i32>, i: int)
    requires
        0 <= i < s.len(),
    ensures
        sum_of(s.subrange(0, i + 1)) == sum_of(s.subrange(0, i)) + s[i],
{
    assert(s.subrange(0, i + 1).drop_last() =~= s.subrange(0, i));
}

/// The gap between the two scores is the total differential, whenever that
/// total is even (halving an odd total drops its remainder on both sides).
pub proof fn lemma_score_gap(s: Seq<i32>)
    requires
        sum_of(s) % 2 == 0,
    ensures
        home_score_of(s) - enemy_score_of(s) == sum_of(s),
{
}

/// The two scores together are the race points of both teams over all
/// recorded races.
pub proof fn lemma_score_total(s: Seq<i32>)
    ensures
        home_score_of(s) + enemy_score_of(s) == 2 * (RACE_POINTS as int) * (s.len() as int),
{
    let n = s.len() as int;
    let h = half_toward_zero(sum_of(s));
    assert(home_score_of(s) == 41 * n + h);
    assert(enemy_score_of(s) == 41 * n - h);
    assert(2 * (RACE_POINTS as int) * n == 82 * n) by (nonlinear_arith);
}

/// Races left is never negative and never above the planned count.
pub proof fn lemma_races_left_bounded(n: int)
    requires
        n >= 0,
    ensures
        0 <= races_left_of(n) <= PLANNED_RACES,
{
}

/// Races left after `n` races have been recorded.
pub fn races_left(n: usize) -> (r: i32)
    ensures
        r == races_left_of(n as int),
        0 <= r <= PLANNED_RACES,
{
    if n <= PLANNED_RACES as usize {
        PLANNED_RACES - n as i32
    } else if n < (PLANNED_RACES + CARRY_RACES) as usize {
        PLANNED_RACES + CARRY_RACES - n as i32
    } else {
        0
    }
}

fn half_toward_zero_exec(t: i128) -> (r: i128)
    requires
        t > i128::MIN,
    ensures
        r == half_toward_zero(t as int),
{
    if t >= 0 {
        t / 2
    } else {
        -((-t) / 2)
    }
}

/// Derives the overlay of a war record.
///
/// Gives `None` exactly when a derived number does not fit an `i32`; a
/// record whose numbers cannot be shown is treated as malformed.
pub fn derive_overlay(war: &WarRecord) -> (r: Option<OverlayData>)
    ensures
        r.is_some() == derivable(war.diff@),
        r matches Some(o) ==> derived_from(o, *war),
{
    let s = &war.diff;
    let n: usize = s.len();
    let mut total: i128 = 0;
    let mut i: usize = 0;
    while i < n
        invariant
            n == s@.len(),
            0 <= i <= n,
            total == sum_of(s@.subrange(0, i as int)),
            -(i as int) * 0x8000_0000 <= total <= (i as int) * 0x8000_0000,
            n <= usize::MAX,
        decreases n - i,
    {
        proof {
            lemma_sum_prefix_step(s@, i as int);
        }
        total = total + s[i] as i128;
        i = i + 1;
    }
    assert(s@.subrange(0, n as int) =~= s@);
    assert((n as int) * 0x8000_0000 <= 0x1_0000_0000_0000_0000 * 0x8000_0000) by (nonlinear_arith)
        requires n <= usize::MAX;
    let half = half_toward_zero_exec(total);
    let base: i128 = (n as i128) * (RACE_POINTS as i128);
    let home: i128 = base + half;
    let enemy: i128 = base - half;
    if total < i32::MIN as i128 || total > i32::MAX as i128 || home < i32::MIN as i128
        || home > i32::MAX as i128 || enemy < i32::MIN as i128 || enemy > i32::MAX as i128 {
        return None;
    }
    let last_diff = if n == 0 {
        None
    } else {
        Some(s[n - 1])
    };
    let race_left = races_left(n);
    Some(
        OverlayData {
            tag: war.tag.clone(),
            enemy_tag: war.enemy_tag.clone(),
            score: home as i32,
            enemy_score: enemy as i32,
            diff: total as i32,
            last_diff,
            race_left,
        },
    )
}

/// The overlay of what the store returned: `None` when it had no record, or
/// when the record cannot be derived.
pub fn overlay_of(fetched: Option<WarRecord>) -> (r: Option<OverlayData>)
    ensures
        fetched is None ==> r is None,
        fetched matches Some(w) ==> (r.is_some() == derivable(w.diff@) && (r matches Some(o)
            ==> derived_from(o, w))),
{
    match fetched {
        Some(w) => derive_overlay(&w),
        None => None,
    }
}

/// Style class of a total differential on the overlay page.
pub open spec fn diff_class_of(diff: i32) -> Seq<char> {
    if diff > 0 {
        "plus"@
    } else if diff < 0 {
        "minus"@
    } else {
        ""@
    }
}

/// Style class of a total differential: `plus` when the home team leads,
/// `minus` when it trails, empty when level.
pub fn diff_class(diff: i32) -> (r: &'static str)
    ensures
        r@ == diff_class_of(diff),
{
    if diff > 0 {
        "plus"
    } else if diff < 0 {
        "minus"
    } else {
        ""
    }
}

} // verus!
