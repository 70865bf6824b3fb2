//! Reachability and the law of cosines for a two-link arm, in exact integers.
use vstd::prelude::*;

verus! {

/// Farthest distance from the base that the end effector can reach.
pub open spec fn max_reach(l1: int, l2: int) -> int {
    l1 + l2
}

/// Closest distance from the base that the end effector can reach.
pub open spec fn min_reach(l1: int, l2: int) -> int {
    if l1 >= l2 { l1 - l2 } else { l2 - l1 }
}

/// The requested distance moved to the nearest point of the reachable annulus.
pub open spec fn clamped(l1: int, l2: int, requested: int) -> int {
    if requested > max_reach(l1, l2) {
        max_reach(l1, l2)
    } else if requested < min_reach(l1, l2) {
        min_reach(l1, l2)
    } else {
        requested
    }
}

/// Brings a requested base-to-end distance into the reachable annulus
/// `[|l1 - l2|, l1 + l2]`.
pub fn reach_clamp(first: u32, second: u32, requested: u64) -> (d: u64)
    ensures
        d == clamped(first as int, second as int, requested as int),
        min_reach(first as int, second as int) <= d <= max_reach(first as int, second as int),
{
    let max: u64 = first as u64 + second as u64;
    let min: u64 = if first >= second { (first - second) as u64 } else { (second - first) as u64 };
    if requested > max {
        max
    } else if requested < min {
        min
    } else {
        requested
    }
}

/// Numerator of the cosine of the base angle, by the law of cosines:
/// `l1² + d² − l2²`. A fully folded arm (`d == 0`) is given the ratio `1 / 1`.
pub open spec fn ratio_num(l1: int, l2: int, d: int) -> int {
    if d == 0 { 1 } else { l1 * l1 + d * d - l2 * l2 }
}

/// Denominator of the cosine of the base angle: `2·l1·d`, or `1` when `d == 0`.
pub open spec fn ratio_den(l1: int, l2: int, d: int) -> int {
    if d == 0 { 1 } else { 2 * l1 * d }
}

/// `d` lies in the reachable annulus of an arm with segments `l1` and `l2`.
pub open spec fn reachable(l1: int, l2: int, d: int) -> bool {
    min_reach(l1, l2) <= d <= max_reach(l1, l2)
}

/// The cosine of the angle at the base, between the first segment and the
/// line from the base to the end effector, as an exact fraction.
#[derive(Debug, Clone, Copy, PartialEq, Eq, Structural)]
pub struct CosineRatio {
    pub numerator: i128,
    pub denominator: i128,
}

/// Inside the reachable annulus the law-of-cosines ratio lies in `[-1, 1]`
/// and its denominator is positive: the arc cosine is always defined.
pub proof fn lemma_ratio_in_range(l1: int, l2: int, d: int)
    requires
        l1 > 0,
        l2 > 0,
        reachable(l1, l2, d),
    ensures
        ratio_den(l1, l2, d) > 0,
        -ratio_den(l1, l2, d) <= ratio_num(l1, l2, d) <= ratio_den(l1, l2, d),
{
    if d != 0 {
        let a = l1 - d;
        let b = l1 + d;
        assert(-l2 <= a <= l2);
        assert(l2 <= b);
        assert(a * a <= l2 * l2) by (nonlinear_arith)
            requires
                -l2 <= a <= l2,
                l2 > 0,
        ;
        assert(l2 * l2 <= b * b) by (nonlinear_arith)
            requires
                0 < l2 <= b,
        ;
        assert(a * a == l1 * l1 + d * d - 2 * l1 * d) by (nonlinear_arith)
            requires
                a == l1 - d,
        ;
        assert(b * b == l1 * l1 + d * d + 2 * l1 * d) by (nonlinear_arith)
            requires
                b == l1 + d,
        ;
        assert(2 * l1 * d > 0) by (nonlinear_arith)
            requires
                l1 > 0,
                d > 0,
        ;
    }
}

/// The second segment keeps its length: with `cos θ = num / den`, the elbow
/// at `l1` along `φ + θ` and the end effector at `d` along `φ` are
/// `l1² + d² − 2·l1·d·cos θ = l2²` apart, squared. Stated without division:
/// `(l1² + d²)·den − 2·l1·d·num == l2²·den`.
pub proof fn lemma_second_segment_length(l1: int, l2: int, d: int)
    requires
        l1 > 0,
        l2 > 0,
        reachable(l1, l2, d),
    ensures
        (l1 * l1 + d * d) * ratio_den(l1, l2, d) - 2 * l1 * d * ratio_num(l1, l2, d)
            == l2 * l2 * ratio_den(l1, l2, d),
{
    if d == 0 {
        assert(l1 == l2);
        assert((l1 * l1 + d * d) * 1 - 2 * l1 * d * 1 == l2 * l2 * 1) by (nonlinear_arith)
            requires
                d == 0,
                l1 == l2,
        ;
    } else {
        let n = l1 * l1 + d * d - l2 * l2;
        let m = 2 * l1 * d;
        assert((l1 * l1 + d * d) * m - m * n == l2 * l2 * m) by (nonlinear_arith)
            requires
                n == l1 * l1 + d * d - l2 * l2,
        ;
        assert(2 * l1 * d * n == m * n);
    }
}

/// Computes the law-of-cosines ratio for a reachable distance `d`.
pub fn cosine_ratio(first: u32, second: u32, d: u64) -> (r: CosineRatio)
    requires
        first > 0,
        second > 0,
        reachable(first as int, second as int, d as int),
    ensures
        r.numerator == ratio_num(first as int, second as int, d as int),
        r.denominator == ratio_den(first as int, second as int, d as int),
        r.denominator > 0,
        -r.denominator <= r.numerator <= r.denominator,
{
    proof {
        lemma_ratio_in_range(first as int, second as int, d as int);
    }
    if d == 0 {
        CosineRatio { numerator: 1, denominator: 1 }
    } else {
        let l1 = first as i128;
        let l2 = second as i128;
        let dd = d as i128;
        assert(l1 * l1 <= 0x1_0000_0000 * 0x1_0000_0000) by (nonlinear_arith)
            requires
                0 < l1 < 0x1_0000_0000,
        ;
        assert(l2 * l2 <= 0x1_0000_0000 * 0x1_0000_0000) by (nonlinear_arith)
            requires
                0 < l2 < 0x1_0000_0000,
        ;
        assert(dd * dd <= 0x2_0000_0000 * 0x2_0000_0000) by (nonlinear_arith)
            requires
                0 < dd <= 0x2_0000_0000,
        ;
        assert(2 * l1 * dd <= 2 * 0x1_0000_0000 * 0x2_0000_0000) by (nonlinear_arith)
            requires
                0 < l1 < 0x1_0000_0000,
                0 < dd <= 0x2_0000_0000,
        ;
        CosineRatio { numerator: l1 * l1 + dd * dd - l2 * l2, denominator: 2 * l1 * dd }
    }
}

/// A two-link arm: its segment lengths and the base-to-end distance.
///
/// Before a solve `first_to_last_dist` is the distance that was asked for;
/// after it, the distance that was actually used.
#[derive(Debug, Clone, Copy, PartialEq, Eq, Structural)]
pub struct AnalyticTwoLink {
    pub first_arm_length: u32,
    pub second_arm_length: u32,
    pub first_to_last_dist: u64,
}

impl AnalyticTwoLink {
    /// Both segments have a positive length.
    pub open spec fn wf(self) -> bool {
        self.first_arm_length > 0 && self.second_arm_length > 0
    }

    /// The distance that a solve of this arm uses.
    pub open spec fn solved_dist(self) -> int {
        clamped(self.first_arm_length as int, self.second_arm_length as int, self.first_to_last_dist as int)
    }

    /// A fully extended arm with the given segment lengths.
    pub fn new(f_len: u32, s_len: u32) -> (r: AnalyticTwoLink)
        requires
            f_len > 0,
            s_len > 0,
        ensures
            r.wf(),
            r.first_arm_length == f_len,
            r.second_arm_length == s_len,
            r.first_to_last_dist == f_len + s_len,
    {
        AnalyticTwoLink {
            first_arm_length: f_len,
            second_arm_length: s_len,
            first_to_last_dist: f_len as u64 + s_len as u64,
        }
    }

    /// Clamps the distance into the reachable annulus, stores it, and returns
    /// the cosine of the base angle for it. The elbow then lies at
    /// `first_arm_length` along `angle + acos(ratio)` and the end effector at
    /// `first_to_last_dist` along `angle`.
    pub fn two_link_solver(&mut self) -> (r: CosineRatio)
        requires
            old(self).wf(),
        ensures
            final(self).first_arm_length == old(self).first_arm_length,
            final(self).second_arm_length == old(self).second_arm_length,
            final(self).first_to_last_dist == old(self).solved_dist(),
            r.numerator == ratio_num(
                final(self).first_arm_length as int,
                final(self).second_arm_length as int,
                final(self).first_to_last_dist as int,
            ),
            r.denominator == ratio_den(
                final(self).first_arm_length as int,
                final(self).second_arm_length as int,
                final(self).first_to_last_dist as int,
            ),
            r.denominator > 0,
            -r.denominator <= r.numerator <= r.denominator,
    {
        let d = reach_clamp(self.first_arm_length, self.second_arm_length, self.first_to_last_dist);
        self.first_to_last_dist = d;
        cosine_ratio(self.first_arm_length, self.second_arm_length, d)
    }
}

/// Solving an arm a second time changes nothing: the distance that the first
/// solve stored is already reachable, so the second solve keeps it and gives
/// the same ratio.
pub proof fn lemma_solve_idempotent(a: AnalyticTwoLink)
    requires
        a.wf(),
    ensures
        (AnalyticTwoLink { first_to_last_dist: a.solved_dist() as u64, ..a }).solved_dist()
            == a.solved_dist(),
        0 <= a.solved_dist() <= u64::MAX,
{
}

/// The inverse-kinematics solvers that an arm can be driven by.
#[derive(Debug, Clone, Copy, PartialEq, Eq, Structural)]
pub enum Solver {
    Analytic(AnalyticTwoLink),
}

impl Solver {
    /// The arm that this solver drives is well formed.
    pub open spec fn wf(self) -> bool {
        match self {
            Solver::Analytic(a) => a.wf(),
        }
    }

    /// Runs the solver once on its arm.
    pub fn solve(&mut self) -> (r: CosineRatio)
        requires
            old(self).wf(),
        ensures
            match (*old(self), *final(self)) {
                (Solver::Analytic(a), Solver::Analytic(b)) => {
                    &&& b.first_arm_length == a.first_arm_length
                    &&& b.second_arm_length == a.second_arm_length
                    &&& b.first_to_last_dist == a.solved_dist()
                    &&& r.numerator == ratio_num(
                        b.first_arm_length as int,
                        b.second_arm_length as int,
                        b.first_to_last_dist as int,
                    )
                    &&& r.denominator == ratio_den(
                        b.first_arm_length as int,
                        b.second_arm_length as int,
                        b.first_to_last_dist as int,
                    )
                },
            },
    {
        match self {
            Solver::Analytic(a) => a.two_link_solver(),
        }
    }
}

} // verus!
