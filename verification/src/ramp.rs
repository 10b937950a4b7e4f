//! The brightness levels of the ramp.
//!
//! Step `i` of a ramp of `steps` steps commands
//! `(steps - i - 1) * (full - min) / steps`, with the quotient cut off, not
//! rounded. The floor is not added back: the last step always commands 0,
//! whatever `min` is.

use crate::config::{FadeConfig, FadeParams};
use vstd::prelude::*;

verus! {

/// Level commanded by step `i` (counted from 0) of the ramp.
pub open spec fn level_at(p: FadeParams, i: int) -> int {
    ((p.steps - i - 1) * p.span()) / p.steps
}

/// The levels of the whole ramp, in the order they are commanded.
pub open spec fn ramp_levels(p: FadeParams) -> Seq<int> {
    Seq::new(p.steps as nat, |i: int| level_at(p, i))
}

/// A step's level lies between 0 and the distance the ramp covers, and stays
/// strictly below that distance unless the distance is 0.
pub proof fn lemma_level_bounds(p: FadeParams, i: int)
    requires
        p.valid(),
        0 <= i < p.steps,
    ensures
        0 <= level_at(p, i) <= p.span(),
        p.span() > 0 ==> level_at(p, i) < p.span(),
        level_at(p, i) <= p.full,
{
    let n = p.steps;
    let k = n - i - 1;
    let s = p.span();
    assert(0 <= (k * s) / n <= s && (s > 0 ==> (k * s) / n < s)) by (nonlinear_arith)
        requires
            0 <= k < n,
            0 <= s,
    ;
}

/// Later steps never command a brighter level than earlier ones.
pub proof fn lemma_level_monotone(p: FadeParams, i: int, j: int)
    requires
        p.valid(),
        0 <= i <= j < p.steps,
    ensures
        level_at(p, j) <= level_at(p, i),
{
    let n = p.steps;
    let a = n - i - 1;
    let b = n - j - 1;
    let s = p.span();
    assert((b * s) / n <= (a * s) / n) by (nonlinear_arith)
        requires
            0 <= b <= a,
            0 <= s,
            0 < n,
    ;
}

/// The last step of every ramp commands 0.
pub proof fn lemma_last_level_is_zero(p: FadeParams)
    requires
        p.valid(),
    ensures
        level_at(p, p.steps - 1) == 0,
{
    let n = p.steps;
    let s = p.span();
    assert((0 * s) / n == 0) by (nonlinear_arith)
        requires
            0 < n,
    ;
}

/// Where the number of steps divides the distance evenly, every step lowers
/// the level by the same amount, `span / steps`.
pub proof fn lemma_even_ramp(p: FadeParams, i: int)
    requires
        p.valid(),
        0 <= i < p.steps,
        p.span() % p.steps == 0,
    ensures
        level_at(p, i) == (p.steps - i - 1) * (p.span() / p.steps),
{
    let n = p.steps;
    let k = n - i - 1;
    let s = p.span();
    assert((k * s) / n == k * (s / n)) by (nonlinear_arith)
        requires
            0 < n,
            0 <= k,
            0 <= s,
            s % n == 0,
    ;
}

/// With the standard parameters (full 100, floor 0, 50 steps) step `i`
/// commands `(49 - i) * 2`: 98, 96, ..., 2, 0.
pub proof fn lemma_standard_levels(i: int)
    requires
        0 <= i < 50,
    ensures
        level_at(FadeParams::standard(), i) == (49 - i) * 2,
{
    let p = FadeParams::standard();
    assert(p.span() % p.steps == 0);
    lemma_even_ramp(p, i);
}

impl FadeConfig {
    /// Level commanded by step `i` of the ramp.
    pub(crate) fn level_of_step(&self, i: u32) -> (l: i32)
        requires
            i < self@.steps,
        ensures
            l == level_at(self@, i as int),
    {
        let steps: u32 = self.steps();
        let remaining: u64 = (steps - i - 1) as u64;
        let span: u64 = (self.full() - self.min()) as u64;
        proof {
            lemma_level_bounds(self@, i as int);
            assert(remaining * span <= 0xffff_ffff * 0x7fff_ffff) by (nonlinear_arith)
                requires
                    0 <= remaining <= 0xffff_ffff,
                    0 <= span <= 0x7fff_ffff,
            ;
        }
        let level: u64 = (remaining * span) / (steps as u64);
        level as i32
    }

    /// Level commanded by step `i` of the ramp, or `None` where the ramp has no
    /// such step.
    pub fn level(&self, i: u32) -> (r: Option<i32>)
        ensures
            r.is_some() <==> i < self@.steps,
            r matches Some(l) ==> l == level_at(self@, i as int),
    {
        if i < self.steps() {
            Some(self.level_of_step(i))
        } else {
            None
        }
    }

    /// The levels of the whole ramp, in the order they are commanded.
    pub fn ramp(&self) -> (r: Vec<i32>)
        ensures
            r@.len() == self@.steps,
            forall|i: int| 0 <= i < r@.len() ==> r@[i] == #[trigger] level_at(self@, i),
    {
        let steps: u32 = self.steps();
        let mut levels: Vec<i32> = Vec::new();
        let mut i: u32 = 0;
        while i < steps
            invariant
                steps == self@.steps,
                i <= steps,
                levels@.len() == i,
                forall|k: int| 0 <= k < i ==> levels@[k] == #[trigger] level_at(self@, k),
            decreases steps - i,
        {
            levels.push(self.level_of_step(i));
            i = i + 1;
        }
        levels
    }
}

} // verus!
