//! The background grid: the multiples of a step that lie strictly inside a
//! window, found from the window's bounds.
use vstd::prelude::*;
use vstd::arithmetic::div_mod::{
    lemma_fundamental_div_mod, lemma_fundamental_div_mod_converse, lemma_mod_bound,
};

verus! {

/// Window bounds and grid steps are at most this far from the origin, so
/// that every position computed from them fits an `i64`.
pub const COORD_LIMIT: i64 = 1_000_000_000_000;

/// The index of the first multiple of `step` strictly above `lo`.
pub open spec fn first_index(lo: int, step: int) -> int {
    lo / step + 1
}

/// The index of the last multiple of `step` strictly below `hi`.
pub open spec fn last_index(hi: int, step: int) -> int {
    (hi - 1) / step
}

pub open spec fn grid_count(lo: int, hi: int, step: int) -> nat {
    if last_index(hi, step) >= first_index(lo, step) {
        (last_index(hi, step) - first_index(lo, step) + 1) as nat
    } else {
        0
    }
}

/// The multiples of `step` strictly between `lo` and `hi`, in increasing
/// order.
pub open spec fn grid_multiples(lo: int, hi: int, step: int) -> Seq<int> {
    Seq::new(grid_count(lo, hi, step), |i: int| (first_index(lo, step) + i) * step)
}

/// The bounds under which grid positions are computed.
pub open spec fn grid_args_ok(lo: int, hi: int, step: int) -> bool {
    &&& 0 < step <= COORD_LIMIT
    &&& -COORD_LIMIT <= lo <= COORD_LIMIT
    &&& -COORD_LIMIT <= hi <= COORD_LIMIT
}

proof fn lemma_floor_bounds(x: int, d: int)
    requires
        0 < d,
    ensures
        (x / d) * d <= x < (x / d + 1) * d,
{
    lemma_fundamental_div_mod(x, d);
    lemma_mod_bound(x, d);
    assert((x / d + 1) * d == (x / d) * d + d) by (nonlinear_arith);
    assert((x / d) * d == d * (x / d)) by (nonlinear_arith);
}

/// The index of the first multiple of `step` strictly above `lo`.
fn first_multiple_index(lo: i64, step: i64) -> (k: i64)
    requires
        grid_args_ok(lo as int, 0, step as int),
    ensures
        k == first_index(lo as int, step as int),
        (k - 1) * step <= lo < k * step,
        k * step <= lo + step,
{
    let k: i64;
    if lo >= 0 {
        let q: u64 = (lo as u64) / (step as u64);
        proof {
            lemma_floor_bounds(lo as int, step as int);
            assert(q <= lo) by (nonlinear_arith)
                requires
                    q as int * step as int <= lo,
                    0 < step,
                    0 <= q,
            ;
        }
        k = q as i64 + 1;
    } else {
        let a: u64 = (-lo) as u64;
        let q: u64 = (a - 1) / (step as u64);
        proof {
            let qi = q as int;
            let r = (a as int - 1) % (step as int);
            lemma_fundamental_div_mod(a as int - 1, step as int);
            lemma_mod_bound(a as int - 1, step as int);
            assert(step * qi == qi * step) by (nonlinear_arith);
            assert(lo as int == (-qi - 1) * step + (step - r - 1)) by (nonlinear_arith)
                requires
                    a - 1 == step * qi + r,
                    lo == -a,
                    step * qi == qi * step,
            ;
            lemma_fundamental_div_mod_converse(lo as int, step as int, -qi - 1, step - r - 1);
            assert(qi <= a) by (nonlinear_arith)
                requires
                    qi * step <= a - 1,
                    0 < step,
                    0 <= qi,
            ;
        }
        k = -(q as i64);
    }
    proof {
        lemma_floor_bounds(lo as int, step as int);
        assert(k * step == (k - 1) * step + step) by (nonlinear_arith);
    }
    k
}

/// Every multiple of `step` strictly between `lo` and `hi`, in increasing
/// order, found by walking up from the first one above `lo` until `hi` is
/// reached.
pub fn grid_positions(lo: i64, hi: i64, step: i64) -> (r: Vec<i64>)
    requires
        grid_args_ok(lo as int, hi as int, step as int),
    ensures
        r@.len() == grid_multiples(lo as int, hi as int, step as int).len(),
        forall|i: int|
            0 <= i < r@.len() ==> #[trigger] r@[i] == grid_multiples(
                lo as int,
                hi as int,
                step as int,
            )[i],
{
    let k = first_multiple_index(lo, step);
    let mut x: i64 = k * step;
    let mut r: Vec<i64> = Vec::new();
    while x < hi
        invariant
            grid_args_ok(lo as int, hi as int, step as int),
            x == (k + r@.len()) * step,
            r@.len() == 0 ==> x <= lo + step,
            r@.len() > 0 ==> x - step < hi,
            forall|i: int| 0 <= i < r@.len() ==> r@[i] == (k + i) * step,
        decreases hi + step - x,
    {
        r.push(x);
        proof {
            assert(x + step == (k + r@.len()) * step) by (nonlinear_arith)
                requires
                    x == (k + r@.len() - 1) * step,
            ;
        }
        x = x + step;
    }
    proof {
        let n = r@.len() as int;
        let m = last_index(hi as int, step as int);
        lemma_floor_bounds(hi as int - 1, step as int);
        assert(k + n > m) by (nonlinear_arith)
            requires
                (k + n) * step >= hi,
                m * step <= hi - 1,
                0 < step,
        ;
        if n > 0 {
            assert((k + n - 1) * step == x - step) by (nonlinear_arith)
                requires
                    x == (k + n) * step,
            ;
            assert(k + n - 1 <= m) by (nonlinear_arith)
                requires
                    (k + n - 1) * step < hi,
                    hi - 1 < (m + 1) * step,
                    0 < step,
            ;
        }
    }
    r
}

/// The grid positions are exactly the multiples of the step strictly inside
/// the bounds, each once, in increasing order, each the step after the one
/// before.
pub proof fn lemma_grid_multiples_exact(lo: int, hi: int, step: int)
    requires
        0 < step,
    ensures
        forall|i: int|
            0 <= i < grid_multiples(lo, hi, step).len() ==> {
                let x = #[trigger] grid_multiples(lo, hi, step)[i];
                lo < x < hi && x % step == 0
            },
        forall|i: int|
            0 < i < grid_multiples(lo, hi, step).len() ==> #[trigger] grid_multiples(
                lo,
                hi,
                step,
            )[i] - grid_multiples(lo, hi, step)[i - 1] == step,
        forall|x: int|
            lo < x < hi && x % step == 0 ==> #[trigger] grid_multiples(lo, hi, step).contains(x),
{
    let g = grid_multiples(lo, hi, step);
    let k = first_index(lo, step);
    let m = last_index(hi, step);
    lemma_floor_bounds(lo, step);
    lemma_floor_bounds(hi - 1, step);
    assert forall|i: int| 0 <= i < g.len() implies {
        let x = #[trigger] g[i];
        lo < x < hi && x % step == 0
    } by {
        let x = g[i];
        assert(k * step <= (k + i) * step) by (nonlinear_arith)
            requires
                0 <= i,
                0 < step,
        ;
        assert((k + i) * step <= m * step) by (nonlinear_arith)
            requires
                k + i <= m,
                0 < step,
        ;
        lemma_fundamental_div_mod_converse(x, step, k + i, 0);
    }
    assert forall|i: int| 0 < i < g.len() implies #[trigger] g[i] - g[i - 1] == step by {
        assert((k + i) * step - (k + i - 1) * step == step) by (nonlinear_arith);
    }
    assert forall|x: int| lo < x < hi && x % step == 0 implies #[trigger] g.contains(x) by {
        let j = x / step;
        lemma_fundamental_div_mod(x, step);
        assert(x == j * step) by (nonlinear_arith)
            requires
                x == step * j + 0,
        ;
        assert(k <= j) by (nonlinear_arith)
            requires
                j * step > lo,
                (k - 1) * step <= lo,
                0 < step,
        ;
        assert(j <= m) by (nonlinear_arith)
            requires
                j * step <= hi - 1,
                hi - 1 < (m + 1) * step,
                0 < step,
        ;
        assert(g[j - k] == x);
    }
}

} // verus!
