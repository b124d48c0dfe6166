use vstd::arithmetic::div_mod::lemma_fundamental_div_mod_converse;
use vstd::prelude::*;

verus! {

/// Number of half-step patterns in one electrical cycle.
pub const PATTERNS_PER_CYCLE: usize = 8;

/// Number of coil inputs (`in_1` to `in_4`).
pub const COILS: usize = 4;

/// The forward half-step table. Pattern `i` gives the level of the coils
/// `in_1`, `in_2`, `in_3`, `in_4`, in that order.
pub open spec fn forward_pattern(i: int) -> Seq<bool> {
    if i == 0 {
        seq![false, false, false, true]
    } else if i == 1 {
        seq![false, false, true, true]
    } else if i == 2 {
        seq![false, false, true, false]
    } else if i == 3 {
        seq![false, true, true, false]
    } else if i == 4 {
        seq![false, true, false, false]
    } else if i == 5 {
        seq![true, true, false, false]
    } else if i == 6 {
        seq![true, false, false, false]
    } else {
        seq![true, false, false, true]
    }
}

/// Pattern `i` of the table for one direction. The reverse table is the
/// forward table read from its end, so the two can never disagree.
pub open spec fn pattern_at(forward: bool, i: int) -> Seq<bool> {
    if forward {
        forward_pattern(i)
    } else {
        forward_pattern(7 - i)
    }
}

/// The patterns put on the coils by `count` traversals of the table in one
/// direction, in the order they are applied.
pub open spec fn traversal(count: nat, forward: bool) -> Seq<Seq<bool>> {
    Seq::new(count * 8, |k: int| pattern_at(forward, k % 8))
}

/// How many of the four coils differ between two patterns.
pub open spec fn changed_coils(p: Seq<bool>, q: Seq<bool>) -> int {
    (if p[0] != q[0] { 1int } else { 0 }) + (if p[1] != q[1] { 1int } else { 0 }) + (if p[2]
        != q[2] {
        1int
    } else {
        0
    }) + (if p[3] != q[3] { 1int } else { 0 })
}

/// The forward half-step pattern at `index`.
pub fn half_step(index: usize) -> (r: [bool; 4])
    requires
        index < PATTERNS_PER_CYCLE,
    ensures
        r@ == forward_pattern(index as int),
{
    let r: [bool; 4] = match index {
        0 => [false, false, false, true],
        1 => [false, false, true, true],
        2 => [false, false, true, false],
        3 => [false, true, true, false],
        4 => [false, true, false, false],
        5 => [true, true, false, false],
        6 => [true, false, false, false],
        _ => [true, false, false, true],
    };
    assert(r@ =~= forward_pattern(index as int));
    r
}

/// The level of coil `coil` (0 for `in_1`) in pattern `index` of the table
/// for the given direction.
pub fn coil_level(forward: bool, index: usize, coil: usize) -> (r: bool)
    requires
        index < PATTERNS_PER_CYCLE,
        coil < COILS,
    ensures
        r == pattern_at(forward, index as int)[coil as int],
{
    let pattern = if forward {
        half_step(index)
    } else {
        half_step(7 - index)
    };
    pattern[coil]
}

proof fn lemma_mirror_mod(count: int, k: int)
    requires
        0 <= k < count * 8,
    ensures
        (count * 8 - 1 - k) % 8 == 7 - k % 8,
{
    let q = k / 8;
    let r = k % 8;
    lemma_fundamental_div_mod_converse(k, 8, q, r);
    assert(count * 8 - 1 - k == (count - q - 1) * 8 + (7 - r)) by (nonlinear_arith)
        requires
            k == q * 8 + r,
    ;
    lemma_fundamental_div_mod_converse(count * 8 - 1 - k, 8, count - q - 1, 7 - r);
}

proof fn lemma_next_mod(k: int)
    requires
        0 <= k,
    ensures
        (k + 1) % 8 == if k % 8 == 7 {
            0
        } else {
            k % 8 + 1
        },
{
    let q = k / 8;
    let r = k % 8;
    lemma_fundamental_div_mod_converse(k, 8, q, r);
    if r == 7 {
        lemma_fundamental_div_mod_converse(k + 1, 8, q + 1, 0);
    } else {
        lemma_fundamental_div_mod_converse(k + 1, 8, q, r + 1);
    }
}

/// Stepping in reverse retraces the forward walk pattern for pattern: the
/// patterns of `count` reverse cycles are those of `count` forward cycles in
/// the opposite order, so equal counts forward then reverse leave no net
/// motion.
pub proof fn lemma_reverse_retraces_forward(count: nat)
    ensures
        traversal(count, false) == traversal(count, true).reverse(),
{
    let rev = traversal(count, false);
    let fwd = traversal(count, true);
    assert forall|k: int| 0 <= k < rev.len() implies rev[k] == fwd.reverse()[k] by {
        lemma_mirror_mod(count as int, k);
        assert(0 <= k % 8 < 8);
    }
    assert(rev =~= fwd.reverse());
}

/// In either direction each pattern differs from the one before it in
/// exactly one coil: no pattern of the cycle is skipped or repeated.
pub proof fn lemma_traversal_is_half_steps(count: nat, forward: bool)
    ensures
        forall|k: int|
            0 <= k < traversal(count, forward).len() - 1 ==> #[trigger] changed_coils(
                traversal(count, forward)[k],
                traversal(count, forward)[k + 1],
            ) == 1,
{
    let t = traversal(count, forward);
    assert forall|k: int| 0 <= k < t.len() - 1 implies #[trigger] changed_coils(t[k], t[k + 1])
        == 1 by {
        lemma_next_mod(k);
        assert(0 <= k % 8 < 8);
    }
}

} // verus!
