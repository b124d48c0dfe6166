use vstd::arithmetic::div_mod::lemma_fundamental_div_mod_converse;
use vstd::prelude::*;

verus! {

/// Table traversals issued at full power. A deliberate hardware limit: the
/// driver has no variable speed, so power sets only how far the motor turns,
/// never how fast.
pub const FULL_POWER_STEPS: u32 = 512;

/// The magnitude of a signed number.
pub open spec fn magnitude(n: int) -> int {
    if n < 0 {
        -n
    } else {
        n
    }
}

/// The number of traversals for power `num / den`: the nearest integer to
/// `|num / den| * 512`, with halves rounded up.
pub open spec fn rounded_steps(num: int, den: int) -> int {
    (magnitude(num) * 1024 + den) / (2 * den)
}

/// Converts a power of `num / den`, between -1 and 1, into the number of
/// table traversals to drive.
pub fn power_steps(num: i64, den: u64) -> (r: u32)
    requires
        den > 0,
        magnitude(num as int) <= den,
    ensures
        r as int == rounded_steps(num as int, den as int),
        r <= FULL_POWER_STEPS,
{
    let mag: u64 = if num < 0 {
        ((-(num + 1)) as u64) + 1
    } else {
        num as u64
    };
    let wide: u128 = (mag as u128) * 1024 + (den as u128);
    let divisor: u128 = 2 * (den as u128);
    let q: u128 = wide / divisor;
    proof {
        let w = wide as int;
        let v = divisor as int;
        let qq = q as int;
        vstd::arithmetic::div_mod::lemma_fundamental_div_mod(w, v);
        assert(0 <= w % v);
        assert(qq <= 512) by (nonlinear_arith)
            requires
                w == v * qq + w % v,
                0 <= w % v,
                w <= 1025 * (den as int),
                v == 2 * (den as int),
                den > 0,
        ;
    }
    q as u32
}

/// The scale of power, for every way of writing the fraction: zero power
/// drives nothing, full power either way drives 512 traversals, and half
/// power drives 256.
pub proof fn lemma_power_scale(den: int)
    requires
        den > 0,
    ensures
        rounded_steps(0, den) == 0,
        rounded_steps(den, den) == 512,
        rounded_steps(-den, den) == 512,
        rounded_steps(den, 2 * den) == 256,
{
    lemma_fundamental_div_mod_converse(den, 2 * den, 0, den);
    lemma_fundamental_div_mod_converse(1025 * den, 2 * den, 512, den);
    lemma_fundamental_div_mod_converse(1024 * den + 2 * den, 4 * den, 256, 2 * den);
}

} // verus!
