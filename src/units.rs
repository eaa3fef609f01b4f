//! Binary unit scaling of byte counts.
use vstd::prelude::*;

verus! {

/// The base of every unit step: one kibibyte is this many bytes.
pub const UNIT_BASE: u64 = 1024;

/// The highest unit power that records carry (tebibytes).
pub const MAX_UNIT_POWER: u32 = 4;

/// `1024` raised to `power`.
pub open spec fn unit_divisor_spec(power: nat) -> nat
    decreases power,
{
    if power == 0 {
        1
    } else {
        1024 * unit_divisor_spec((power - 1) as nat)
    }
}

/// The number of bytes in one unit of the given power: 1 for bytes, 1024 for
/// kibibytes, up to 1024^4 for tebibytes. A size in that unit is the byte
/// count divided by this value.
pub fn unit_divisor(power: u32) -> (r: u64)
    requires
        power <= MAX_UNIT_POWER,
    ensures
        r as nat == unit_divisor_spec(power as nat),
{
    let mut r: u64 = 1;
    let mut i: u32 = 0;
    while i < power
        invariant
            i <= power <= MAX_UNIT_POWER,
            r as nat == unit_divisor_spec(i as nat),
        decreases power - i,
    {
        proof {
            lemma_divisor_bound(i as nat);
        }
        r = r * UNIT_BASE;
        i = i + 1;
    }
    r
}

proof fn lemma_divisor_bound(power: nat)
    requires
        power < 4,
    ensures
        unit_divisor_spec(power) <= 0x40_0000_0000,
{
    reveal_with_fuel(unit_divisor_spec, 4);
}

/// Each unit is the previous one scaled by the base: a size in the unit of
/// power `k + 1` is the size in the unit of power `k` divided by 1024, and a
/// size in kibibytes times 1024 gives the byte count back.
pub proof fn lemma_unit_steps(power: nat)
    ensures
        unit_divisor_spec(power + 1) == 1024 * unit_divisor_spec(power),
        unit_divisor_spec(1) == 1024,
        unit_divisor_spec(0) == 1,
{
    reveal_with_fuel(unit_divisor_spec, 2);
}

} // verus!
