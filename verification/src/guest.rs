//! The guest program's computation. Its exported entry point calls the host's
//! multivalue import, receives four 32-bit values, and combines them as
//! `a*2 + b*3 + c*7 + d*11` in 32-bit wrapping arithmetic, as WebAssembly
//! defines it. Here the four imported values arrive as parameters; the host
//! side of the call is the import registrar's concern.

use vstd::prelude::*;

verus! {

/// The exact value the guest combines the four imported values into, before
/// reduction to 32 bits.
pub open spec fn guest_formula(a: int, b: int, c: int, d: int) -> int {
    a * 2 + b * 3 + c * 7 + d * 11
}

/// Reduction into the signed 32-bit range, as wrapping arithmetic does.
pub open spec fn wrap_i32(x: int) -> int {
    let m = x % 0x1_0000_0000;
    if m >= 0x8000_0000 {
        m - 0x1_0000_0000
    } else {
        m
    }
}

/// Law: a value already in the signed 32-bit range is left untouched by the
/// reduction, so the guest returns the formula's exact value whenever that
/// value fits in 32 bits.
pub proof fn lemma_wrap_i32_identity(x: int)
    requires
        -0x8000_0000 <= x < 0x8000_0000,
    ensures
        wrap_i32(x) == x,
{
    if x >= 0 {
        vstd::arithmetic::div_mod::lemma_small_mod(x as nat, 0x1_0000_0000nat);
    } else {
        vstd::arithmetic::div_mod::lemma_mod_multiples_vanish(1, x, 0x1_0000_0000);
        vstd::arithmetic::div_mod::lemma_small_mod((x + 0x1_0000_0000) as nat, 0x1_0000_0000nat);
        assert((x + 0x1_0000_0000) % 0x1_0000_0000 == x % 0x1_0000_0000);
    }
}

/// The guest entry point's result for the four values the multivalue import
/// handed it.
pub fn run(a: i32, b: i32, c: i32, d: i32) -> (r: i32)
    ensures
        r as int == wrap_i32(guest_formula(a as int, b as int, c as int, d as int)),
{
    let wide: i64 = (a as i64) * 2 + (b as i64) * 3 + (c as i64) * 7 + (d as i64) * 11;
    // shift by a multiple of 2^32 so the reduction works on a nonnegative value
    let shifted: u64 = (wide + 0x100_0000_0000i64) as u64;
    let m: u64 = shifted % 0x1_0000_0000u64;
    proof {
        vstd::arithmetic::div_mod::lemma_mod_multiples_vanish(256, wide as int, 0x1_0000_0000);
    }
    if m >= 0x8000_0000u64 {
        (m as i64 - 0x1_0000_0000i64) as i32
    } else {
        m as i32
    }
}

} // verus!
