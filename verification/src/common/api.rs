//! Sizes in words.

use crate::text::{decimal, decimal_chars, from_chars, push_chars, to_chars};
use vstd::prelude::*;

verus! {

/// `n / d`, rounded to the nearest whole number, and to the even one where
/// two are as near.
pub open spec fn half_even_div(n: nat, d: nat) -> nat {
    let q = n / d;
    let r = n % d;
    if 2 * r > d || (2 * r == d && q % 2 == 1) {
        q + 1
    } else {
        q
    }
}

/// The least of `d`, `2d`, `4d`, ... up to `steps` doublings, by which
/// `size` divides to less than 2^53.
pub open spec fn grain_from(size: nat, d: nat, steps: nat) -> nat
    decreases steps,
{
    if steps == 0 || size / d < 0x20_0000_0000_0000 {
        d
    } else {
        grain_from(size, 2 * d, (steps - 1) as nat)
    }
}

/// `size` as it is measured: exactly up to 2^53, and above that rounded to
/// 53 significant bits.
pub open spec fn measured(size: nat) -> nat {
    let g = grain_from(size, 1, 11);
    half_even_div(size, g) * g
}

/// The unit in which a measured size `m` is shown: 0 for bytes, and one
/// more for every factor of 1024 that `m` reaches, up to 4.
pub open spec fn unit_of(m: nat) -> nat {
    if m < 1024 {
        0
    } else if m < 1024 * 1024 {
        1
    } else if m < 1024 * 1024 * 1024 {
        2
    } else if m < 1024 * 1024 * 1024 * 1024 {
        3
    } else {
        4
    }
}

/// How many bytes the unit `u` holds.
pub open spec fn unit_bytes(u: nat) -> nat {
    if u == 0 {
        1
    } else if u == 1 {
        1024
    } else if u == 2 {
        1024 * 1024
    } else if u == 3 {
        1024 * 1024 * 1024
    } else {
        1024 * 1024 * 1024 * 1024
    }
}

/// The name of the unit `u`.
pub open spec fn unit_name(u: nat) -> Seq<char> {
    if u == 0 {
        "bytes"@
    } else if u == 1 {
        "KB"@
    } else if u == 2 {
        "MB"@
    } else if u == 3 {
        "GB"@
    } else {
        "TB"@
    }
}

/// A size of `size` bytes in words: the measured size in the largest unit
/// it reaches, rounded to a whole number, a space, the unit.
pub open spec fn size_text(size: nat) -> Seq<char> {
    let m = measured(size);
    let u = unit_of(m);
    decimal(half_even_div(m, unit_bytes(u))) + " "@ + unit_name(u)
}

fn round_div(n: u128, d: u128) -> (r: u128)
    requires
        d > 0,
        n <= 0x1_0000_0000_0000_0000,
    ensures
        r == half_even_div(n as nat, d as nat),
{
    let q = n / d;
    let r = n % d;
    if r > d - r || (r == d - r && q % 2 == 1) {
        q + 1
    } else {
        q
    }
}

fn grain(size: u64) -> (g: u128)
    ensures
        g == grain_from(size as nat, 1, 11),
        1 <= g <= 2048,
        (size as nat) / (g as nat) < 0x20_0000_0000_0000nat,
{
    let mut d: u128 = 1;
    let mut steps: u32 = 11;
    proof {
        reveal_with_fuel(pow2_of, 12);
        assert(pow2_of(11) == 2048);
    }
    while steps > 0 && (size as u128) / d >= 0x20_0000_0000_0000
        invariant
            steps <= 11,
            1 <= d <= 2048,
            d * pow2_of(steps as nat) == 2048,
            grain_from(size as nat, 1, 11) == grain_from(size as nat, d as nat, steps as nat),
        decreases steps,
    {
        proof {
            assert(pow2_of(steps as nat) == 2 * pow2_of((steps - 1) as nat));
            assert(d * (2 * pow2_of((steps - 1) as nat)) == (2 * d) * pow2_of((steps - 1) as nat))
                by (nonlinear_arith);
            assert(pow2_of((steps - 1) as nat) >= 1) by {
                lemma_pow2_of_positive((steps - 1) as nat);
            }
            assert((2 * d) * pow2_of((steps - 1) as nat) >= 2 * d) by (nonlinear_arith)
                requires
                    pow2_of((steps - 1) as nat) >= 1,
                    d >= 1,
            ;
        }
        d = d * 2;
        steps -= 1;
    }
    proof {
        if steps == 0 {
            assert(pow2_of(0) == 1);
            assert(d * 1 == d);
            assert(d == 2048);
            assert(size as nat / 2048 < 0x20_0000_0000_0000nat);
        }
    }
    d
}

/// 2 to the power `k`.
pub open spec fn pow2_of(k: nat) -> nat
    decreases k,
{
    if k == 0 {
        1
    } else {
        2 * pow2_of((k - 1) as nat)
    }
}

proof fn lemma_pow2_of_positive(k: nat)
    ensures
        pow2_of(k) >= 1,
    decreases k,
{
    if k > 0 {
        lemma_pow2_of_positive((k - 1) as nat);
    }
}

/// A size of `size` bytes in words.
pub fn format_size(size: u64) -> (out: String)
    ensures
        out@ == size_text(size as nat),
{
    let g = grain(size);
    let q = round_div(size as u128, g);
    assert(q <= 0x20_0000_0000_0000);
    assert(q * g <= 0x1_0000_0000_0000_0000) by (nonlinear_arith)
        requires
            q <= 0x20_0000_0000_0000,
            1 <= g <= 2048,
    ;
    let m: u128 = q * g;
    let (unit, bytes, name): (u8, u128, &str) = if m < 1024 {
        (0, 1, "bytes")
    } else if m < 1024 * 1024 {
        (1, 1024, "KB")
    } else if m < 1024 * 1024 * 1024 {
        (2, 1024 * 1024, "MB")
    } else if m < 1024 * 1024 * 1024 * 1024 {
        (3, 1024 * 1024 * 1024, "GB")
    } else {
        (4, 1024 * 1024 * 1024 * 1024, "TB")
    };
    let shown = round_div(m, bytes);
    let mut text = decimal_chars(shown);
    let space = to_chars(" ");
    push_chars(&mut text, &space);
    let unit_text = to_chars(name);
    push_chars(&mut text, &unit_text);
    from_chars(&text)
}

} // verus!
