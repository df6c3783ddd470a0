//! Human-readable byte counts: `512B`, `1.5KB`, `2.5MB`.
//!
//! Kilobytes and megabytes are printed with one decimal the way `{:.1}`
//! prints the `f64` quotient: the byte count is first rounded to the
//! nearest `f64` (53 significant bits, ties to even), and the exact quotient
//! is then rounded to one decimal, ties to even. The computation here is in
//! integers and gives the same digits.
use vstd::prelude::*;

use crate::text::{dec, push_dec, push_str};

verus! {

/// `2^e`.
pub open spec fn pow2n(e: nat) -> nat
    decreases e,
{
    if e == 0 {
        1
    } else {
        2 * pow2n((e - 1) as nat)
    }
}

/// The number of significant bits of `n` (0 for 0).
pub open spec fn bit_len(n: nat) -> nat
    decreases n,
{
    if n == 0 {
        0
    } else {
        1 + bit_len(n / 2)
    }
}

/// `a / d` rounded to the nearest integer, ties to even.
pub open spec fn div_round_even(a: nat, d: nat) -> nat {
    let q = a / d;
    let r = a % d;
    if 2 * r > d || (2 * r == d && q % 2 == 1) {
        q + 1
    } else {
        q
    }
}

/// The `f64` nearest to `n` (what `n as f64` holds): `n` itself when it has
/// at most 53 significant bits, else `n` rounded to 53 significant bits,
/// ties to even.
pub open spec fn f64_value(n: nat) -> nat {
    if bit_len(n) <= 53 {
        n
    } else {
        let p = pow2n((bit_len(n) - 53) as nat);
        div_round_even(n, p) * p
    }
}

/// A count of tenths as `<units>.<tenth>`.
pub open spec fn tenths_text(t: nat) -> Seq<char> {
    dec(t / 10) + "."@ + dec(t % 10)
}

/// What [`format_size`] prints for `bytes`.
pub open spec fn size_text(bytes: u64) -> Seq<char> {
    if bytes < 1024 {
        dec(bytes as nat) + "B"@
    } else if bytes < 1024 * 1024 {
        tenths_text(div_round_even(bytes as nat * 10, 1024)) + "KB"@
    } else {
        tenths_text(div_round_even(f64_value(bytes as nat) * 10, 1024 * 1024)) + "MB"@
    }
}

proof fn lemma_bit_len_bound(n: nat, k: nat)
    requires
        n < pow2n(k),
    ensures
        bit_len(n) <= k,
    decreases k,
{
    if n > 0 && k > 0 {
        lemma_bit_len_bound(n / 2, (k - 1) as nat);
    }
}

fn bit_len_u64(n: u64) -> (r: u64)
    ensures
        r == bit_len(n as nat),
        r <= 64,
{
    let mut m = n;
    let mut count: u64 = 0;
    proof {
        lemma_pow2n_64();
        lemma_bit_len_bound(n as nat, 64);
    }
    while m > 0
        invariant
            count + bit_len(m as nat) == bit_len(n as nat),
            bit_len(n as nat) <= 64,
        decreases m,
    {
        m = m / 2;
        count = count + 1;
    }
    count
}

fn div_round_even_u128(a: u128, d: u128) -> (r: u128)
    requires
        0 < d <= 0x1_0000_0000,
        a < 0x1_0000_0000_0000_0000_0000,
    ensures
        r == div_round_even(a as nat, d as nat),
{
    let q = a / d;
    let rem = a % d;
    if 2 * rem > d || (2 * rem == d && q % 2 == 1) {
        q + 1
    } else {
        q
    }
}

/// Tenths of the quotient `bytes / 1024` (kilobytes) or `f64(bytes) / 2^20`
/// (megabytes), as `{:.1}` rounds them.
fn tenths_of(bytes: u64, mb: bool) -> (t: u128)
    ensures
        t == (if mb {
            div_round_even(f64_value(bytes as nat) * 10, 1024 * 1024)
        } else {
            div_round_even(bytes as nat * 10, 1024)
        }),
        t < 0x1_0000_0000_0000_0000,
{
    if !mb {
        let t = div_round_even_u128(bytes as u128 * 10, 1024);
        proof {
            lemma_round_le(bytes as nat * 10, 1024);
        }
        return t;
    }
    let bits = bit_len_u64(bytes);
    let f: u128 = if bits <= 53 {
        bytes as u128
    } else {
        let e = bits - 53;
        let mut p: u128 = 1;
        let mut i: u64 = 0;
        while i < e
            invariant
                i <= e <= 11,
                p == pow2n(i as nat),
            decreases e - i,
        {
            assert(pow2n((i + 1) as nat) == 2 * pow2n(i as nat));
            proof {
                assert(pow2n(i as nat) <= pow2n(11)) by {
                    lemma_pow2n_mono(i as nat, 11);
                }
                lemma_pow2n_11();
            }
            p = p * 2;
            i = i + 1;
        }
        proof {
            lemma_pow2n_mono(e as nat, 11);
            lemma_pow2n_11();
        }
        let q = div_round_even_u128(bytes as u128, p);
        proof {
            lemma_round_bound(bytes as nat, p as nat);
        }
        q * p
    };
    proof {
        if bits > 53 {
            assert(f <= bytes + 2048);
        }
    }
    let t = div_round_even_u128(f * 10, 1024 * 1024);
    proof {
        lemma_round_le(f as nat * 10, 1024 * 1024);
    }
    t
}

proof fn lemma_round_le(a: nat, d: nat)
    requires
        d >= 1024,
    ensures
        div_round_even(a, d) <= a / 1024 + 1,
{
    assert(a / d <= a / 1024) by (nonlinear_arith)
        requires
            d >= 1024,
    ;
}

proof fn lemma_pow2n_11()
    ensures
        pow2n(11) == 2048,
{
    reveal_with_fuel(pow2n, 12);
}

proof fn lemma_pow2n_64()
    ensures
        pow2n(64) == 0x1_0000_0000_0000_0000,
{
    lemma_pow2n_11();
    reveal_with_fuel(pow2n, 4);
    assert(pow2n(14) == 16384);
    assert(pow2n(17) == 131072);
    assert(pow2n(20) == 1048576);
    assert(pow2n(23) == 8388608);
    assert(pow2n(26) == 67108864);
    assert(pow2n(29) == 536870912);
    assert(pow2n(32) == 4294967296);
    assert(pow2n(35) == 34359738368);
    assert(pow2n(38) == 274877906944);
    assert(pow2n(41) == 2199023255552);
    assert(pow2n(44) == 17592186044416);
    assert(pow2n(47) == 140737488355328);
    assert(pow2n(50) == 1125899906842624);
    assert(pow2n(53) == 9007199254740992);
    assert(pow2n(56) == 72057594037927936);
    assert(pow2n(59) == 576460752303423488);
    assert(pow2n(62) == 4611686018427387904);
    assert(pow2n(64) == 0x1_0000_0000_0000_0000);
}

proof fn lemma_pow2n_mono(a: nat, b: nat)
    requires
        a <= b,
    ensures
        pow2n(a) <= pow2n(b),
        pow2n(a) >= 1,
    decreases b,
{
    if a < b {
        lemma_pow2n_mono(a, (b - 1) as nat);
    } else if a > 0 {
        lemma_pow2n_mono((a - 1) as nat, (a - 1) as nat);
    }
}

proof fn lemma_round_bound(n: nat, p: nat)
    requires
        p > 0,
    ensures
        div_round_even(n, p) * p <= n + p,
{
    let q = n / p;
    assert(q * p <= n) by (nonlinear_arith)
        requires
            p > 0,
            q == n / p,
    ;
    assert((q + 1) * p == q * p + p) by (nonlinear_arith);
}

/// Format a byte count as a human-readable size string: plain bytes below
/// 1024, else kilobytes below 1024 * 1024, else megabytes, with one decimal.
pub fn format_size(bytes: u64) -> (r: String)
    ensures
        r@ == size_text(bytes),
{
    let mut s = String::new();
    if bytes < 1024 {
        push_dec(&mut s, bytes);
        push_str(&mut s, "B");
    } else {
        let mb = bytes >= 1024 * 1024;
        let t = tenths_of(bytes, mb);
        let t64 = t as u64;
        push_dec(&mut s, t64 / 10);
        push_str(&mut s, ".");
        push_dec(&mut s, t64 % 10);
        push_str(&mut s, if mb { "MB" } else { "KB" });
    }
    s
}

} // verus!
