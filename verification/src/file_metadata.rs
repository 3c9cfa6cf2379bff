//! Snapshots of file metadata, for logging before files are replaced or removed.

use vstd::prelude::*;
use vstd::arithmetic::power2::{pow2, lemma2_to64, lemma_pow2_pos, lemma_pow2_unfold, lemma_pow2_strictly_increases};
use crate::text::{concat, concat3, copy_str, decimal, decimal_str, zero_pad, zero_pad_str};

verus! {

/// Metadata of a file at one moment.
#[derive(Debug, Clone)]
pub struct FileSnapshot {
    /// Full path of the file.
    pub path: String,
    /// Size in bytes.
    pub size_bytes: u64,
    /// Last modification time, formatted (`unknown` when not available).
    pub modified: String,
    /// Whether the file exists.
    pub exists: bool,
}

/// The number of binary digits of `n` (0 for 0).
pub open spec fn bit_length(n: nat) -> nat
    decreases n,
{
    if n == 0 {
        0
    } else {
        1 + bit_length(n / 2)
    }
}

/// `num / den` rounded to the nearest integer, ties to even.
pub open spec fn round_half_even(num: nat, den: nat) -> nat
    recommends
        den > 0,
{
    let q = num / den;
    let r = num % den;
    if 2 * r > den || (2 * r == den && q % 2 == 1) {
        q + 1
    } else {
        q
    }
}

/// The value of `n` once converted to `f64`: `n` itself below 2^53, else `n`
/// rounded to 53 significant bits, ties to even.
pub open spec fn as_f64(n: nat) -> nat {
    if bit_length(n) <= 53 {
        n
    } else {
        let s = (bit_length(n) - 53) as nat;
        round_half_even(n, pow2(s)) * pow2(s)
    }
}

/// Two decimal digits of `d` (below 100).
pub open spec fn two_digits(d: nat) -> Seq<char> {
    zero_pad(decimal(d), 2)
}

/// `num / den` written with two decimals, rounded half to even
/// (`format!("{:.2}")` on the exact quotient).
pub open spec fn fixed2(num: nat, den: nat) -> Seq<char> {
    let h = round_half_even(num * 100, den);
    decimal(h / 100) + "."@ + two_digits(h % 100)
}

/// `FileSnapshot::format_size`: bytes below 1 KiB as a whole number of `B`,
/// otherwise `KB`, `MB` or `GB` with two decimals.
pub open spec fn size_text(n: nat) -> Seq<char> {
    let v = as_f64(n);
    if v < 1024 {
        decimal(v) + " B"@
    } else if v < 1024 * 1024 {
        fixed2(v, 1024) + " KB"@
    } else if v < 1024 * 1024 * 1024 {
        fixed2(v, 1024 * 1024) + " MB"@
    } else {
        fixed2(v, 1024 * 1024 * 1024) + " GB"@
    }
}

/// `FileSnapshot::format`.
pub open spec fn snapshot_text(s: FileSnapshot) -> Seq<char> {
    if s.exists {
        s.path@ + " (size: "@ + size_text(s.size_bytes as nat) + ", modified: "@ + s.modified@ + ")"@
    } else {
        s.path@ + " (not found)"@
    }
}

proof fn lemma_bit_length_bound(n: nat, k: nat)
    requires
        n < pow2(k),
    ensures
        bit_length(n) <= k,
    decreases k,
{
    if n > 0 {
        if k == 0 {
            lemma2_to64();
        } else {
            lemma_pow2_unfold(k);
            assert(n / 2 < pow2((k - 1) as nat));
            lemma_bit_length_bound(n / 2, (k - 1) as nat);
        }
    }
}

/// The number of binary digits of `n`.
fn bit_length_exec(n: u64) -> (r: u32)
    ensures
        r as nat == bit_length(n as nat),
        r <= 64,
{
    let mut m = n;
    let mut k: u32 = 0;
    proof {
        lemma2_to64();
        lemma_bit_length_bound(n as nat, 64);
    }
    while m > 0
        invariant
            bit_length(n as nat) == k + bit_length(m as nat),
            bit_length(n as nat) <= 64,
        decreases m,
    {
        m = m / 2;
        k = k + 1;
    }
    k
}

/// The value of `n` as `f64`, as a whole number.
fn as_f64_exec(n: u64) -> (r: u128)
    ensures
        r as nat == as_f64(n as nat),
        r <= 0x1_0000_0000_0000_0800,
{
    let len = bit_length_exec(n);
    if len <= 53 {
        return n as u128;
    }
    let s: u32 = len - 53;
    let mut p: u128 = 1;
    let mut i: u32 = 0;
    proof {
        lemma2_to64();
    }
    while i < s
        invariant
            i <= s,
            s <= 11,
            p as nat == pow2(i as nat),
            p <= 2048,
        decreases s - i,
    {
        proof {
            lemma2_to64();
            if i + 1 < 11 {
                lemma_pow2_strictly_increases((i + 1) as nat, 11);
            }
            lemma_pow2_unfold((i + 1) as nat);
        }
        p = p * 2;
        i = i + 1;
    }
    proof {
        lemma_pow2_pos(s as nat);
    }
    let nn: u128 = n as u128;
    let q: u128 = nn / p;
    let r: u128 = nn % p;
    assert(q * p + r == nn && r < p) by (nonlinear_arith)
        requires q == nn / p, r == nn % p, p > 0;
    let rounded: u128 = if 2 * r > p || (2 * r == p && q % 2 == 1) { q + 1 } else { q };
    assert(rounded * p <= nn + p) by (nonlinear_arith)
        requires rounded <= q + 1, q * p + r == nn, p > 0, r >= 0;
    rounded * p
}

/// Two decimals of `num / den`.
fn fixed2_exec(num: u128, den: u128) -> (r: String)
    requires
        1024 <= den <= 0x4000_0000,
        num <= 0x1_0000_0000_0000_0800,
    ensures
        r@ == fixed2(num as nat, den as nat),
{
    let scaled: u128 = num * 100;
    let q: u128 = scaled / den;
    let rem: u128 = scaled % den;
    assert(q <= num && rem < den) by (nonlinear_arith)
        requires q == scaled / den, rem == scaled % den, scaled == num * 100, den >= 1024;
    let h: u128 = if 2 * rem > den || (2 * rem == den && q % 2 == 1) { q + 1 } else { q };
    let whole: u128 = h / 100;
    let frac: u128 = h % 100;
    assert(whole <= u64::MAX) by (nonlinear_arith)
        requires whole == h / 100, h <= num + 1, num <= 0x1_0000_0000_0000_0800;
    let w = decimal_str(whole as u64);
    let f = decimal_str(frac as u64);
    let f2 = zero_pad_str(f.as_str(), 2);
    concat3(w.as_str(), ".", f2.as_str())
}

impl FileSnapshot {
    /// The size in `B`, `KB`, `MB` or `GB`, as `f64` formatting shows it.
    pub fn format_size(&self) -> (r: String)
        ensures
            r@ == size_text(self.size_bytes as nat),
    {
        let v = as_f64_exec(self.size_bytes);
        if v < 1024 {
            let d = decimal_str(v as u64);
            concat(d.as_str(), " B")
        } else if v < 1024 * 1024 {
            let t = fixed2_exec(v, 1024);
            concat(t.as_str(), " KB")
        } else if v < 1024 * 1024 * 1024 {
            let t = fixed2_exec(v, 1024 * 1024);
            concat(t.as_str(), " MB")
        } else {
            let t = fixed2_exec(v, 1024 * 1024 * 1024);
            concat(t.as_str(), " GB")
        }
    }

    /// The path with size and modification time, or `(not found)`.
    pub fn format(&self) -> (r: String)
        ensures
            r@ == snapshot_text(*self),
    {
        if self.exists {
            let size = self.format_size();
            let a = concat3(self.path.as_str(), " (size: ", size.as_str());
            let b = concat3(a.as_str(), ", modified: ", self.modified.as_str());
            concat(b.as_str(), ")")
        } else {
            concat(self.path.as_str(), " (not found)")
        }
    }
}

} // verus!
