//! Human-readable sizes, shortened labels and the summary of a batch run.

use vstd::prelude::*;
use vstd::utf8::{decode_utf8, encode_utf8_decode_utf8, is_char_boundary};
use vstd::string::StringSliceAdditionalSpecFns;
use crate::batch::{TaskResult, TaskStatus};
use crate::text::{decimal, digit_char, digit_str, owned, push_decimal};

verus! {

/// `1024` to the power `i`.
pub open spec fn pow1024(i: nat) -> nat
    decreases i,
{
    if i == 0 {
        1
    } else {
        1024 * pow1024((i - 1) as nat)
    }
}

/// The unit index (0 = B .. 4 = TB) in which a positive size below 1024^5 is shown:
/// the largest `i` with `1024^i <= n`.
pub open spec fn size_unit(n: nat) -> nat {
    if n < pow1024(1) {
        0
    } else if n < pow1024(2) {
        1
    } else if n < pow1024(3) {
        2
    } else if n < pow1024(4) {
        3
    } else {
        4
    }
}

pub open spec fn unit_name(i: nat) -> Seq<char> {
    if i == 0 {
        seq!['B']
    } else if i == 1 {
        seq!['K', 'B']
    } else if i == 2 {
        seq!['M', 'B']
    } else if i == 3 {
        seq!['G', 'B']
    } else {
        seq!['T', 'B']
    }
}

/// `n / d` in hundredths, rounded to the nearest hundredth, halves rounded up.
pub open spec fn rounded_hundredths(n: nat, d: nat) -> nat
    recommends
        d > 0,
{
    (n * 200 + d) / (2 * d)
}

/// The fractional part of a number of hundredths: nothing when it is whole,
/// otherwise a point and one or two digits without trailing zero.
pub open spec fn hundredths_fraction(r: nat) -> Seq<char> {
    if r == 0 {
        Seq::empty()
    } else if r % 10 == 0 {
        seq!['.', digit_char(r / 10)]
    } else {
        seq!['.', digit_char(r / 10), digit_char(r % 10)]
    }
}

/// `2` to the power `k`.
pub open spec fn two_to(k: nat) -> nat
    decreases k,
{
    if k == 0 {
        1
    } else {
        2 * two_to((k - 1) as nat)
    }
}

/// `10` to the power `k`.
pub open spec fn ten_to(k: nat) -> nat
    decreases k,
{
    if k == 0 {
        1
    } else {
        10 * ten_to((k - 1) as nat)
    }
}

/// The number of binary digits of `n`.
pub open spec fn bit_len(n: nat) -> nat
    decreases n,
{
    if n == 0 {
        0
    } else {
        1 + bit_len(n / 2)
    }
}

/// The double nearest to `n`: `n` rounded to 53 significant bits, halves to
/// the even significand.
pub open spec fn to_double(n: nat) -> nat {
    let l = bit_len(n);
    if l <= 53 {
        n
    } else {
        let s = two_to((l - 53) as nat);
        let q = n / s;
        let r = n % s;
        if r * 2 > s || (r * 2 == s && q % 2 == 1) {
            (q + 1) * s
        } else {
            q * s
        }
    }
}

/// Is the significand of the double of value `m` even?
pub open spec fn even_significand(m: nat) -> bool {
    bit_len(m) <= 53 || (m / two_to((bit_len(m) - 53) as nat)) % 2 == 0
}

/// `m / 2^40` rounded to `f` decimals, halves up, as a whole number of
/// `10^-f`.
pub open spec fn decimal_candidate(m: nat, f: nat) -> nat {
    (m * ten_to(f) + two_to(39)) / two_to(40)
}

/// Does the `f`-decimal rounding of the double `m / 2^40` (with `m >= 2^49`)
/// read back as that double? It must lie within half a unit in the last place
/// of it (`2^(bit_len(m) - 94)`), the boundary included when the significand
/// is even. Both sides are scaled by `16 * 10^f * 2^40`.
pub open spec fn reads_back(m: nat, f: nat) -> bool {
    let c = decimal_candidate(m, f);
    let lhs = c * two_to(44);
    let rhs = 16 * m * ten_to(f);
    let d = if lhs >= rhs {
        lhs - rhs
    } else {
        rhs - lhs
    };
    let bound = two_to((bit_len(m) - 50) as nat) * ten_to(f);
    d < bound || (d == bound && even_significand(m))
}

/// The fewest decimals, from `f` on and at most 13, with which the double
/// `m / 2^40` reads back.
pub open spec fn shortest_decimals(m: nat, f: nat) -> nat
    decreases 13 - f,
{
    if f >= 13 || reads_back(m, f) {
        f
    } else {
        shortest_decimals(m, f + 1)
    }
}

/// The last `w` decimal digits of `x`, with leading zeros.
pub open spec fn padded_digits(x: nat, w: nat) -> Seq<char>
    decreases w,
{
    if w == 0 {
        Seq::empty()
    } else {
        padded_digits(x / 10, (w - 1) as nat).push(digit_char(x % 10))
    }
}

/// How a double of value `m / 2^40` is displayed: with the fewest decimals
/// that read back as that double, rounded to the nearest; without a point when
/// no decimals are needed.
pub open spec fn double_text(m: nat) -> Seq<char> {
    let f = shortest_decimals(m, 0);
    let c = decimal_candidate(m, f);
    decimal(c / ten_to(f)) + (if f == 0 {
        Seq::empty()
    } else {
        seq!['.'] + padded_digits(c % ten_to(f), f)
    })
}

/// A byte count as a human-readable size: the largest unit of 1024 that the size
/// reaches (up to TB), rounded to two decimals without trailing zeros. Sizes of
/// 1024 TB and more are given in TB as the double nearest to the size, divided
/// by `2^40`, is displayed: with the fewest decimals that read back as it.
pub open spec fn spec_format_size(n: nat) -> Seq<char> {
    if n == 0 {
        seq!['0', ' ', 'B']
    } else if n >= pow1024(5) {
        double_text(to_double(n)) + seq![' ', 'T', 'B']
    } else {
        let i = size_unit(n);
        let h = rounded_hundredths(n, pow1024(i));
        decimal(h / 100) + hundredths_fraction(h % 100) + seq![' '] + unit_name(i)
    }
}

fn unit_name_str(i: u64) -> (r: &'static str)
    requires
        i <= 4,
    ensures
        r@ == unit_name(i as nat),
{
    proof {
        reveal_strlit("B");
        reveal_strlit("KB");
        reveal_strlit("MB");
        reveal_strlit("GB");
        reveal_strlit("TB");
    }
    if i == 0 {
        "B"
    } else if i == 1 {
        "KB"
    } else if i == 2 {
        "MB"
    } else if i == 3 {
        "GB"
    } else {
        "TB"
    }
}

proof fn lemma_pow1024_values()
    ensures
        pow1024(1) == 1024,
        pow1024(2) == 1048576,
        pow1024(3) == 1073741824,
        pow1024(4) == 1099511627776,
        pow1024(5) == 1125899906842624,
{
    reveal_with_fuel(pow1024, 6);
}

proof fn lemma_two_to_monotone(i: nat, j: nat)
    requires
        i <= j,
    ensures
        two_to(i) <= two_to(j),
        two_to(i) >= 1,
    decreases j,
{
    if j > i {
        lemma_two_to_monotone(i, (j - 1) as nat);
    } else if i > 0 {
        lemma_two_to_monotone((i - 1) as nat, (i - 1) as nat);
    }
}

proof fn lemma_ten_to_monotone(i: nat, j: nat)
    requires
        i <= j,
    ensures
        ten_to(i) <= ten_to(j),
        ten_to(i) >= 1,
    decreases j,
{
    if j > i {
        lemma_ten_to_monotone(i, (j - 1) as nat);
    } else if i > 0 {
        lemma_ten_to_monotone((i - 1) as nat, (i - 1) as nat);
    }
}

proof fn lemma_bit_len_below(x: nat, k: nat)
    requires
        x < two_to(k),
    ensures
        bit_len(x) <= k,
    decreases k,
{
    if x > 0 && k > 0 {
        lemma_bit_len_below(x / 2, (k - 1) as nat);
    }
}

proof fn lemma_bit_len_above(x: nat, k: nat)
    requires
        x >= two_to(k),
    ensures
        bit_len(x) >= k + 1,
    decreases k,
{
    lemma_two_to_monotone(0, k);
    if k > 0 {
        lemma_bit_len_above(x / 2, (k - 1) as nat);
    }
}

proof fn lemma_powers()
    ensures
        two_to(11) == 2048,
        two_to(15) == 32768,
        two_to(39) == 549755813888,
        two_to(40) == 1099511627776,
        two_to(44) == 17592186044416,
        two_to(49) == 562949953421312,
        two_to(50) == 1125899906842624,
        two_to(64) == 0x1_0000_0000_0000_0000,
        two_to(65) == 0x2_0000_0000_0000_0000,
        ten_to(13) == 10000000000000,
{
    reveal_with_fuel(two_to, 66);
    reveal_with_fuel(ten_to, 14);
}

fn two_pow(k: u32) -> (r: u128)
    requires
        k <= 44,
    ensures
        r == two_to(k as nat),
{
    proof {
        lemma_powers();
    }
    let mut r: u128 = 1;
    let mut i: u32 = 0;
    while i < k
        invariant
            i <= k <= 44,
            r == two_to(i as nat),
            two_to(44) == 17592186044416,
        decreases k - i,
    {
        proof {
            lemma_two_to_monotone((i + 1) as nat, 44);
        }
        r = r * 2;
        i = i + 1;
    }
    r
}

fn ten_pow(k: u32) -> (r: u128)
    requires
        k <= 13,
    ensures
        r == ten_to(k as nat),
{
    proof {
        lemma_powers();
    }
    let mut r: u128 = 1;
    let mut i: u32 = 0;
    while i < k
        invariant
            i <= k <= 13,
            r == ten_to(i as nat),
            ten_to(13) == 10000000000000,
        decreases k - i,
    {
        proof {
            lemma_ten_to_monotone((i + 1) as nat, 13);
        }
        r = r * 10;
        i = i + 1;
    }
    r
}

fn bit_len_exec(x: u128) -> (r: u32)
    requires
        x < 0x2_0000_0000_0000_0000,
    ensures
        r as nat == bit_len(x as nat),
        r <= 65,
{
    proof {
        lemma_powers();
        lemma_bit_len_below(x as nat, 65);
    }
    let mut y: u128 = x;
    let mut l: u32 = 0;
    while y > 0
        invariant
            bit_len(x as nat) == l + bit_len(y as nat),
            bit_len(x as nat) <= 65,
        decreases y,
    {
        y = y / 2;
        l = l + 1;
    }
    l
}

/// Appends the decimal notation of `n` to `out`.
fn push_decimal_wide(out: &mut String, n: u128)
    ensures
        final(out)@ == old(out)@ + decimal(n as nat),
    decreases n,
{
    if n < 10 {
        out.append(digit_str(n as u64));
    } else {
        push_decimal_wide(out, n / 10);
        out.append(digit_str((n % 10) as u64));
        proof {
            assert(decimal(n as nat) == decimal((n / 10) as nat).push(digit_char((n % 10) as nat)));
        }
    }
}

/// Appends the last `w` decimal digits of `x`, with leading zeros.
fn push_padded(out: &mut String, x: u128, w: u32)
    ensures
        final(out)@ == old(out)@ + padded_digits(x as nat, w as nat),
    decreases w,
{
    if w > 0 {
        push_padded(out, x / 10, w - 1);
        out.append(digit_str((x % 10) as u64));
    }
}

/// The double nearest to `n`, as a whole number.
fn to_double_exec(n: u64) -> (m: u128)
    requires
        n >= 1125899906842624,
    ensures
        m == to_double(n as nat),
        562949953421312 <= m < 0x2_0000_0000_0000_0000,
{
    proof {
        lemma_powers();
        lemma_bit_len_below(n as nat, 64);
    }
    let l = bit_len_exec(n as u128);
    if l <= 53 {
        return n as u128;
    }
    let s = two_pow(l - 53);
    proof {
        lemma_two_to_monotone((l - 53) as nat, 11);
        lemma_two_to_monotone(0, (l - 53) as nat);
    }
    let nn = n as u128;
    let q = nn / s;
    let r = nn % s;
    assert(q * s + r == nn) by (nonlinear_arith)
        requires
            q == nn / s,
            r == nn % s,
            s > 0,
    ;
    if r * 2 > s || (r * 2 == s && q % 2 == 1) {
        assert((q + 1) * s <= nn + s) by (nonlinear_arith)
            requires
                q * s + r == nn,
                r >= 0,
        ;
        assert(s <= 2048);
        assert((q + 1) * s == q * s + s) by (nonlinear_arith);
        assert(r < s);
        (q + 1) * s
    } else {
        assert(q * s >= nn - s) by (nonlinear_arith)
            requires
                q * s + r == nn,
                r < s,
        ;
        assert(s <= 2048);
        assert(q * s <= nn);
        q * s
    }
}

proof fn lemma_shortest_step(m: nat, f: nat)
    requires
        f < 13,
        !reads_back(m, f),
    ensures
        shortest_decimals(m, f) == shortest_decimals(m, f + 1),
{
}

/// Appends how the double `m / 2^40` is displayed.
fn push_double(out: &mut String, m: u128)
    requires
        562949953421312 <= m < 0x2_0000_0000_0000_0000,
    ensures
        final(out)@ == old(out)@ + double_text(m as nat),
{
    proof {
        lemma_powers();
        lemma_bit_len_above(m as nat, 49);
    }
    let big_l = bit_len_exec(m);
    proof {
        lemma_two_to_monotone((big_l - 50) as nat, 15);
    }
    let bound_pow = two_pow(big_l - 50);
    let half = two_pow(39);
    let unit = two_pow(40);
    let scale = two_pow(44);
    let even = if big_l <= 53 {
        true
    } else {
        proof {
            lemma_two_to_monotone(0, (big_l - 53) as nat);
        }
        (m / two_pow(big_l - 53)) % 2 == 0
    };
    let mut f: u32 = 0;
    let mut c: u128;
    loop
        invariant
            f <= 13,
            shortest_decimals(m as nat, 0) == shortest_decimals(m as nat, f as nat),
            big_l as nat == bit_len(m as nat),
            50 <= big_l <= 65,
            bound_pow == two_to((big_l - 50) as nat),
            bound_pow <= 32768,
            half == two_to(39),
            unit == two_to(40),
            scale == two_to(44),
            even == even_significand(m as nat),
            562949953421312 <= m < 0x2_0000_0000_0000_0000,
            two_to(39) == 549755813888,
            two_to(40) == 1099511627776,
            two_to(44) == 17592186044416,
            ten_to(13) == 10000000000000,
        ensures
            f == shortest_decimals(m as nat, 0),
            c == decimal_candidate(m as nat, f as nat),
            c < 0x40_0000_0000_0000_0000,
        decreases 13 - f,
    {
        let t = ten_pow(f);
        proof {
            lemma_ten_to_monotone(f as nat, 13);
        }
        assert(m * t + half < 0x1_0000_0000_0000_0000_0000_0000_0000) by (nonlinear_arith)
            requires
                m < 0x2_0000_0000_0000_0000,
                t <= 10000000000000,
                half == 549755813888,
        ;
        c = (m * t + half) / unit;
        assert(c < 0x40_0000_0000_0000_0000) by (nonlinear_arith)
            requires
                c == (m * t + half) / (unit as int),
                m < 0x2_0000_0000_0000_0000,
                t <= 10000000000000,
                half == 549755813888,
                unit == 1099511627776,
        ;
        assert(c * scale < 0x1_0000_0000_0000_0000_0000_0000_0000_0000) by (nonlinear_arith)
            requires
                c < 0x40_0000_0000_0000_0000,
                scale == 17592186044416,
        ;
        assert(16 * m * t < 0x1_0000_0000_0000_0000_0000_0000_0000_0000) by (nonlinear_arith)
            requires
                m < 0x2_0000_0000_0000_0000,
                t <= 10000000000000,
        ;
        assert(bound_pow * t <= 32768 * 10000000000000) by (nonlinear_arith)
            requires
                bound_pow <= 32768,
                t <= 10000000000000,
        ;
        let lhs = c * scale;
        let rhs = 16 * m * t;
        let d = if lhs >= rhs {
            lhs - rhs
        } else {
            rhs - lhs
        };
        let bound = bound_pow * t;
        let ok = d < bound || (d == bound && even);
        if f >= 13 || ok {
            break;
        }
        proof {
            lemma_shortest_step(m as nat, f as nat);
        }
        f = f + 1;
    }
    let t = ten_pow(f);
    proof {
        lemma_ten_to_monotone(0, f as nat);
    }
    push_decimal_wide(out, c / t);
    if f > 0 {
        out.append(".");
        proof {
            reveal_strlit(".");
        }
        push_padded(out, c % t, f);
    }
}

/// Renders a byte count as a human-readable size, e.g. `1536` as `1.5 KB`.
pub fn format_size(size_bytes: u64) -> (r: String)
    ensures
        r@ == spec_format_size(size_bytes as nat),
{
    proof {
        lemma_pow1024_values();
    }
    if size_bytes == 0 {
        proof {
            reveal_strlit("0 B");
        }
        return owned("0 B");
    }
    let mut out = String::new();
    if size_bytes >= 1125899906842624 {
        let m = to_double_exec(size_bytes);
        push_double(&mut out, m);
        out.append(" TB");
        proof {
            reveal_strlit(" TB");
        }
        return out;
    }
    let (p, i): (u64, u64) = if size_bytes < 1024 {
        (1, 0)
    } else if size_bytes < 1048576 {
        (1024, 1)
    } else if size_bytes < 1073741824 {
        (1048576, 2)
    } else if size_bytes < 1099511627776 {
        (1073741824, 3)
    } else {
        (1099511627776, 4)
    };
    assert(p == pow1024(i as nat));
    assert(size_bytes * 200 + p < 0x1_0000_0000_0000_0000) by (nonlinear_arith)
        requires
            size_bytes < 1125899906842624,
            p <= 1099511627776,
    ;
    let h = (size_bytes * 200 + p) / (2 * p);
    assert(h == rounded_hundredths(size_bytes as nat, pow1024(i as nat)));
    push_decimal(&mut out, h / 100);
    let r = h % 100;
    if r != 0 {
        out.append(".");
        out.append(digit_str(r / 10));
        if r % 10 != 0 {
            out.append(digit_str(r % 10));
        }
    }
    out.append(" ");
    out.append(unit_name_str(i));
    proof {
        reveal_strlit(".");
        reveal_strlit(" ");
        assert(out@ == decimal((h / 100) as nat) + hundredths_fraction((h % 100) as nat) + seq![' ']
            + unit_name(i as nat));
    }
    out
}

/// A label cut to at most `max_len` bytes: kept whole when it fits, otherwise
/// `...` followed by the bytes that end it.
pub open spec fn spec_truncate(bytes: Seq<u8>, chars: Seq<char>, max_len: nat) -> Seq<char> {
    if bytes.len() <= max_len {
        chars
    } else {
        "..."@ + decode_utf8(bytes.subrange(bytes.len() - max_len + 3, bytes.len() as int))
    }
}

/// Shortens `s` to `max_len` bytes for a fixed-width column, keeping its end.
pub fn truncate_str(s: &str, max_len: usize) -> (r: String)
    requires
        s.spec_bytes().len() <= usize::MAX,
        s.spec_bytes().len() <= max_len || (max_len >= 3 && is_char_boundary(
            s.spec_bytes(),
            s.spec_bytes().len() - max_len + 3,
        )),
    ensures
        r@ == spec_truncate(s.spec_bytes(), s@, max_len as nat),
{
    if s.len() <= max_len {
        owned(s)
    } else {
        let start = s.len() - max_len + 3;
        let (_, tail) = s.split_at(start);
        proof {
            encode_utf8_decode_utf8(tail@);
        }
        let mut out = owned("...");
        out.append(tail);
        out
    }
}

/// The counts and sizes that close a batch report.
#[derive(Debug, Clone, Copy, PartialEq, Eq)]
pub struct ReportSummary {
    pub total: usize,
    pub successful: usize,
    pub skipped: usize,
    pub failed: usize,
    /// The sizes of the originals of the tasks that succeeded or were skipped.
    pub original_size: u64,
    /// The sizes of their outputs.
    pub new_size: u64,
}

/// The number of tasks with status `st`.
pub open spec fn count_status(tasks: Seq<TaskResult>, st: TaskStatus) -> nat
    decreases tasks.len(),
{
    if tasks.len() == 0 {
        0
    } else {
        count_status(tasks.drop_last(), st) + if tasks.last().status == st {
            1nat
        } else {
            0nat
        }
    }
}

/// The original sizes (`original == true`) or output sizes of the tasks that
/// succeeded or were skipped.
pub open spec fn settled_size(tasks: Seq<TaskResult>, original: bool) -> nat
    decreases tasks.len(),
{
    if tasks.len() == 0 {
        0
    } else {
        let t = tasks.last();
        settled_size(tasks.drop_last(), original) + if t.status != TaskStatus::Failed {
            if original {
                t.original_size as nat
            } else {
                t.converted_size as nat
            }
        } else {
            0nat
        }
    }
}

proof fn lemma_count_bounded(tasks: Seq<TaskResult>, st: TaskStatus)
    ensures
        count_status(tasks, st) <= tasks.len(),
    decreases tasks.len(),
{
    if tasks.len() > 0 {
        lemma_count_bounded(tasks.drop_last(), st);
    }
}

proof fn lemma_settled_size_prefix(tasks: Seq<TaskResult>, k: int, original: bool)
    requires
        0 <= k <= tasks.len(),
    ensures
        settled_size(tasks.take(k), original) <= settled_size(tasks, original),
    decreases tasks.len() - k,
{
    if k < tasks.len() {
        lemma_settled_size_prefix(tasks, k + 1, original);
        assert(tasks.take(k + 1).drop_last() =~= tasks.take(k));
    } else {
        assert(tasks.take(k) =~= tasks);
    }
}

/// Counts the tasks by status and adds up the sizes of the settled ones; `None`
/// when a sum does not fit in 64 bits.
pub fn summarize(results: &Vec<TaskResult>) -> (r: Option<ReportSummary>)
    ensures
        (settled_size(results@, true) <= u64::MAX && settled_size(results@, false) <= u64::MAX) ==> r
            == Some(
            ReportSummary {
                total: results@.len() as usize,
                successful: count_status(results@, TaskStatus::Success) as usize,
                skipped: count_status(results@, TaskStatus::Skipped) as usize,
                failed: count_status(results@, TaskStatus::Failed) as usize,
                original_size: settled_size(results@, true) as u64,
                new_size: settled_size(results@, false) as u64,
            },
        ),
        !(settled_size(results@, true) <= u64::MAX && settled_size(results@, false) <= u64::MAX) ==> r
            is None,
{
    let mut successful: usize = 0;
    let mut skipped: usize = 0;
    let mut failed: usize = 0;
    let mut orig: u64 = 0;
    let mut new: u64 = 0;
    let mut i: usize = 0;
    while i < results.len()
        invariant
            i <= results.len(),
            successful == count_status(results@.take(i as int), TaskStatus::Success),
            skipped == count_status(results@.take(i as int), TaskStatus::Skipped),
            failed == count_status(results@.take(i as int), TaskStatus::Failed),
            orig == settled_size(results@.take(i as int), true),
            new == settled_size(results@.take(i as int), false),
        decreases results.len() - i,
    {
        let ghost next = results@.take(i + 1);
        proof {
            assert(next.drop_last() =~= results@.take(i as int));
            lemma_count_bounded(results@.take(i as int), TaskStatus::Success);
            lemma_count_bounded(results@.take(i as int), TaskStatus::Skipped);
            lemma_count_bounded(results@.take(i as int), TaskStatus::Failed);
        }
        let t = &results[i];
        match t.status {
            TaskStatus::Success => successful = successful + 1,
            TaskStatus::Skipped => skipped = skipped + 1,
            TaskStatus::Failed => failed = failed + 1,
        }
        if t.status != TaskStatus::Failed {
            if orig > u64::MAX - t.original_size || new > u64::MAX - t.converted_size {
                proof {
                    lemma_settled_size_prefix(results@, i + 1, true);
                    lemma_settled_size_prefix(results@, i + 1, false);
                }
                return None;
            }
            orig = orig + t.original_size;
            new = new + t.converted_size;
        }
        i = i + 1;
    }
    assert(results@.take(results.len() as int) =~= results@);
    Some(ReportSummary { total: results.len(), successful, skipped, failed, original_size: orig, new_size: new })
}

/// How the size of the outputs compares with the size of the originals.
#[derive(Debug, Clone, Copy, PartialEq, Eq, Structural)]
pub enum Savings {
    /// There were no original bytes to compare with.
    Nothing,
    /// The outputs are larger, by this many bytes.
    Increased(u64),
    /// The outputs are smaller or equal, by this many bytes.
    Saved(u64),
}

pub fn savings(original_size: u64, new_size: u64) -> (r: Savings)
    ensures
        r == (if original_size == 0 {
            Savings::Nothing
        } else if new_size > original_size {
            Savings::Increased((new_size - original_size) as u64)
        } else {
            Savings::Saved((original_size - new_size) as u64)
        }),
{
    if original_size == 0 {
        Savings::Nothing
    } else if new_size > original_size {
        Savings::Increased(new_size - original_size)
    } else {
        Savings::Saved(original_size - new_size)
    }
}

} // verus!
