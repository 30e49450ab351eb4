//! Selection of PDF pages from a list such as `1,3-5`.

use vstd::prelude::*;
use crate::text::{
    chars_of, contains_in_range, decimal, lemma_split_on_nonempty, owned, parse_u16_range,
    push_decimal, spec_parse_u16, split_on, split_ranges, trim, trim_range,
};

verus! {

/// The 0-based indices of pages `first..=last` that exist in a document of
/// `total` pages.
pub open spec fn page_indices(first: int, last: int, total: int) -> Set<int> {
    Set::new(|i: int| first - 1 <= i && i <= last - 1 && 0 <= i < total)
}

pub open spec fn zero_page_message() -> Seq<char> {
    "Page numbers must be 1-indexed and greater than 0"@
}

/// The pages that one comma-separated part selects, or the message that
/// refuses it. A part is a page number (`4`) or an inclusive range (`3-5`);
/// surrounding whitespace is ignored and an empty part selects nothing. Pages
/// beyond the end of the document are left out silently.
pub open spec fn part_pages(raw: Seq<char>, total: int) -> Result<Set<int>, Seq<char>> {
    let part = trim(raw);
    if part.len() == 0 {
        Ok(Set::empty())
    } else if part.contains('-') {
        let bounds = split_on(part, '-');
        if bounds.len() != 2 {
            Err("Invalid page range: "@ + part)
        } else {
            match spec_parse_u16(trim(bounds[0])) {
                None => Err("Invalid page number: "@ + bounds[0]),
                Some(start) => match spec_parse_u16(trim(bounds[1])) {
                    None => Err("Invalid page number: "@ + bounds[1]),
                    Some(end) => if start == 0 || end == 0 {
                        Err(zero_page_message())
                    } else if start > end {
                        Err(
                            "Start page "@ + decimal(start as nat) + " is greater than end page "@
                                + decimal(end as nat),
                        )
                    } else {
                        Ok(page_indices(start as int, end as int, total))
                    },
                },
            }
        }
    } else {
        match spec_parse_u16(part) {
            None => Err("Invalid page number: "@ + part),
            Some(p) => if p == 0 {
                Err(zero_page_message())
            } else {
                Ok(page_indices(p as int, p as int, total))
            },
        }
    }
}

/// The pages selected by a sequence of parts, or the message of the first part
/// that is refused.
pub open spec fn pages_of_parts(parts: Seq<Seq<char>>, total: int) -> Result<Set<int>, Seq<char>>
    decreases parts.len(),
{
    if parts.len() == 0 {
        Ok(Set::empty())
    } else {
        match pages_of_parts(parts.drop_last(), total) {
            Err(e) => Err(e),
            Ok(s) => match part_pages(parts.last(), total) {
                Err(e) => Err(e),
                Ok(t) => Ok(s.union(t)),
            },
        }
    }
}

/// The 0-based page indices that a page list selects in a document of `total`
/// pages, or the message of the first part that is refused.
pub open spec fn spec_parse_pages(s: Seq<char>, total: int) -> Result<Set<int>, Seq<char>> {
    pages_of_parts(split_on(s, ','), total)
}

/// Each element is smaller than the next.
pub open spec fn strictly_increasing(v: Seq<u16>) -> bool {
    forall|a: int, b: int| 0 <= a < b < v.len() ==> v[a] < v[b]
}

/// The values of `v` as a set of integers.
pub open spec fn index_set(v: Seq<u16>) -> Set<int> {
    v.map_values(|x: u16| x as int).to_set()
}

/// The half-open interval `[a, b)` of integers.
pub open spec fn interval(a: int, b: int) -> Set<int> {
    Set::new(|i: int| a <= i < b)
}

/// The pages of one part, as the interval of indices they occupy.
fn part_selection(s: &str, chars: &Vec<char>, lo: usize, hi: usize, total: u16) -> (r: Result<
    (usize, usize),
    String,
>)
    requires
        chars@ == s@,
        lo <= hi <= chars.len(),
    ensures
        match part_pages(chars@.subrange(lo as int, hi as int), total as int) {
            Ok(set) => r matches Ok(iv) && iv.0 <= iv.1 <= total && set == interval(
                iv.0 as int,
                iv.1 as int,
            ),
            Err(e) => r matches Err(m) && m@ == e,
        },
{
    let ghost raw = chars@.subrange(lo as int, hi as int);
    let (a, b) = trim_range(chars, lo, hi);
    let ghost part = chars@.subrange(a as int, b as int);
    assert(part == trim(raw));
    if a == b {
        assert(part_pages(raw, total as int) == Ok::<Set<int>, Seq<char>>(Set::empty()));
        assert(interval(0, 0) =~= Set::<int>::empty());
        return Ok((0, 0));
    }
    let (first, last) = if contains_in_range(chars, a, b, '-') {
        let bounds = split_ranges(chars, a, b, '-');
        if bounds.len() != 2 {
            let mut m = owned("Invalid page range: ");
            m.append(s.substring_char(a, b));
            return Err(m);
        }
        let (s0, e0) = bounds[0];
        let (s1, e1) = bounds[1];
        let (t0, u0) = trim_range(chars, s0, e0);
        let start = match parse_u16_range(chars, t0, u0) {
            Some(v) => v,
            None => {
                let mut m = owned("Invalid page number: ");
                m.append(s.substring_char(s0, e0));
                return Err(m);
            },
        };
        let (t1, u1) = trim_range(chars, s1, e1);
        let end = match parse_u16_range(chars, t1, u1) {
            Some(v) => v,
            None => {
                let mut m = owned("Invalid page number: ");
                m.append(s.substring_char(s1, e1));
                return Err(m);
            },
        };
        if start == 0 || end == 0 {
            return Err(owned("Page numbers must be 1-indexed and greater than 0"));
        }
        if start > end {
            let mut m = owned("Start page ");
            push_decimal(&mut m, start as u64);
            m.append(" is greater than end page ");
            push_decimal(&mut m, end as u64);
            return Err(m);
        }
        (start, end)
    } else {
        let p = match parse_u16_range(chars, a, b) {
            Some(v) => v,
            None => {
                let mut m = owned("Invalid page number: ");
                m.append(s.substring_char(a, b));
                return Err(m);
            },
        };
        if p == 0 {
            return Err(owned("Page numbers must be 1-indexed and greater than 0"));
        }
        (p, p)
    };
    let lo_idx: usize = (first - 1) as usize;
    let hi_idx: usize = if last <= total {
        last as usize
    } else {
        total as usize
    };
    if lo_idx >= hi_idx {
        assert(page_indices(first as int, last as int, total as int) =~= interval(0, 0));
        Ok((0, 0))
    } else {
        assert(page_indices(first as int, last as int, total as int) =~= interval(
            lo_idx as int,
            hi_idx as int,
        ));
        Ok((lo_idx, hi_idx))
    }
}

/// Parses a page list such as `1,3-5` into the 0-based indices of the selected
/// pages that exist in a document of `total_pages` pages, in increasing order
/// and without repetition.
pub fn parse_pages(pages_str: &str, total_pages: u16) -> (r: Result<Vec<u16>, String>)
    ensures
        match spec_parse_pages(pages_str@, total_pages as int) {
            Ok(set) => r matches Ok(v) && strictly_increasing(v@) && index_set(v@) == set,
            Err(e) => r matches Err(m) && m@ == e,
        },
{
    let chars = chars_of(pages_str);
    let parts = split_ranges(&chars, 0, chars.len(), ',');
    let ghost all_parts = split_on(chars@.subrange(0, chars.len() as int), ',');
    assert(chars@.subrange(0, chars.len() as int) =~= pages_str@);
    let mut flags: Vec<bool> = Vec::new();
    let mut n: usize = 0;
    while n < total_pages as usize
        invariant
            n <= total_pages,
            flags@.len() == n,
            forall|j: int| 0 <= j < n ==> !flags@[j],
        decreases total_pages - n,
    {
        flags.push(false);
        n = n + 1;
    }
    let mut k: usize = 0;
    while k < parts.len()
        invariant
            chars@ == pages_str@,
            parts@.len() == all_parts.len(),
            all_parts == split_on(pages_str@, ','),
            forall|q: int|
                0 <= q < parts@.len() ==> 0 <= (#[trigger] parts@[q]).0 <= parts@[q].1 <= chars.len()
                    && chars@.subrange(parts@[q].0 as int, parts@[q].1 as int) == all_parts[q],
            k <= parts.len(),
            flags@.len() == total_pages,
            pages_of_parts(all_parts.take(k as int), total_pages as int) matches Ok(sel) && (forall|
                j: int,
            | 0 <= j < total_pages ==> (flags@[j] <==> sel.contains(j))) && (forall|j: int|
                sel.contains(j) ==> 0 <= j < total_pages),
        decreases parts.len() - k,
    {
        let (lo, hi) = parts[k];
        let ghost prev = all_parts.take(k as int);
        let ghost sel = pages_of_parts(prev, total_pages as int)->Ok_0;
        proof {
            assert(all_parts.take(k + 1).drop_last() =~= prev);
            assert(all_parts.take(k + 1).last() == all_parts[k as int]);
        }
        match part_selection(pages_str, &chars, lo, hi, total_pages) {
            Err(m) => {
                proof {
                    lemma_first_error_stays(all_parts, (k + 1) as int, total_pages as int);
                }
                return Err(m);
            },
            Ok((a, b)) => {
                let ghost before = flags@;
                let mut i = a;
                while i < b
                    invariant
                        a <= i <= b <= total_pages,
                        flags@.len() == total_pages,
                        before.len() == total_pages,
                        forall|j: int|
                            0 <= j < total_pages ==> (flags@[j] <==> (before[j] || (a <= j < i))),
                    decreases b - i,
                {
                    flags.set(i, true);
                    i = i + 1;
                }
                proof {
                    let t = interval(a as int, b as int);
                    assert forall|j: int| 0 <= j < total_pages implies (flags@[j] <==> sel.union(t).contains(j)) by {
                        assert(before[j] <==> sel.contains(j));
                    }
                    assert(pages_of_parts(all_parts.take(k + 1), total_pages as int) == Ok::<
                        Set<int>,
                        Seq<char>,
                    >(sel.union(t)));
                }
            },
        }
        k = k + 1;
    }
    assert(all_parts.take(parts.len() as int) =~= all_parts);
    let ghost sel = pages_of_parts(all_parts, total_pages as int)->Ok_0;
    let mut out: Vec<u16> = Vec::new();
    let mut i: usize = 0;
    while i < total_pages as usize
        invariant
            i <= total_pages,
            flags@.len() == total_pages,
            strictly_increasing(out@),
            forall|q: int| 0 <= q < out@.len() ==> out@[q] < i,
            forall|j: int| 0 <= j < i ==> (flags@[j] <==> index_set(out@).contains(j)),
            forall|j: int| index_set(out@).contains(j) ==> 0 <= j < i,
        decreases total_pages - i,
    {
        let ghost old_out = out@;
        if flags[i] {
            out.push(i as u16);
            proof {
                assert(out@.map_values(|x: u16| x as int) =~= old_out.map_values(|x: u16| x as int).push(
                    i as int,
                ));
                lemma_to_set_push(old_out.map_values(|x: u16| x as int), i as int);
                assert(index_set(out@) =~= index_set(old_out).insert(i as int));
            }
        } else {
            assert(!index_set(out@).contains(i as int));
        }
        proof {
            assert forall|j: int| index_set(out@).contains(j) implies 0 <= j < i + 1 by {
                let mv = out@.map_values(|x: u16| x as int);
                let q = choose|q: int| 0 <= q < mv.len() && mv[q] == j;
            }
        }
        i = i + 1;
    }
    proof {
        assert(index_set(out@) =~= sel);
    }
    Ok(out)
}

proof fn lemma_to_set_push(s: Seq<int>, x: int)
    ensures
        s.push(x).to_set() =~= s.to_set().insert(x),
{
    assert forall|a: int| s.push(x).to_set().contains(a) implies s.to_set().insert(x).contains(a) by {
        let q = choose|q: int| 0 <= q < s.push(x).len() && s.push(x)[q] == a;
        if q < s.len() {
            assert(s[q] == a);
        }
    }
    assert forall|a: int| s.to_set().insert(x).contains(a) implies s.push(x).to_set().contains(a) by {
        if a == x {
            assert(s.push(x)[s.len() as int] == a);
        } else {
            let q = choose|q: int| 0 <= q < s.len() && s[q] == a;
            assert(s.push(x)[q] == a);
        }
    }
}

/// Once a prefix of the parts is refused, every longer prefix is refused with
/// the same message.
proof fn lemma_first_error_stays(parts: Seq<Seq<char>>, k: int, total: int)
    requires
        0 < k <= parts.len(),
        pages_of_parts(parts.take(k), total) is Err,
    ensures
        pages_of_parts(parts, total) == pages_of_parts(parts.take(k), total),
    decreases parts.len() - k,
{
    if k < parts.len() {
        assert(parts.take(k + 1).drop_last() =~= parts.take(k));
        lemma_first_error_stays(parts, k + 1, total);
    } else {
        assert(parts.take(k) =~= parts);
    }
}

} // verus!
