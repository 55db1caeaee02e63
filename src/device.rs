//! Reading the display size out of the output of busybox `fbset`.
//!
//! The fourth line of that output reads `\tgeometry <width> <height> ...`;
//! split at single spaces, its second and third pieces are the width and
//! height in decimal.

use vstd::prelude::*;

verus! {

/// The pieces of `s` between occurrences of `sep`, as `str::split` gives
/// them: there is one piece more than there are separators.
pub open spec fn split(s: Seq<u8>, sep: u8) -> Seq<Seq<u8>>
    decreases s.len(),
{
    if s.len() == 0 {
        seq![Seq::empty()]
    } else {
        let rest = split(s.drop_first(), sep);
        if s[0] == sep {
            seq![Seq::empty()] + rest
        } else {
            rest.update(0, seq![s[0]] + rest[0])
        }
    }
}

/// Every byte is an ASCII digit.
pub open spec fn all_digits(s: Seq<u8>) -> bool {
    forall|i: int| 0 <= i < s.len() ==> 48 <= #[trigger] s[i] <= 57
}

/// The number written by the decimal digits `s`.
pub open spec fn decimal(s: Seq<u8>) -> int
    decreases s.len(),
{
    if s.len() == 0 {
        0
    } else {
        decimal(s.drop_last()) * 10 + (s.last() - 48)
    }
}

/// The `u32` that `s` writes in decimal, with an optional leading `+`, as
/// `u32::from_str` reads it.
pub open spec fn parse_u32_spec(s: Seq<u8>) -> Option<u32> {
    let digits = if s.len() > 0 && s[0] == 43 {
        s.drop_first()
    } else {
        s
    };
    if digits.len() == 0 || !all_digits(digits) || decimal(digits) > u32::MAX {
        None
    } else {
        Some(decimal(digits) as u32)
    }
}

/// Width and height from `fbset` output.
pub open spec fn fbset_geometry_spec(out: Seq<u8>) -> Option<(u32, u32)> {
    let lines = split(out, 10);
    if lines.len() <= 3 {
        None
    } else {
        let fields = split(lines[3], 32);
        if fields.len() <= 2 {
            None
        } else {
            match (parse_u32_spec(fields[1]), parse_u32_spec(fields[2])) {
                (Some(w), Some(h)) => Some((w, h)),
                _ => None,
            }
        }
    }
}

proof fn lemma_split_len(s: Seq<u8>, sep: u8)
    ensures
        split(s, sep).len() >= 1,
    decreases s.len(),
{
    if s.len() > 0 {
        lemma_split_len(s.drop_first(), sep);
    }
}

/// Splitting at the first separator, at index `i`, or where there is none.
proof fn lemma_split_first(t: Seq<u8>, sep: u8, i: int)
    requires
        0 <= i <= t.len(),
        forall|k: int| 0 <= k < i ==> #[trigger] t[k] != sep,
        i < t.len() ==> t[i] == sep,
    ensures
        i < t.len() ==> split(t, sep) == seq![t.take(i)] + split(t.skip(i + 1), sep),
        i == t.len() ==> split(t, sep) == seq![t],
    decreases i,
{
    if i == 0 {
        if t.len() == 0 {
            assert(t =~= Seq::<u8>::empty());
        } else {
            assert(t.take(0) =~= Seq::<u8>::empty());
            assert(t.skip(1) =~= t.drop_first());
        }
    } else {
        let u = t.drop_first();
        assert forall|k: int| 0 <= k < i - 1 implies #[trigger] u[k] != sep by {
            assert(u[k] == t[k + 1]);
        }
        lemma_split_first(u, sep, i - 1);
        lemma_split_len(u, sep);
        let rest = split(u, sep);
        assert(t[0] != sep);
        if i < t.len() {
            assert(seq![t[0]] + u.take(i - 1) =~= t.take(i));
            assert(u.skip(i) =~= t.skip(i + 1));
            assert(rest.update(0, seq![t[0]] + rest[0]) =~= seq![t.take(i)] + split(
                t.skip(i + 1),
                sep,
            ));
        } else {
            assert(seq![t[0]] + u =~= t);
            assert(rest.update(0, seq![t[0]] + rest[0]) =~= seq![t]);
        }
    }
}

/// The first index in `from..end` that holds `sep`, or `end`.
fn next_sep(s: &[u8], from: usize, end: usize, sep: u8) -> (r: usize)
    requires
        from <= end <= s@.len(),
    ensures
        from <= r <= end,
        forall|k: int| from <= k < r ==> #[trigger] s@[k] != sep,
        r < end ==> s@[r as int] == sep,
{
    let mut i = from;
    while i < end
        invariant
            from <= i <= end <= s@.len(),
            forall|k: int| from <= k < i ==> #[trigger] s@[k] != sep,
        decreases end - i,
    {
        if s[i] == sep {
            return i;
        }
        i = i + 1;
    }
    i
}

/// The bounds of piece `n` of `s[start..end]` split at `sep`.
fn piece(s: &[u8], start: usize, end: usize, sep: u8, n: usize) -> (r: Option<(usize, usize)>)
    requires
        start <= end <= s@.len(),
    ensures
        match r {
            Some((a, b)) => {
                &&& start <= a <= b <= end
                &&& n < split(s@.subrange(start as int, end as int), sep).len()
                &&& s@.subrange(a as int, b as int) == split(
                    s@.subrange(start as int, end as int),
                    sep,
                )[n as int]
            },
            None => n >= split(s@.subrange(start as int, end as int), sep).len(),
        },
{
    let ghost whole = split(s@.subrange(start as int, end as int), sep);
    let mut p = start;
    let mut k: usize = 0;
    while k < n
        invariant
            k <= n,
            start <= p <= end <= s@.len(),
            whole == split(s@.subrange(start as int, end as int), sep),
            whole.len() == k + split(s@.subrange(p as int, end as int), sep).len(),
            forall|j: int|
                0 <= j < split(s@.subrange(p as int, end as int), sep).len() ==> whole[k + j]
                    == #[trigger] split(s@.subrange(p as int, end as int), sep)[j],
        decreases n - k,
    {
        let q = next_sep(s, p, end, sep);
        let ghost t = s@.subrange(p as int, end as int);
        proof {
            lemma_split_first(t, sep, q - p);
        }
        if q == end {
            proof {
                assert(t.len() == q - p);
            }
            return None;
        }
        proof {
            assert(t.skip(q - p + 1) =~= s@.subrange(q + 1, end as int));
            let rest = split(s@.subrange(q + 1, end as int), sep);
            assert forall|j: int| 0 <= j < rest.len() implies whole[(k + 1) + j] == #[trigger] rest[j] by {
                assert(split(t, sep)[j + 1] == rest[j]);
            }
        }
        p = q + 1;
        k = k + 1;
    }
    let q = next_sep(s, p, end, sep);
    let ghost t = s@.subrange(p as int, end as int);
    proof {
        lemma_split_first(t, sep, q - p);
        if q < end {
            assert(t.take(q - p) =~= s@.subrange(p as int, q as int));
        } else {
            assert(t =~= s@.subrange(p as int, q as int));
        }
        assert(whole[k + 0] == split(t, sep)[0]);
    }
    Some((p, q))
}

proof fn lemma_decimal_prefix(t: Seq<u8>, j: int)
    requires
        0 <= j <= t.len(),
        all_digits(t),
    ensures
        0 <= decimal(t.take(j)) <= decimal(t),
    decreases t.len() - j,
{
    if j < t.len() {
        lemma_decimal_prefix(t, j + 1);
        assert(t.take(j + 1).drop_last() =~= t.take(j));
        assert(48 <= t[j] <= 57);
    } else {
        assert(t.take(j) =~= t);
        lemma_decimal_nonneg(t);
    }
}

proof fn lemma_decimal_nonneg(t: Seq<u8>)
    requires
        all_digits(t),
    ensures
        decimal(t) >= 0,
    decreases t.len(),
{
    if t.len() > 0 {
        let u = t.drop_last();
        assert forall|i: int| 0 <= i < u.len() implies 48 <= #[trigger] u[i] <= 57 by {
            assert(u[i] == t[i]);
        }
        lemma_decimal_nonneg(u);
        assert(48 <= t[t.len() - 1] <= 57);
    }
}

/// The `u32` written in decimal in `s[start..end]`.
fn parse_u32(s: &[u8], start: usize, end: usize) -> (r: Option<u32>)
    requires
        start <= end <= s@.len(),
    ensures
        r == parse_u32_spec(s@.subrange(start as int, end as int)),
{
    let ghost whole = s@.subrange(start as int, end as int);
    let mut i = start;
    if i < end && s[i] == 43 {
        i = i + 1;
    }
    let first = i;
    let ghost digits = s@.subrange(first as int, end as int);
    proof {
        if first > start {
            assert(whole.drop_first() =~= digits);
        } else {
            assert(whole =~= digits);
        }
    }
    if i == end {
        return None;
    }
    let mut acc: u64 = 0;
    while i < end
        invariant
            start <= first <= i <= end <= s@.len(),
            digits == s@.subrange(first as int, end as int),
            whole == s@.subrange(start as int, end as int),
            digits.len() > 0,
            parse_u32_spec(whole) == (if !all_digits(digits) || decimal(digits) > u32::MAX {
                None
            } else {
                Some(decimal(digits) as u32)
            }),
            all_digits(s@.subrange(first as int, i as int)),
            acc as int == decimal(s@.subrange(first as int, i as int)),
            acc <= u32::MAX,
        decreases end - i,
    {
        let c = s[i];
        if c < 48 || c > 57 {
            proof {
                assert(digits[i - first] == c);
                assert(!all_digits(digits));
            }
            return None;
        }
        let ghost before = s@.subrange(first as int, i as int);
        let ghost after = s@.subrange(first as int, i + 1);
        proof {
            assert(after.drop_last() =~= before);
            assert(after.last() == c);
            assert forall|k: int| 0 <= k < after.len() implies 48 <= #[trigger] after[k] <= 57 by {
                if k < before.len() {
                    assert(after[k] == before[k]);
                }
            }
        }
        acc = acc * 10 + (c - 48) as u64;
        if acc > u32::MAX as u64 {
            proof {
                if all_digits(digits) {
                    lemma_decimal_prefix(digits, i + 1 - first);
                    assert(digits.take(i + 1 - first) =~= after);
                    assert(decimal(after) > u32::MAX);
                }
            }
            return None;
        }
        i = i + 1;
    }
    proof {
        assert(s@.subrange(first as int, i as int) =~= digits);
    }
    Some(acc as u32)
}

/// Width and height from the output of busybox `fbset`: pieces two and three
/// of the fourth line, split at spaces.
pub fn parse_fbset_geometry(out: &[u8]) -> (r: Option<(u32, u32)>)
    ensures
        r == fbset_geometry_spec(out@),
{
    let len = out.len();
    proof {
        assert(out@.subrange(0, len as int) =~= out@);
    }
    let (a, b) = match piece(out, 0, len, 10, 3) {
        Some(bounds) => bounds,
        None => return None,
    };
    let (c, d) = match piece(out, a, b, 32, 1) {
        Some(bounds) => bounds,
        None => return None,
    };
    let (e, f) = match piece(out, a, b, 32, 2) {
        Some(bounds) => bounds,
        None => return None,
    };
    let w = parse_u32(out, c, d);
    let h = parse_u32(out, e, f);
    match (w, h) {
        (Some(w), Some(h)) => Some((w, h)),
        _ => None,
    }
}

} // verus!
