//! Decimal integers as the upstream API writes them.

use vstd::prelude::*;

verus! {

pub open spec fn is_digit(c: char) -> bool {
    '0' <= c <= '9'
}

pub open spec fn digit_value(c: char) -> int {
    (c as int) - ('0' as int)
}

pub open spec fn all_digits(s: Seq<char>) -> bool {
    forall|i: int| 0 <= i < s.len() ==> is_digit(#[trigger] s[i])
}

/// The value of a string of decimal digits, most significant first.
pub open spec fn digits_value(s: Seq<char>) -> int
    decreases s.len(),
{
    if s.len() == 0 {
        0
    } else {
        digits_value(s.drop_last()) * 10 + digit_value(s.last())
    }
}

/// The integer that `s` writes: an optional sign, then at least one digit.
pub open spec fn decimal_value(s: Seq<char>) -> Option<int> {
    if s.len() > 1 && s[0] == '-' && all_digits(s.drop_first()) {
        Some(-digits_value(s.drop_first()))
    } else if s.len() > 1 && s[0] == '+' && all_digits(s.drop_first()) {
        Some(digits_value(s.drop_first()))
    } else if s.len() > 0 && all_digits(s) {
        Some(digits_value(s))
    } else {
        None
    }
}

/// The `i64` that `s` writes, if it writes one in range.
pub open spec fn i64_of(s: Seq<char>) -> Option<i64> {
    match decimal_value(s) {
        Some(v) => if i64::MIN <= v <= i64::MAX {
            Some(v as i64)
        } else {
            None
        },
        None => None,
    }
}

proof fn lemma_digits_nonneg(s: Seq<char>)
    requires
        all_digits(s),
    ensures
        digits_value(s) >= 0,
    decreases s.len(),
{
    if s.len() > 0 {
        lemma_digits_nonneg(s.drop_last());
    }
}

proof fn lemma_digits_grow(s: Seq<char>, j: int, k: int)
    requires
        all_digits(s),
        0 <= j <= k <= s.len(),
    ensures
        digits_value(s.subrange(0, j)) <= digits_value(s.subrange(0, k)),
    decreases k - j,
{
    if j < k {
        lemma_digits_grow(s, j, k - 1);
        let t = s.subrange(0, k);
        assert(t.drop_last() =~= s.subrange(0, k - 1));
        lemma_digits_nonneg(s.subrange(0, k - 1));
    }
}

/// The value of the digits of `s` from `from` on, or `None` when that value
/// exceeds `bound` (or a character is no digit).
fn digits_up_to(s: &str, from: usize, bound: i128) -> (r: Option<i128>)
    requires
        from <= s@.len(),
        0 <= bound <= i64::MAX as i128 + 1,
    ensures
        r matches Some(v) ==> all_digits(s@.skip(from as int)) && v == digits_value(
            s@.skip(from as int),
        ) && 0 <= v <= bound,
        r is None ==> !all_digits(s@.skip(from as int)) || digits_value(s@.skip(from as int))
            > bound,
{
    let n = s.unicode_len();
    let ghost t = s@.skip(from as int);
    let mut i: usize = from;
    let mut acc: i128 = 0;
    while i < n
        invariant
            n == s@.len(),
            from <= i <= n,
            t == s@.skip(from as int),
            all_digits(t.subrange(0, i - from)),
            acc == digits_value(t.subrange(0, i - from)),
            0 <= acc <= bound,
            0 <= bound <= i64::MAX as i128 + 1,
        decreases n - i,
    {
        let c = s.get_char(i);
        assert(t[i - from] == c);
        if c < '0' || c > '9' {
            return None;
        }
        let d = (c as u32 - '0' as u32) as i128;
        let ghost pre = t.subrange(0, i - from);
        let ghost next = t.subrange(0, i - from + 1);
        assert(next.drop_last() =~= pre);
        assert(next.last() == c);
        assert(all_digits(next)) by {
            assert forall|k: int| 0 <= k < next.len() implies is_digit(#[trigger] next[k]) by {
                if k < pre.len() {
                    assert(next[k] == pre[k]);
                }
            }
        }
        acc = acc * 10 + d;
        i = i + 1;
        if acc > bound {
            proof {
                if all_digits(t) {
                    assert(t.subrange(0, t.len() as int) =~= t);
                    lemma_digits_grow(t, i - from, t.len() as int);
                }
            }
            return None;
        }
    }
    assert(t.subrange(0, i - from) =~= t);
    Some(acc)
}

/// Parses a decimal `i64`: an optional `+` or `-`, then digits.
pub fn parse_i64(s: &str) -> (r: Option<i64>)
    ensures
        r == i64_of(s@),
{
    let n = s.unicode_len();
    if n == 0 {
        return None;
    }
    let c0 = s.get_char(0);
    let neg = c0 == '-';
    let signed = c0 == '-' || c0 == '+';
    if signed && n == 1 {
        return None;
    }
    let from: usize = if signed { 1 } else { 0 };
    let bound: i128 = if neg { i64::MAX as i128 + 1 } else { i64::MAX as i128 };
    let v = digits_up_to(s, from, bound);
    proof {
        assert(s@.skip(0) =~= s@);
        assert(s@.skip(1) =~= s@.drop_first());
        if signed {
            // a sign is no digit
            assert(!is_digit(s@[0]));
        }
        if !signed {
            assert(s@[0] != '-' && s@[0] != '+');
        }
        if all_digits(s@.skip(from as int)) {
            lemma_digits_nonneg(s@.skip(from as int));
        }
    }
    match v {
        Some(v) => {
            if neg {
                Some((-v) as i64)
            } else {
                Some(v as i64)
            }
        },
        None => None,
    }
}

} // verus!
