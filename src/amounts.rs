//! Monetary amounts as the store sends them: decimal text such as `2500.00`,
//! read into whole currency units.
use vstd::prelude::*;
use crate::text::chars_of;

verus! {

pub open spec fn is_digit(c: char) -> bool {
    '0' <= c && c <= '9'
}

/// Value of a run of decimal digits.
pub open spec fn digits_value(cs: Seq<char>) -> nat
    decreases cs.len(),
{
    if cs.len() == 0 {
        0
    } else {
        digits_value(cs.drop_last()) * 10 + (cs.last() as nat - '0' as nat) as nat
    }
}

/// Position of the first `.` in `cs`, or its length when there is none.
pub open spec fn dot_position(cs: Seq<char>) -> nat
    decreases cs.len(),
{
    if cs.len() == 0 {
        0
    } else if cs[0] == '.' {
        0
    } else {
        1 + dot_position(cs.drop_first())
    }
}

/// The digits after the first `.` of `cs`, empty when there is none.
pub open spec fn fraction_of(cs: Seq<char>) -> Seq<char> {
    if dot_position(cs) < cs.len() {
        cs.skip(dot_position(cs) + 1int)
    } else {
        Seq::empty()
    }
}

/// The whole-unit amount that decimal text `cs` writes: one or more digits,
/// optionally followed by a point and fractional digits that are all zero,
/// within the range of `u64`; `None` for any other text.
///
/// Amounts are kept in whole currency units throughout, and every amount an
/// order stores is whole, so a non-zero fraction such as `12.50` is text that
/// no order of this library wrote: it is refused here rather than rounded,
/// and the caller decides what a refused amount becomes.
pub open spec fn amount_value(cs: Seq<char>) -> Option<u64> {
    let whole = cs.take(dot_position(cs) as int);
    let fraction = fraction_of(cs);
    if whole.len() > 0 && (forall|i: int| 0 <= i < whole.len() ==> is_digit(#[trigger] whole[i]))
        && (forall|i: int| 0 <= i < fraction.len() ==> #[trigger] fraction[i] == '0')
        && digits_value(whole) <= u64::MAX {
        Some(digits_value(whole) as u64)
    } else {
        None
    }
}

/// The amount that `cs` writes, zero where the text is not a whole-unit
/// amount. This is a deliberate lossy fallback: one unreadable field does not
/// fail a whole listing, and `parse_amount` is there for callers that must
/// tell a refused amount from a zero one.
pub open spec fn amount_or_zero(cs: Seq<char>) -> u64 {
    match amount_value(cs) {
        Some(v) => v,
        None => 0,
    }
}

proof fn lemma_dot_position(cs: Seq<char>, i: int)
    requires
        0 <= i <= cs.len(),
        forall|j: int| 0 <= j < i ==> cs[j] != '.',
        i == cs.len() || cs[i] == '.',
    ensures
        dot_position(cs) == i,
    decreases i,
{
    if i > 0 {
        lemma_dot_position(cs.drop_first(), i - 1);
    }
}

proof fn lemma_digits_monotone(cs: Seq<char>, i: int)
    requires
        0 <= i <= cs.len(),
        forall|j: int| 0 <= j < cs.len() ==> is_digit(#[trigger] cs[j]),
    ensures
        digits_value(cs.take(i)) <= digits_value(cs),
    decreases cs.len(),
{
    if i < cs.len() {
        lemma_digits_monotone(cs.drop_last(), i);
        assert(cs.drop_last().take(i) =~= cs.take(i));
    } else {
        assert(cs.take(i) =~= cs);
    }
}

/// Reads decimal amount text into whole currency units.
pub fn parse_amount(s: &str) -> (r: Option<u64>)
    ensures
        r == amount_value(s@),
{
    let cs = chars_of(s);
    let n = cs.len();
    let mut k: usize = 0;
    while k < n && cs[k] != '.'
        invariant
            cs@ == s@,
            n == cs@.len(),
            k <= n,
            forall|j: int| 0 <= j < k ==> cs@[j] != '.',
        decreases n - k,
    {
        k = k + 1;
    }
    proof {
        lemma_dot_position(cs@, k as int);
    }
    let ghost whole = cs@.take(k as int);
    if k == 0 {
        return None;
    }
    let mut value: u64 = 0;
    let mut i: usize = 0;
    while i < k
        invariant
            cs@ == s@,
            n == cs@.len(),
            k <= n,
            i <= k,
            whole == cs@.take(k as int),
            dot_position(cs@) == k,
            value == digits_value(whole.take(i as int)),
            forall|j: int| 0 <= j < i ==> is_digit(#[trigger] whole[j]),
        decreases k - i,
    {
        let c = cs[i];
        assert(whole.take(i + 1).drop_last() =~= whole.take(i as int));
        assert(whole[i as int] == c);
        if c < '0' || c > '9' {
            assert(!is_digit(whole[i as int]));
            return None;
        }
        let d = (c as u32 - '0' as u32) as u64;
        let grown = match value.checked_mul(10) {
            Some(v) => v.checked_add(d),
            None => None,
        };
        match grown {
            Some(v) => {
                value = v;
            },
            None => {
                proof {
                    let t = whole.take(i + 1);
                    assert(t.drop_last() =~= whole.take(i as int));
                    assert(t.last() == c);
                    assert(digits_value(t) == value * 10 + d);
                    if forall|j: int| 0 <= j < whole.len() ==> is_digit(#[trigger] whole[j]) {
                        lemma_digits_monotone(whole, i + 1);
                    }
                }
                return None;
            },
        }
        i = i + 1;
    }
    assert(whole.take(k as int) =~= whole);
    let mut f: usize = if k < n {
        k + 1
    } else {
        n
    };
    let ghost fraction = fraction_of(cs@);
    let ghost f0 = f;
    while f < n
        invariant
            cs@ == s@,
            n == cs@.len(),
            f0 <= f <= n,
            dot_position(cs@) == k,
            k <= n,
            whole == cs@.take(k as int),
            k > 0,
            value == digits_value(whole),
            forall|j: int| 0 <= j < whole.len() ==> is_digit(#[trigger] whole[j]),
            fraction == fraction_of(cs@),
            f0 == n || (k < n && f0 == k + 1),
            fraction.len() == n - f0,
            forall|j: int| 0 <= j < fraction.len() ==> #[trigger] fraction[j] == cs@[f0 + j],
            forall|j: int| 0 <= j < f - f0 ==> #[trigger] fraction[j] == '0',
        decreases n - f,
    {
        if cs[f] != '0' {
            assert(fraction[f - f0] != '0');
            assert(!(forall|j: int| 0 <= j < fraction.len() ==> #[trigger] fraction[j] == '0'));
            return None;
        }
        f = f + 1;
    }
    Some(value)
}

} // verus!
