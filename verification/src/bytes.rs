//! Small operations on byte strings: scanning, trimming, ASCII case, and
//! decimal numbers.

use vstd::prelude::*;

verus! {

/// ASCII white space: space, tab, line feed, vertical tab, form feed and
/// carriage return.
pub open spec fn is_space(b: u8) -> bool {
    b == 32 || 9 <= b <= 13
}

/// The number of bytes at the start of `s` that are white space.
pub open spec fn leading_spaces(s: Seq<u8>) -> nat
    decreases s.len(),
{
    if s.len() > 0 && is_space(s[0]) {
        1 + leading_spaces(s.skip(1))
    } else {
        0
    }
}

/// The number of bytes at the end of `s` that are white space.
pub open spec fn trailing_spaces(s: Seq<u8>) -> nat
    decreases s.len(),
{
    if s.len() > 0 && is_space(s.last()) {
        1 + trailing_spaces(s.drop_last())
    } else {
        0
    }
}

/// `s` without the white space at its start and at its end.
pub open spec fn trimmed(s: Seq<u8>) -> Seq<u8> {
    if leading_spaces(s) == s.len() {
        Seq::empty()
    } else {
        s.subrange(leading_spaces(s) as int, s.len() - trailing_spaces(s))
    }
}

/// The index of the first `b` in `s`, or the length of `s` where it holds none.
pub open spec fn position(s: Seq<u8>, b: u8) -> nat
    decreases s.len(),
{
    if s.len() > 0 && s[0] != b {
        1 + position(s.skip(1), b)
    } else {
        0
    }
}

/// `leading_spaces` is the index of the first byte that is not white space.
pub proof fn lemma_leading_spaces(s: Seq<u8>, a: int)
    requires
        0 <= a <= s.len(),
        forall|j: int| 0 <= j < a ==> is_space(#[trigger] s[j]),
        a < s.len() ==> !is_space(s[a]),
    ensures
        leading_spaces(s) == a,
    decreases a,
{
    if a > 0 {
        let t = s.skip(1);
        assert forall|j: int| 0 <= j < a - 1 implies is_space(#[trigger] t[j]) by {
            assert(t[j] == s[j + 1]);
        }
        lemma_leading_spaces(t, a - 1);
    }
}

/// `trailing_spaces` counts back to the last byte that is not white space.
pub proof fn lemma_trailing_spaces(s: Seq<u8>, b: int)
    requires
        0 <= b <= s.len(),
        forall|j: int| b <= j < s.len() ==> is_space(#[trigger] s[j]),
        b > 0 ==> !is_space(s[b - 1]),
    ensures
        trailing_spaces(s) == s.len() - b,
    decreases s.len() - b,
{
    if b < s.len() {
        let t = s.drop_last();
        assert forall|j: int| b <= j < t.len() implies is_space(#[trigger] t[j]) by {
            assert(t[j] == s[j]);
        }
        lemma_trailing_spaces(t, b);
    }
}

/// `position` is the index of the first occurrence.
pub proof fn lemma_position(s: Seq<u8>, b: u8, i: int)
    requires
        0 <= i <= s.len(),
        forall|j: int| 0 <= j < i ==> #[trigger] s[j] != b,
        i < s.len() ==> s[i] == b,
    ensures
        position(s, b) == i,
    decreases i,
{
    if i > 0 {
        let t = s.skip(1);
        assert forall|j: int| 0 <= j < i - 1 implies #[trigger] t[j] != b by {
            assert(t[j] == s[j + 1]);
        }
        lemma_position(t, b, i - 1);
    }
}

/// Whether `b` is ASCII white space.
pub fn space(b: u8) -> (r: bool)
    ensures
        r == is_space(b),
{
    b == 32 || (9 <= b && b <= 13)
}

/// The part of `s` between its leading and its trailing white space.
pub fn trim(s: &[u8]) -> (r: &[u8])
    ensures
        r@ == trimmed(s@),
{
    let mut a: usize = 0;
    while a < s.len() && space(s[a])
        invariant
            a <= s.len(),
            forall|j: int| 0 <= j < a ==> is_space(#[trigger] s@[j]),
        decreases s.len() - a,
    {
        a += 1;
    }
    proof {
        lemma_leading_spaces(s@, a as int);
    }
    if a == s.len() {
        let r = vstd::slice::slice_subrange(s, 0, 0);
        assert(r@ =~= Seq::<u8>::empty());
        return r;
    }
    let mut b: usize = s.len();
    while b > a + 1 && space(s[b - 1])
        invariant
            a < b <= s.len(),
            forall|j: int| b <= j < s.len() ==> is_space(#[trigger] s@[j]),
        decreases b,
    {
        b -= 1;
    }
    proof {
        lemma_trailing_spaces(s@, b as int);
    }
    vstd::slice::slice_subrange(s, a, b)
}

/// The index of the first `b` in `s`, or the length of `s`.
pub fn find(s: &[u8], b: u8) -> (r: usize)
    ensures
        r == position(s@, b),
        r <= s.len(),
{
    let mut i: usize = 0;
    while i < s.len() && s[i] != b
        invariant
            i <= s.len(),
            forall|j: int| 0 <= j < i ==> #[trigger] s@[j] != b,
        decreases s.len() - i,
    {
        i += 1;
    }
    proof {
        lemma_position(s@, b, i as int);
    }
    i
}

/// The lower-case form of an ASCII capital letter; any other byte as it is.
pub open spec fn lower(b: u8) -> u8 {
    if 65 <= b <= 90 {
        (b + 32) as u8
    } else {
        b
    }
}

/// `s` with each ASCII capital letter in lower case.
pub open spec fn lowered(s: Seq<u8>) -> Seq<u8> {
    Seq::new(s.len(), |i: int| lower(s[i]))
}

/// The lower-case form of `b`.
pub fn to_lower(b: u8) -> (r: u8)
    ensures
        r == lower(b),
{
    if 65 <= b && b <= 90 {
        b + 32
    } else {
        b
    }
}

/// Whether `a` and `b` are equal up to the case of ASCII letters.
pub fn eq_ignore_case(a: &[u8], b: &[u8]) -> (r: bool)
    ensures
        r == (lowered(a@) == lowered(b@)),
{
    if a.len() != b.len() {
        assert(lowered(a@).len() != lowered(b@).len());
        return false;
    }
    let mut i: usize = 0;
    while i < a.len()
        invariant
            i <= a.len(),
            a.len() == b.len(),
            forall|j: int| 0 <= j < i ==> lower(#[trigger] a@[j]) == lower(b@[j]),
        decreases a.len() - i,
    {
        if to_lower(a[i]) != to_lower(b[i]) {
            assert(lowered(a@)[i as int] != lowered(b@)[i as int]);
            return false;
        }
        i += 1;
    }
    assert(lowered(a@) =~= lowered(b@));
    true
}

/// A decimal digit in ASCII.
pub open spec fn is_digit(b: u8) -> bool {
    48 <= b <= 57
}

/// Whether every byte of `s` is a decimal digit.
pub open spec fn all_digits(s: Seq<u8>) -> bool {
    forall|i: int| 0 <= i < s.len() ==> is_digit(#[trigger] s[i])
}

/// The number that a string of decimal digits denotes; 0 for the empty string.
pub open spec fn digits_value(s: Seq<u8>) -> nat
    decreases s.len(),
{
    if s.len() == 0 {
        0
    } else {
        digits_value(s.drop_last()) * 10 + (s.last() - 48) as nat
    }
}

/// The decimal digits of `n`, without leading zeros.
pub open spec fn decimal(n: nat) -> Seq<u8>
    decreases n,
{
    if n < 10 {
        seq![(48 + n) as u8]
    } else {
        decimal(n / 10).push((48 + n % 10) as u8)
    }
}

/// The number that `s` spells: an optional `+`, then one decimal digit or
/// more. `None` for any other string.
pub open spec fn parse_decimal(s: Seq<u8>) -> Option<nat> {
    let d = if s.len() > 0 && s[0] == 43 {
        s.skip(1)
    } else {
        s
    };
    if d.len() > 0 && all_digits(d) {
        Some(digits_value(d))
    } else {
        None
    }
}

/// The digits of a number are digits, and denote the number.
pub proof fn lemma_decimal(n: nat)
    ensures
        decimal(n).len() > 0,
        all_digits(decimal(n)),
        digits_value(decimal(n)) == n,
        parse_decimal(decimal(n)) == Some(n),
    decreases n,
{
    if n < 10 {
        let s = decimal(n);
        assert(s.drop_last() =~= Seq::<u8>::empty());
        assert(digits_value(s.drop_last()) == 0);
    } else {
        lemma_decimal(n / 10);
        let s = decimal(n);
        assert(s.drop_last() =~= decimal(n / 10));
        assert(s.last() == (48 + n % 10) as u8);
        assert(is_digit(decimal(n / 10)[0]));
    }
    assert(is_digit(decimal(n)[0]));
}

/// A string of digits denotes at least what any of its prefixes denotes.
pub proof fn lemma_prefix_value(s: Seq<u8>, i: int)
    requires
        0 <= i <= s.len(),
        all_digits(s),
    ensures
        digits_value(s.subrange(0, i)) <= digits_value(s),
    decreases s.len() - i,
{
    if i == s.len() {
        assert(s.subrange(0, i) =~= s);
    } else {
        let t = s.drop_last();
        assert(t.subrange(0, i) =~= s.subrange(0, i));
        assert(is_digit(s[s.len() - 1]));
        lemma_prefix_value(t, i);
    }
}

/// Reads a decimal number that fits `usize`.
pub fn parse_usize(s: &[u8]) -> (r: Option<usize>)
    ensures
        r == (match parse_decimal(s@) {
            Some(n) if n <= usize::MAX => Some(n as usize),
            _ => None,
        }),
{
    let start: usize = if s.len() > 0 && s[0] == 43 {
        1
    } else {
        0
    };
    let ghost d = s@.skip(start as int);
    proof {
        if start == 0 {
            assert(d =~= s@);
        }
    }
    if start == s.len() {
        return None;
    }
    let mut acc: usize = 0;
    let mut i: usize = start;
    while i < s.len()
        invariant
            start <= i <= s.len(),
            d == s@.skip(start as int),
            parse_decimal(s@) == (if d.len() > 0 && all_digits(d) {
                Some(digits_value(d))
            } else {
                None
            }),
            all_digits(d.subrange(0, i - start)),
            acc == digits_value(d.subrange(0, i - start)),
        decreases s.len() - i,
    {
        let b = s[i];
        let ghost before = d.subrange(0, i - start);
        let ghost after = d.subrange(0, i + 1 - start);
        proof {
            assert(after.drop_last() =~= before);
            assert(after.last() == b);
        }
        if !(48 <= b && b <= 57) {
            assert(!is_digit(d[i - start]));
            return None;
        }
        let digit: usize = (b - 48) as usize;
        if acc > (usize::MAX - digit) / 10 {
            proof {
                assert(digits_value(after) > usize::MAX);
                if all_digits(d) {
                    lemma_prefix_value(d, i + 1 - start);
                }
            }
            return None;
        }
        acc = acc * 10 + digit;
        i += 1;
        proof {
            assert forall|j: int| 0 <= j < after.len() implies is_digit(#[trigger] after[j]) by {
                if j < before.len() {
                    assert(after[j] == before[j]);
                }
            }
        }
    }
    assert(d.subrange(0, i - start) =~= d);
    Some(acc)
}

/// Appends the decimal digits of `n` to `out`.
pub fn write_decimal(n: usize, out: &mut Vec<u8>)
    ensures
        final(out)@ == old(out)@ + decimal(n as nat),
    decreases n,
{
    if n >= 10 {
        write_decimal(n / 10, out);
    }
    let digit: u8 = (n % 10) as u8;
    out.push(48 + digit);
    assert(final(out)@ =~= old(out)@ + decimal(n as nat));
}

} // verus!
