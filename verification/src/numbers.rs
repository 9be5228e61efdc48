//! Decimal text: parsing user-entered page numbers and writing numbers into
//! rendered message text.

use vstd::prelude::*;

verus! {

/// Whether `c` is an ASCII decimal digit.
pub open spec fn is_digit_char(c: char) -> bool {
    48 <= c as u32 <= 57
}

/// Numeric value of an ASCII decimal digit.
pub open spec fn digit_value(c: char) -> int {
    c as u32 - 48
}

/// Whether every character of `s` is an ASCII decimal digit.
pub open spec fn all_digits(s: Seq<char>) -> bool {
    forall|k: int| 0 <= k < s.len() ==> is_digit_char(#[trigger] s[k])
}

/// The number written by a sequence of decimal digits, most significant
/// first. An empty sequence counts as 0.
pub open spec fn digits_value(s: Seq<char>) -> int
    decreases s.len(),
{
    if s.len() == 0 {
        0
    } else {
        digits_value(s.drop_last()) * 10 + digit_value(s.last())
    }
}

/// What parsing a decimal string yields: the written number, unless the
/// string is empty, holds a non-digit, or exceeds `usize::MAX`.
pub open spec fn spec_parse_usize(s: Seq<char>) -> Option<int> {
    if s.len() > 0 && all_digits(s) && digits_value(s) <= usize::MAX {
        Some(digits_value(s))
    } else {
        None
    }
}

/// A digit string never denotes a negative number.
pub proof fn lemma_digits_value_nonneg(s: Seq<char>)
    requires
        all_digits(s),
    ensures
        digits_value(s) >= 0,
    decreases s.len(),
{
    if s.len() > 0 {
        assert(all_digits(s.drop_last())) by {
            assert(forall|k: int| 0 <= k < s.len() - 1 ==> s.drop_last()[k] == s[k]);
        }
        lemma_digits_value_nonneg(s.drop_last());
    }
}

/// Extending a digit string to the right never shrinks its value.
pub proof fn lemma_digits_value_prefix(s: Seq<char>, k: int)
    requires
        all_digits(s),
        0 <= k <= s.len(),
    ensures
        digits_value(s.take(k)) <= digits_value(s),
    decreases s.len() - k,
{
    if k == s.len() {
        assert(s.take(k) =~= s);
    } else {
        assert(all_digits(s.take(k)) && all_digits(s.take(k + 1))) by {
            assert(forall|j: int| 0 <= j < k + 1 ==> s.take(k + 1)[j] == s[j]);
            assert(forall|j: int| 0 <= j < k ==> s.take(k)[j] == s[j]);
        }
        assert(s.take(k + 1).drop_last() =~= s.take(k));
        lemma_digits_value_nonneg(s.take(k));
        assert(digits_value(s.take(k + 1)) == digits_value(s.take(k)) * 10 + digit_value(
            s[k],
        ));
        lemma_digits_value_prefix(s, k + 1);
    }
}

/// Relies on std's `String::push`: appends exactly the one given character.
#[verifier::external_body]
pub(crate) fn push_char(s: &mut String, c: char)
    ensures
        final(s)@ == old(s)@.push(c),
{
    s.push(c);
}

/// The decimal digits of `n`, most significant first, without leading
/// zeros (`0` is written as "0").
pub open spec fn spec_dec_digits(n: int) -> Seq<char>
    decreases n,
{
    if n <= 9 {
        seq![((48 + n) as u8) as char]
    } else {
        spec_dec_digits(n / 10).push(((48 + n % 10) as u8) as char)
    }
}

/// Appends the decimal digits of `n` to `s`.
pub fn push_u64(s: &mut String, n: u64)
    ensures
        final(s)@ == old(s)@ + spec_dec_digits(n as int),
    decreases n,
{
    if n <= 9 {
        let c = (48 + n as u8) as char;
        push_char(s, c);
        proof {
            assert(final(s)@ =~= old(s)@ + spec_dec_digits(n as int));
        }
    } else {
        push_u64(s, n / 10);
        let c = (48 + (n % 10) as u8) as char;
        push_char(s, c);
        proof {
            assert(final(s)@ =~= old(s)@ + spec_dec_digits(n as int));
        }
    }
}

/// Compares two strings character by character.
pub fn str_equal(a: &str, b: &str) -> (r: bool)
    ensures
        r == (a@ == b@),
{
    let alen = a.unicode_len();
    let blen = b.unicode_len();
    if alen != blen {
        proof {
            assert(a@.len() != b@.len());
        }
        return false;
    }
    let mut i: usize = 0;
    while i < alen
        invariant
            0 <= i <= alen,
            alen == a@.len(),
            alen == b@.len(),
            forall|k: int| 0 <= k < i ==> a@[k] == b@[k],
        decreases alen - i,
    {
        if a.get_char(i) != b.get_char(i) {
            return false;
        }
        i += 1;
    }
    proof {
        assert(a@ =~= b@);
    }
    true
}

/// Parses `s` as an unsigned decimal number.
///
/// Returns the written number exactly when `s` is non-empty, holds digits
/// only, and the number fits in `usize`; anything else is rejected.
pub fn parse_usize(s: &str) -> (r: Option<usize>)
    ensures
        r matches Some(v) ==> spec_parse_usize(s@) == Some(v as int),
        r is None ==> spec_parse_usize(s@) is None,
{
    let len = s.unicode_len();
    if len == 0 {
        return None;
    }
    let mut value: usize = 0;
    let mut i: usize = 0;
    while i < len
        invariant
            0 <= i <= len,
            len == s@.len(),
            forall|k: int| 0 <= k < i ==> is_digit_char(#[trigger] s@[k]),
            value as int == digits_value(s@.take(i as int)),
        decreases len - i,
    {
        let c = s.get_char(i);
        let cv = c as u32;
        if cv < 48 || cv > 57 {
            return None;
        }
        let d = (cv - 48) as usize;
        proof {
            assert(s@.take(i + 1).drop_last() =~= s@.take(i as int));
            assert(digits_value(s@.take(i + 1)) == (value as int) * 10 + d);
            if all_digits(s@) {
                lemma_digits_value_prefix(s@, i + 1);
            }
        }
        let v10 = match value.checked_mul(10) {
            Some(v10) => v10,
            None => {
                return None;
            },
        };
        value = match v10.checked_add(d) {
            Some(v) => v,
            None => {
                return None;
            },
        };
        i += 1;
    }
    proof {
        assert(s@.take(len as int) =~= s@);
    }
    Some(value)
}

} // verus!
