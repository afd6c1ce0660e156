//! Small verified helpers on strings, characters and decimal digits.

use vstd::prelude::*;

verus! {

/// Relies on String::push: appends exactly the one character to the
/// end of the string.
#[verifier::external_body]
pub fn push_char(s: &mut String, c: char)
    ensures
        final(s)@ == old(s)@.push(c),
{
    s.push(c);
}

/// Character-wise equality of two string slices.
pub fn str_eq(a: &str, b: &str) -> (r: bool)
    ensures
        r == (a@ == b@),
{
    let na = a.unicode_len();
    let nb = b.unicode_len();
    if na != nb {
        return false;
    }
    let mut i: usize = 0;
    while i < na
        invariant
            na == a@.len(),
            nb == b@.len(),
            na == nb,
            i <= na,
            forall|j: int| 0 <= j < i ==> a@[j] == b@[j],
        decreases na - i,
    {
        if a.get_char(i) != b.get_char(i) {
            return false;
        }
        i = i + 1;
    }
    proof {
        assert(a@ =~= b@);
    }
    true
}

/// The character for one decimal digit.
pub open spec fn digit_char(d: nat) -> char {
    if d == 0 {
        '0'
    } else if d == 1 {
        '1'
    } else if d == 2 {
        '2'
    } else if d == 3 {
        '3'
    } else if d == 4 {
        '4'
    } else if d == 5 {
        '5'
    } else if d == 6 {
        '6'
    } else if d == 7 {
        '7'
    } else if d == 8 {
        '8'
    } else {
        '9'
    }
}

/// The decimal digit string of a natural number, most significant
/// digit first, with no leading zeros (except for zero itself).
pub open spec fn spec_dec_digits(n: nat) -> Seq<char>
    decreases n,
{
    if n < 10 {
        seq![digit_char(n)]
    } else {
        spec_dec_digits(n / 10).push(digit_char(n % 10))
    }
}

/// The decimal rendering of a 64-bit signed integer: an optional
/// leading minus sign followed by the digit string of the magnitude.
pub open spec fn spec_i64_str(n: i64) -> Seq<char> {
    if n < 0 {
        seq!['-'] + spec_dec_digits((-(n as int)) as nat)
    } else {
        spec_dec_digits(n as nat)
    }
}

/// The character for one decimal digit, executable form.
pub fn digit_char_exec(d: u64) -> (r: char)
    requires
        d < 10,
    ensures
        r == digit_char(d as nat),
{
    if d == 0 {
        '0'
    } else if d == 1 {
        '1'
    } else if d == 2 {
        '2'
    } else if d == 3 {
        '3'
    } else if d == 4 {
        '4'
    } else if d == 5 {
        '5'
    } else if d == 6 {
        '6'
    } else if d == 7 {
        '7'
    } else if d == 8 {
        '8'
    } else {
        '9'
    }
}

/// Appends the decimal digits of `n` to `s`.
pub fn push_dec_digits(s: &mut String, n: u64)
    ensures
        final(s)@ == old(s)@ + spec_dec_digits(n as nat),
    decreases n,
{
    if n < 10 {
        push_char(s, digit_char_exec(n));
        proof {
            assert(s@ =~= old(s)@ + spec_dec_digits(n as nat));
        }
    } else {
        push_dec_digits(s, n / 10);
        push_char(s, digit_char_exec(n % 10));
        proof {
            assert(s@ =~= old(s)@ + spec_dec_digits(n as nat));
        }
    }
}

/// Appends the decimal rendering of `n` to `s`.
pub fn push_i64(s: &mut String, n: i64)
    ensures
        final(s)@ == old(s)@ + spec_i64_str(n),
{
    if n < 0 {
        push_char(s, '-');
        let magnitude: u64 = if n == i64::MIN {
            9223372036854775808u64
        } else {
            (-n) as u64
        };
        push_dec_digits(s, magnitude);
        proof {
            assert(s@ =~= old(s)@ + spec_i64_str(n));
        }
    } else {
        push_dec_digits(s, n as u64);
    }
}

/// The decimal rendering of `n` as a fresh string.
pub fn i64_to_string(n: i64) -> (r: String)
    ensures
        r@ == spec_i64_str(n),
{
    let mut s = String::new();
    push_i64(&mut s, n);
    proof {
        assert(s@ =~= spec_i64_str(n));
    }
    s
}

} // verus!
