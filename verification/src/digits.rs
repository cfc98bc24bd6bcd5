//! Rendering of unsigned integers as sequences of decimal digit characters,
//! together with the digit-grouping used for point totals.

use vstd::prelude::*;

verus! {

/// The decimal digit character for a value below ten.
pub open spec fn digit_char(d: int) -> char
    recommends
        0 <= d < 10,
{
    if d == 0 {
        '0'
    } else if d == 1 {
        '1'
    } else if d == 2 {
        '2'
    } else if d == 3 {
        '3'
    } else if d == 4 {
        '4'
    } else if d == 5 {
        '5'
    } else if d == 6 {
        '6'
    } else if d == 7 {
        '7'
    } else if d == 8 {
        '8'
    } else {
        '9'
    }
}

/// Whether `c` is one of the ten decimal digit characters.
pub open spec fn is_decimal_digit(c: char) -> bool {
    exists|d: int| 0 <= d < 10 && c == digit_char(d)
}

/// The decimal digit characters of `n`, most significant first, with no
/// leading zeros (zero itself is the single character `'0'`).
pub open spec fn dec_digits(n: nat) -> Seq<char>
    decreases n,
{
    if n < 10 {
        seq![digit_char(n as int)]
    } else {
        dec_digits(n / 10) + seq![digit_char((n % 10) as int)]
    }
}

/// The decimal digit characters of `n`, zero-padded on the left to a width of
/// at least two.
pub open spec fn pad2_digits(n: nat) -> Seq<char> {
    if n < 10 {
        seq!['0', digit_char(n as int)]
    } else {
        dec_digits(n)
    }
}

/// Every character produced by `dec_digits` is a decimal digit, and at least
/// one character is always produced.
pub proof fn lemma_dec_digits_are_digits(n: nat)
    ensures
        dec_digits(n).len() >= 1,
        forall|i: int| 0 <= i < dec_digits(n).len() ==> is_decimal_digit(#[trigger] dec_digits(n)[i]),
    decreases n,
{
    if n < 10 {
        assert(dec_digits(n)[0] == digit_char(n as int));
        assert(is_decimal_digit(digit_char(n as int)));
    } else {
        lemma_dec_digits_are_digits(n / 10);
        assert(is_decimal_digit(digit_char((n % 10) as int)));
        assert forall|i: int| 0 <= i < dec_digits(n).len() implies is_decimal_digit(
            #[trigger] dec_digits(n)[i],
        ) by {
            if i < dec_digits(n / 10).len() {
                assert(dec_digits(n)[i] == dec_digits(n / 10)[i]);
            } else {
                assert(dec_digits(n)[i] == digit_char((n % 10) as int));
            }
        }
    }
}

/// `dec_digits` produces one character for values below ten and two for
/// values from ten up to (but excluding) one hundred.
pub proof fn lemma_dec_digits_len_small(n: nat)
    ensures
        n < 10 ==> dec_digits(n).len() == 1,
        10 <= n < 100 ==> dec_digits(n).len() == 2,
{
    if 10 <= n < 100 {
        assert(n / 10 < 10);
        assert(dec_digits(n / 10).len() == 1);
        assert(dec_digits(n) == dec_digits(n / 10) + seq![digit_char((n % 10) as int)]);
    }
}

/// `pad2_digits` produces exactly two characters, both decimal digits, for
/// values below one hundred.
pub proof fn lemma_pad2_digits_shape(n: nat)
    requires
        n < 100,
    ensures
        pad2_digits(n).len() == 2,
        is_decimal_digit(pad2_digits(n)[0]),
        is_decimal_digit(pad2_digits(n)[1]),
{
    lemma_dec_digits_len_small(n);
    lemma_dec_digits_are_digits(n);
    if n < 10 {
        assert(is_decimal_digit('0')) by {
            assert('0' == digit_char(0));
        }
        assert(is_decimal_digit(digit_char(n as int)));
    }
}

/// `pad2_digits` is `dec_digits` with at most one `'0'` prepended; in every
/// case its characters are decimal digits and there are at least two of them.
pub proof fn lemma_pad2_digits_are_digits(n: nat)
    ensures
        pad2_digits(n).len() >= 2,
        forall|i: int|
            0 <= i < pad2_digits(n).len() ==> is_decimal_digit(#[trigger] pad2_digits(n)[i]),
{
    lemma_dec_digits_are_digits(n);
    lemma_dec_digits_len_small(n);
    if n >= 10 {
        lemma_dec_digits_are_digits(n / 10);
        assert(dec_digits(n) == dec_digits(n / 10) + seq![digit_char((n % 10) as int)]);
        assert(dec_digits(n).len() >= 2);
    }
    if n < 10 {
        assert(is_decimal_digit('0')) by {
            assert('0' == digit_char(0));
        }
        assert(pad2_digits(n)[0] == '0');
        assert(pad2_digits(n)[1] == digit_char(n as int));
        assert(is_decimal_digit(digit_char(n as int)));
    }
}

/// The decimal characters of a possibly negative value: a leading `'-'`
/// followed by the digits of the magnitude when the value is negative.
pub open spec fn signed_dec_digits(n: int) -> Seq<char> {
    if n < 0 {
        "-"@ + dec_digits((-n) as nat)
    } else {
        dec_digits(n as nat)
    }
}

/// A one-character string slice holding the decimal digit character of `d`.
fn digit_str(d: u64) -> (s: &'static str)
    requires
        d < 10,
    ensures
        s@ =~= seq![digit_char(d as int)],
{
    proof {
        reveal_strlit("0");
        reveal_strlit("1");
        reveal_strlit("2");
        reveal_strlit("3");
        reveal_strlit("4");
        reveal_strlit("5");
        reveal_strlit("6");
        reveal_strlit("7");
        reveal_strlit("8");
        reveal_strlit("9");
    }
    match d {
        0 => "0",
        1 => "1",
        2 => "2",
        3 => "3",
        4 => "4",
        5 => "5",
        6 => "6",
        7 => "7",
        8 => "8",
        _ => "9",
    }
}

/// Renders `n` in decimal, matching `dec_digits`.
pub fn dec_string(n: u64) -> (s: String)
    ensures
        s@ == dec_digits(n as nat),
    decreases n,
{
    if n < 10 {
        String::from_str(digit_str(n))
    } else {
        let prefix = dec_string(n / 10);
        prefix.concat(digit_str(n % 10))
    }
}

/// Renders a signed value in decimal, matching `signed_dec_digits`.
pub fn signed_dec_string(n: i32) -> (s: String)
    ensures
        s@ == signed_dec_digits(n as int),
{
    if n < 0 {
        let magnitude = -(n as i64);
        String::from_str("-").concat(dec_string(magnitude as u64).as_str())
    } else {
        dec_string(n as u64)
    }
}

/// Renders `n` in decimal with at least two digits, matching `pad2_digits`.
pub fn pad2_string(n: u64) -> (s: String)
    ensures
        s@ == pad2_digits(n as nat),
{
    if n < 10 {
        let s = String::from_str("0").concat(digit_str(n));
        proof {
            reveal_strlit("0");
            assert(s@ =~= pad2_digits(n as nat));
        }
        s
    } else {
        dec_string(n)
    }
}

} // verus!
