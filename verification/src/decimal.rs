//! Whole numbers in decimal notation.

use vstd::prelude::*;

use crate::text::{chars_of, string_of};

verus! {

/// The digit of value `d`.
pub open spec fn digit(d: nat) -> char {
    (48 + d) as char
}

/// The value of a decimal digit.
pub open spec fn digit_value(c: char) -> Option<int> {
    if '0' <= c && c <= '9' {
        Some(c as int - 48)
    } else {
        None
    }
}

/// `n` in decimal notation.
pub open spec fn decimal(n: nat) -> Seq<char>
    decreases n,
{
    if n < 10 {
        seq![digit(n)]
    } else {
        decimal(n / 10).push(digit(n % 10))
    }
}

/// `n` in decimal notation, with a minus sign where it is negative.
pub open spec fn signed_decimal(n: int) -> Seq<char> {
    if n < 0 {
        "-"@ + decimal((-n) as nat)
    } else {
        decimal(n as nat)
    }
}

/// Why a text is no number of the wanted range.
#[derive(Debug, Clone, Copy, PartialEq, Eq, Structural)]
pub enum NumberError {
    Empty,
    InvalidDigit,
    TooLarge,
}

/// The value of the digits `s`, read from left to right. The first character
/// that is no digit, or that takes the value beyond `max`, decides.
pub open spec fn digits_value(s: Seq<char>, max: int) -> Result<int, NumberError>
    decreases s.len(),
{
    if s.len() == 0 {
        Ok(0)
    } else {
        match digits_value(s.drop_last(), max) {
            Err(e) => Err(e),
            Ok(v) => match digit_value(s.last()) {
                None => Err(NumberError::InvalidDigit),
                Some(d) => if v * 10 + d > max {
                    Err(NumberError::TooLarge)
                } else {
                    Ok(v * 10 + d)
                },
            },
        }
    }
}

/// The value of `s`: digits, with at most a plus sign before them.
pub open spec fn unsigned_value(s: Seq<char>, max: int) -> Result<int, NumberError> {
    if s.len() == 0 {
        Err(NumberError::Empty)
    } else if s[0] == '+' {
        if s.len() == 1 {
            Err(NumberError::InvalidDigit)
        } else {
            digits_value(s.skip(1), max)
        }
    } else {
        digits_value(s, max)
    }
}

/// The value of `s` where it is a whole number of 64 bits, with or without a sign.
pub open spec fn signed_value(s: Seq<char>) -> Option<int> {
    if s.len() >= 2 && s[0] == '-' {
        match digits_value(s.skip(1), 0x8000_0000_0000_0000) {
            Ok(v) => Some(-v),
            Err(_) => None,
        }
    } else {
        match unsigned_value(s, i64::MAX as int) {
            Ok(v) => Some(v),
            Err(_) => None,
        }
    }
}

fn digit_char(d: u64) -> (c: char)
    requires
        d < 10,
    ensures
        c == digit(d as nat),
{
    (48 + d as u8) as char
}

fn decimal_chars(n: u64) -> (r: Vec<char>)
    ensures
        r@ == decimal(n as nat),
    decreases n,
{
    if n < 10 {
        let mut out: Vec<char> = Vec::new();
        out.push(digit_char(n));
        proof {
            assert(out@ =~= decimal(n as nat));
        }
        out
    } else {
        let mut out = decimal_chars(n / 10);
        out.push(digit_char(n % 10));
        out
    }
}

/// `n` in decimal notation.
pub fn decimal_text(n: u64) -> (r: String)
    ensures
        r@ == decimal(n as nat),
{
    let chars = decimal_chars(n);
    proof {
        assert(chars@.subrange(0, chars@.len() as int) =~= chars@);
    }
    string_of(&chars, 0, chars.len())
}

/// `n` in decimal notation, with a minus sign where it is negative.
pub fn signed_decimal_text(n: i64) -> (r: String)
    ensures
        r@ == signed_decimal(n as int),
{
    if n >= 0 {
        decimal_text(n as u64)
    } else {
        let magnitude: u64 = (-((n + 1) as i128) + 1) as u64;
        let mut out = "-".to_owned();
        vstd::string::StringExecFns::append(&mut out, decimal_text(magnitude).as_str());
        out
    }
}

fn digits_from(chars: &Vec<char>, from: usize, max: u64) -> (r: Result<u64, NumberError>)
    requires
        from <= chars@.len(),
    ensures
        match r {
            Ok(v) => digits_value(chars@.skip(from as int), max as int) == Ok::<int, NumberError>(
                v as int,
            ),
            Err(e) => digits_value(chars@.skip(from as int), max as int) == Err::<int, NumberError>(
                e,
            ),
        },
{
    let ghost all = chars@.skip(from as int);
    let mut value: u64 = 0;
    let mut i: usize = from;
    while i < chars.len()
        invariant
            from <= i <= chars@.len(),
            all == chars@.skip(from as int),
            value <= max,
            digits_value(all.take(i - from), max as int) == Ok::<int, NumberError>(value as int),
        decreases chars@.len() - i,
    {
        let c = chars[i];
        proof {
            let upto = all.take(i - from + 1);
            assert(upto.drop_last() == all.take(i - from));
            assert(upto.last() == c);
        }
        if !('0' <= c && c <= '9') {
            proof {
                error_is_final(all, i - from + 1, max as int);
            }
            return Err(NumberError::InvalidDigit);
        }
        let next: u128 = value as u128 * 10 + (c as u32 - 48) as u128;
        if next > max as u128 {
            proof {
                error_is_final(all, i - from + 1, max as int);
            }
            return Err(NumberError::TooLarge);
        }
        value = next as u64;
        i += 1;
    }
    proof {
        assert(all.take(i - from) == all);
    }
    Ok(value)
}

/// What the first `n` characters of `s` get wrong, `s` gets wrong.
proof fn error_is_final(s: Seq<char>, n: int, max: int)
    requires
        0 <= n <= s.len(),
        digits_value(s.take(n), max) is Err,
    ensures
        digits_value(s, max) == digits_value(s.take(n), max),
    decreases s.len() - n,
{
    if n == s.len() {
        assert(s.take(n) == s);
    } else {
        assert(s.take(n + 1).drop_last() == s.take(n));
        error_is_final(s, n + 1, max);
    }
}

/// The value of `s`, where it is a whole number from 0 to `max`.
pub fn parse_unsigned(s: &str, max: u64) -> (r: Result<u64, NumberError>)
    ensures
        match r {
            Ok(v) => unsigned_value(s@, max as int) == Ok::<int, NumberError>(v as int) && v <= max,
            Err(e) => unsigned_value(s@, max as int) == Err::<int, NumberError>(e),
        },
{
    let chars = chars_of(s);
    if chars.len() == 0 {
        return Err(NumberError::Empty);
    }
    proof {
        digits_stay_within(chars@.skip(1), max as int);
        digits_stay_within(chars@, max as int);
        assert(chars@.skip(0) == chars@);
    }
    if chars[0] == '+' {
        if chars.len() == 1 {
            return Err(NumberError::InvalidDigit);
        }
        digits_from(&chars, 1, max)
    } else {
        digits_from(&chars, 0, max)
    }
}

proof fn digits_stay_within(s: Seq<char>, max: int)
    requires
        0 <= max,
    ensures
        digits_value(s, max) matches Ok(v) ==> 0 <= v <= max,
    decreases s.len(),
{
    if s.len() > 0 {
        digits_stay_within(s.drop_last(), max);
    }
}

/// The value of `s`, where it is a whole number of 64 bits.
pub fn parse_signed(s: &str) -> (r: Option<i64>)
    ensures
        match r {
            Some(v) => signed_value(s@) == Some(v as int),
            None => signed_value(s@) is None,
        },
{
    let chars = chars_of(s);
    if chars.len() >= 2 && chars[0] == '-' {
        match digits_from(&chars, 1, 0x8000_0000_0000_0000) {
            Ok(v) => {
                proof {
                    digits_stay_within(chars@.skip(1), 0x8000_0000_0000_0000);
                }
                Some((-(v as i128)) as i64)
            },
            Err(_) => None,
        }
    } else {
        match parse_unsigned(s, i64::MAX as u64) {
            Ok(v) => Some(v as i64),
            Err(_) => None,
        }
    }
}

/// Decimal notation consists of digits, at least one.
pub proof fn decimal_is_digits(n: nat)
    ensures
        decimal(n).len() > 0,
        forall|i: int| 0 <= i < decimal(n).len() ==> digit_value(#[trigger] decimal(n)[i]) is Some,
    decreases n,
{
    if n >= 10 {
        decimal_is_digits(n / 10);
        assert forall|i: int| 0 <= i < decimal(n).len() implies digit_value(
            #[trigger] decimal(n)[i],
        ) is Some by {
            if i < decimal(n).len() - 1 {
                assert(decimal(n)[i] == decimal(n / 10)[i]);
            }
        }
    }
}

/// A number that has been written is read back.
pub proof fn a_written_number_is_read_back(n: nat, max: int)
    requires
        n <= max,
    ensures
        unsigned_value(decimal(n), max) == Ok::<int, NumberError>(n as int),
{
    decimal_is_digits(n);
    assert(digit_value(decimal(n)[0]) is Some);
    digits_are_read_back(n, max);
}

proof fn digits_are_read_back(n: nat, max: int)
    requires
        n <= max,
    ensures
        digits_value(decimal(n), max) == Ok::<int, NumberError>(n as int),
    decreases n,
{
    reveal_with_fuel(digits_value, 2);
    if n < 10 {
        assert(decimal(n).drop_last() =~= Seq::empty());
    } else {
        digits_are_read_back(n / 10, max);
        assert(decimal(n).drop_last() =~= decimal(n / 10));
        assert(decimal(n).last() == digit(n % 10));
    }
}

/// Decimal notation puts the digits of a number one behind the other, the last one for the
/// remainder by ten, and a minus sign before those of a negative number.
pub proof fn numbers_are_written_digit_by_digit(n: nat, d: nat)
    requires
        d < 10,
    ensures
        decimal(d) == seq![(48 + d) as char],
        n > 0 ==> decimal(10 * n + d) == decimal(n) + seq![(48 + d) as char],
        signed_decimal(n as int) == decimal(n),
        n > 0 ==> signed_decimal(-(n as int)) == seq!['-'] + decimal(n),
        '0' as int == 48 && '9' as int == 57,
{
    reveal_strlit("-");
    assert("-"@ =~= seq!['-']);
    if n > 0 {
        let m = 10 * n + d;
        assert(m / 10 == n && m % 10 == d);
        assert(decimal(m) =~= decimal(n) + seq![(48 + d) as char]);
    }
}

/// What is read of a text grows by one digit as the text does, as long as it stays within the
/// range. A plus sign may stand before the digits. Nothing else is a number: an empty text, a sign
/// alone, and a text with another character in it each have their own complaint.
pub proof fn numbers_are_read_digit_by_digit(s: Seq<char>, c: char, max: int)
    requires
        0 <= max,
    ensures
        unsigned_value(Seq::empty(), max) == Err::<int, NumberError>(NumberError::Empty),
        unsigned_value(seq!['+'], max) == Err::<int, NumberError>(NumberError::InvalidDigit),
        '0' <= c && c <= '9' ==> unsigned_value(seq![c], max) == if c as int - 48 <= max {
            Ok::<int, NumberError>(c as int - 48)
        } else {
            Err::<int, NumberError>(NumberError::TooLarge)
        },
        s.len() > 0 && s[0] != '+' ==> unsigned_value(seq!['+'] + s, max) == unsigned_value(s, max),
        s.len() > 0 && s != seq!['+'] ==> unsigned_value(s.push(c), max) == match unsigned_value(
            s,
            max,
        ) {
            Ok(v) => if !('0' <= c && c <= '9') {
                Err::<int, NumberError>(NumberError::InvalidDigit)
            } else if v * 10 + (c as int - 48) > max {
                Err::<int, NumberError>(NumberError::TooLarge)
            } else {
                Ok::<int, NumberError>(v * 10 + (c as int - 48))
            },
            Err(e) => Err::<int, NumberError>(e),
        },
        c != '+' && !('0' <= c && c <= '9') ==> unsigned_value(seq![c], max) == Err::<
            int,
            NumberError,
        >(NumberError::InvalidDigit),
{
    reveal_with_fuel(digits_value, 2);
    assert(seq![c].drop_last() =~= Seq::empty());
    if s.len() > 0 {
        assert((seq!['+'] + s).skip(1) =~= s);
        assert(s.push(c).drop_last() =~= s);
        if s[0] == '+' {
            assert(s.len() == 1 ==> s =~= seq!['+']);
            assert(s.push(c).skip(1) =~= s.skip(1).push(c));
            assert(s.skip(1).push(c).drop_last() =~= s.skip(1));
        }
    }
}

/// A whole number with a sign is read as what it is where it has 64 bits, and not otherwise.
pub proof fn signed_numbers_are_read_back(n: int)
    ensures
        i64::MIN <= n <= i64::MAX ==> signed_value(signed_decimal(n)) == Some(n),
        n >= 0 && n <= i64::MAX ==> signed_value(seq!['+'] + decimal(n as nat)) == Some(n),
        signed_value(Seq::empty()) is None,
        signed_value(seq!['-']) is None,
{
    reveal_strlit("-");
    reveal_with_fuel(digits_value, 2);
    if n < 0 {
        let m = (-n) as nat;
        decimal_is_digits(m);
        let s = signed_decimal(n);
        assert(s[0] == '-');
        assert(s.skip(1) =~= decimal(m));
        if i64::MIN <= n {
            digits_are_read_back(m, 0x8000_0000_0000_0000);
        }
    } else {
        decimal_is_digits(n as nat);
        let s = decimal(n as nat);
        assert(digit_value(s[0]) is Some);
        let t = seq!['+'] + s;
        assert(t.skip(1) =~= s);
        if n <= i64::MAX {
            digits_are_read_back(n as nat, i64::MAX as int);
        }
    }
    assert(seq!['-'].drop_last() =~= Seq::empty());
}

} // verus!
