//! Codec for the service's ad hoc string encodings: `"1"`/`"0"` booleans,
//! numeric-as-string codes, `YYYYMMDD` dates and `YYYY-MM-DD HH:MM:SS`
//! datetimes in the fixed UTC+8 offset.

use vstd::prelude::*;

use crate::IClassError;

verus! {

/// A decimal digit character, `'0'` through `'9'`.
pub open spec fn is_dec_digit(c: char) -> bool {
    48 <= c as u32 && c as u32 <= 57
}

/// The numeric value of a decimal digit character.
pub open spec fn digit_val(c: char) -> nat
    recommends
        is_dec_digit(c),
{
    (c as u32 - 48) as nat
}

/// The character for a decimal digit value.
pub open spec fn digit_char(d: nat) -> char
    recommends
        d < 10,
{
    (48 + d) as char
}

/// Every character of the sequence is a decimal digit.
pub open spec fn seq_is_digits(s: Seq<char>) -> bool {
    forall|i: int| 0 <= i < s.len() ==> is_dec_digit(s[i])
}

/// The value of a sequence of decimal digits, most significant first.
pub open spec fn digits_val(s: Seq<char>) -> nat
    decreases s.len(),
{
    if s.len() == 0 {
        0
    } else {
        digits_val(s.drop_last()) * 10 + digit_val(s.last())
    }
}

proof fn lemma_digits_val_extend(s: Seq<char>, i: int)
    requires
        0 <= i < s.len(),
    ensures
        digits_val(s.subrange(0, i)) <= digits_val(s.subrange(0, i + 1)),
{
    let a = s.subrange(0, i);
    let b = s.subrange(0, i + 1);
    assert(b.drop_last() =~= a);
}

proof fn lemma_digits_val_prefix_le(s: Seq<char>, i: int)
    requires
        0 <= i <= s.len(),
    ensures
        digits_val(s.subrange(0, i)) <= digits_val(s),
    decreases s.len() - i,
{
    if i == s.len() {
        assert(s.subrange(0, i) =~= s);
    } else {
        lemma_digits_val_extend(s, i);
        lemma_digits_val_prefix_le(s, i + 1);
    }
}

/// Parses the decimal digits of `s` in the character range `[from, to)`
/// as a `u128`. Fails on an empty range, on a non-digit, and on a value
/// that does not fit.
pub(crate) fn parse_digits_u128(s: &str, from: usize, to: usize) -> (r: Option<u128>)
    requires
        from <= to <= s@.len(),
    ensures
        ({
            let sub = s@.subrange(from as int, to as int);
            match r {
                Some(v) => from < to && seq_is_digits(sub) && digits_val(sub) == v,
                None => from == to || !seq_is_digits(sub) || digits_val(sub) > u128::MAX,
            }
        }),
{
    if from == to {
        return None;
    }
    let ghost sub = s@.subrange(from as int, to as int);
    let mut acc: u128 = 0;
    let mut i: usize = from;
    while i < to
        invariant
            from <= i <= to <= s@.len(),
            sub == s@.subrange(from as int, to as int),
            seq_is_digits(s@.subrange(from as int, i as int)),
            digits_val(s@.subrange(from as int, i as int)) == acc,
        decreases to - i,
    {
        let c = s.get_char(i);
        let u = c as u32;
        if !(48 <= u && u <= 57) {
            proof {
                assert(sub[i - from] == s@[i as int]);
            }
            return None;
        }
        let d = (u - 48) as u128;
        let next = match acc.checked_mul(10) {
            Some(x) => x.checked_add(d),
            None => None,
        };
        proof {
            let ext = s@.subrange(from as int, i + 1);
            assert(ext.drop_last() =~= s@.subrange(from as int, i as int));
            assert(ext.last() == s@[i as int]);
            assert(digits_val(ext) == acc * 10 + digit_val(s@[i as int]));
        }
        match next {
            Some(v) => {
                acc = v;
                i = i + 1;
            },
            None => {
                proof {
                    if seq_is_digits(sub) {
                        assert(sub.subrange(0, i + 1 - from) =~= s@.subrange(
                            from as int,
                            i + 1,
                        ));
                        lemma_digits_val_prefix_le(sub, i + 1 - from);
                    }
                }
                return None;
            },
        }
    }
    proof {
        assert(s@.subrange(from as int, i as int) == sub);
    }
    Some(acc)
}

/// The signed-decimal reading of a string: an optional `+` or `-` sign
/// followed by one or more digits, as `str::parse` reads an integer
/// before its range check.
pub open spec fn int_str_value(s: Seq<char>) -> Option<int> {
    if s.len() >= 2 && (s[0] == '+' || s[0] == '-') && seq_is_digits(
        s.subrange(1, s.len() as int),
    ) {
        if s[0] == '-' {
            Some(-(digits_val(s.subrange(1, s.len() as int)) as int))
        } else {
            Some(digits_val(s.subrange(1, s.len() as int)) as int)
        }
    } else if s.len() >= 1 && seq_is_digits(s) {
        Some(digits_val(s) as int)
    } else {
        None
    }
}

/// Decodes the service's numeric-as-string codes: parses `s` as a signed
/// 8-bit integer; non-numeric or out-of-range input fails with a format
/// error.
pub fn decode_i8(s: &str) -> (r: Result<i8, IClassError>)
    ensures
        match r {
            Ok(v) => int_str_value(s@) == Some(v as int),
            Err(e) => {
                &&& e == IClassError::FormatError
                &&& match int_str_value(s@) {
                    Some(v) => v < -128 || v > 127,
                    None => true,
                }
            },
        },
{
    let n = s.unicode_len();
    if n == 0 {
        return Err(IClassError::FormatError);
    }
    let c0 = s.get_char(0);
    let neg = c0 == '-';
    let start: usize = if c0 == '-' || c0 == '+' {
        1
    } else {
        0
    };
    proof {
        if start == 0 {
            assert(s@.subrange(0, n as int) =~= s@);
        }
    }
    match parse_digits_u128(s, start, n) {
        Some(v) => {
            if neg {
                if v <= 127 {
                    Ok(-(v as i8))
                } else if v == 128 {
                    Ok(-128)
                } else {
                    Err(IClassError::FormatError)
                }
            } else {
                if v <= 127 {
                    Ok(v as i8)
                } else {
                    Err(IClassError::FormatError)
                }
            }
        },
        None => Err(IClassError::FormatError),
    }
}

/// Decodes an optional numeric-as-string code: absence maps to `None`,
/// and a present string must parse as a signed 8-bit integer.
pub fn decode_opt_i8(s: &Option<String>) -> (r: Result<Option<i8>, IClassError>)
    ensures
        match s {
            None => r == Ok::<Option<i8>, IClassError>(None),
            Some(t) => match r {
                Ok(v) => v is Some && int_str_value(t@) == Some(v.unwrap() as int),
                Err(e) => {
                    &&& e == IClassError::FormatError
                    &&& match int_str_value(t@) {
                        Some(v) => v < -128 || v > 127,
                        None => true,
                    }
                },
            },
        },
{
    match s {
        None => Ok(None),
        Some(t) => match decode_i8(t.as_str()) {
            Ok(v) => Ok(Some(v)),
            Err(e) => Err(e),
        },
    }
}

/// Decodes the service's string booleans: exactly `"1"` is true and
/// exactly `"0"` is false; anything else fails with a format error.
pub fn decode_bool(s: &str) -> (r: Result<bool, IClassError>)
    ensures
        (r == Ok::<bool, IClassError>(true)) <==> (s@ == "1"@),
        (r == Ok::<bool, IClassError>(false)) <==> (s@ == "0"@),
        !is_bool_str(s@) ==> r == Err::<bool, IClassError>(IClassError::FormatError),
{
    proof {
        reveal_strlit("1");
        reveal_strlit("0");
    }
    let n = s.unicode_len();
    if n == 1 {
        let c = s.get_char(0);
        if c == '1' {
            proof {
                assert(s@ =~= "1"@);
            }
            Ok(true)
        } else if c == '0' {
            proof {
                assert(s@ =~= "0"@);
            }
            Ok(false)
        } else {
            Err(IClassError::FormatError)
        }
    } else {
        Err(IClassError::FormatError)
    }
}

/// A calendar date, as the service reports it in the fixed UTC+8 offset.
#[derive(Clone, Copy, Debug, PartialEq, Eq, Structural)]
pub struct Date {
    /// Year, `0` through `9999`.
    pub year: u32,
    /// Month, `1` through `12`.
    pub month: u32,
    /// Day of month, `1` through the month's length.
    pub day: u32,
}

/// A Gregorian leap year.
pub open spec fn is_leap_year(y: nat) -> bool {
    y % 4 == 0 && (y % 100 != 0 || y % 400 == 0)
}

/// The number of days of a month in a year.
pub open spec fn days_in_month(y: nat, m: nat) -> nat
    recommends
        1 <= m <= 12,
{
    if m == 2 {
        if is_leap_year(y) {
            29
        } else {
            28
        }
    } else if m == 4 || m == 6 || m == 9 || m == 11 {
        30
    } else {
        31
    }
}

/// A valid calendar date that the 4-digit year encoding can carry.
pub open spec fn date_valid(d: Date) -> bool {
    &&& d.year <= 9999
    &&& 1 <= d.month <= 12
    &&& 1 <= d.day <= days_in_month(d.year as nat, d.month as nat)
}

/// Decides [`date_valid`].
pub fn check_date_valid(d: &Date) -> (r: bool)
    ensures
        r == date_valid(*d),
{
    let dim: u32 = if d.month == 2 {
        if d.year % 4 == 0 && (d.year % 100 != 0 || d.year % 400 == 0) {
            29
        } else {
            28
        }
    } else if d.month == 4 || d.month == 6 || d.month == 9 || d.month == 11 {
        30
    } else {
        31
    };
    d.year <= 9999 && 1 <= d.month && d.month <= 12 && 1 <= d.day && d.day <= dim
}

/// The two-digit zero-padded decimal encoding of `n`.
pub open spec fn dec2(n: nat) -> Seq<char>
    recommends
        n < 100,
{
    seq![digit_char(n / 10 % 10), digit_char(n % 10)]
}

/// The four-digit zero-padded decimal encoding of `n`.
pub open spec fn dec4(n: nat) -> Seq<char>
    recommends
        n < 10000,
{
    seq![
        digit_char(n / 1000 % 10),
        digit_char(n / 100 % 10),
        digit_char(n / 10 % 10),
        digit_char(n % 10),
    ]
}

/// The `YYYYMMDD` encoding of a date.
pub open spec fn date_chars(d: Date) -> Seq<char> {
    dec4(d.year as nat) + dec2(d.month as nat) + dec2(d.day as nat)
}

proof fn lemma_dec2_identity(v: nat)
    requires
        v < 100,
    ensures
        v == (v / 10 % 10) * 10 + v % 10,
        v / 10 % 10 == v / 10,
{
}

proof fn lemma_dec4_identity(v: nat)
    requires
        v < 10000,
    ensures
        v == (v / 1000 % 10) * 1000 + (v / 100 % 10) * 100 + (v / 10 % 10) * 10 + v % 10,
{
    assert(v == (v / 1000) * 1000 + (v / 100 % 10) * 100 + (v / 10 % 10) * 10 + v % 10) by {
        assert(v == (v / 10) * 10 + v % 10);
        assert(v / 10 == (v / 100) * 10 + v / 10 % 10) by {
            assert(v / 10 / 10 == v / 100) by (nonlinear_arith);
            assert(v / 10 == (v / 10 / 10) * 10 + v / 10 % 10);
        }
        assert(v / 100 == (v / 1000) * 10 + v / 100 % 10) by {
            assert(v / 100 / 10 == v / 1000) by (nonlinear_arith);
            assert(v / 100 == (v / 100 / 10) * 10 + v / 100 % 10);
        }
    }
    assert(v / 1000 % 10 == v / 1000);
}

proof fn lemma_dec2_injective(a: nat, b: nat)
    requires
        a < 100,
        b < 100,
        dec2(a) == dec2(b),
    ensures
        a == b,
{
    assert(dec2(a)[0] == dec2(b)[0]);
    assert(dec2(a)[1] == dec2(b)[1]);
    assert(digit_char(a / 10 % 10) as u32 == digit_char(b / 10 % 10) as u32);
    assert(digit_char(a % 10) as u32 == digit_char(b % 10) as u32);
    lemma_dec2_identity(a);
    lemma_dec2_identity(b);
}

proof fn lemma_dec4_injective(a: nat, b: nat)
    requires
        a < 10000,
        b < 10000,
        dec4(a) == dec4(b),
    ensures
        a == b,
{
    assert(digit_char(a / 1000 % 10) as u32 == digit_char(b / 1000 % 10) as u32);
    assert(digit_char(a / 100 % 10) as u32 == digit_char(b / 100 % 10) as u32);
    assert(digit_char(a / 10 % 10) as u32 == digit_char(b / 10 % 10) as u32);
    assert(digit_char(a % 10) as u32 == digit_char(b % 10) as u32);
    lemma_dec4_identity(a);
    lemma_dec4_identity(b);
}

proof fn lemma_date_chars_digits(d: Date)
    ensures
        date_chars(d).len() == 8,
        seq_is_digits(date_chars(d)),
{
    let s = date_chars(d);
    assert forall|i: int| 0 <= i < s.len() implies is_dec_digit(s[i]) by {
        assert(s[0] == digit_char(d.year as nat / 1000 % 10));
        assert(s[1] == digit_char(d.year as nat / 100 % 10));
        assert(s[2] == digit_char(d.year as nat / 10 % 10));
        assert(s[3] == digit_char(d.year as nat % 10));
        assert(s[4] == digit_char(d.month as nat / 10 % 10));
        assert(s[5] == digit_char(d.month as nat % 10));
        assert(s[6] == digit_char(d.day as nat / 10 % 10));
        assert(s[7] == digit_char(d.day as nat % 10));
    }
}

/// Reads two decimal digits at character position `i`.
fn read_dec2(s: &str, i: usize) -> (r: Option<u32>)
    requires
        i + 2 <= s@.len() <= usize::MAX,
    ensures
        r is Some <==> (is_dec_digit(s@[i as int]) && is_dec_digit(s@[i as int + 1])),
        match r {
            Some(v) => v < 100 && s@.subrange(i as int, i as int + 2) == dec2(v as nat),
            None => true,
        },
{
    let c1 = s.get_char(i);
    let c2 = s.get_char(i + 1);
    let u1 = c1 as u32;
    let u2 = c2 as u32;
    if 48 <= u1 && u1 <= 57 && 48 <= u2 && u2 <= 57 {
        let v = (u1 - 48) * 10 + (u2 - 48);
        proof {
            lemma_dec2_identity(v as nat);
            assert(s@.subrange(i as int, i as int + 2) =~= dec2(v as nat));
        }
        Some(v)
    } else {
        None
    }
}

/// Reads four decimal digits at character position `i`.
fn read_dec4(s: &str, i: usize) -> (r: Option<u32>)
    requires
        i + 4 <= s@.len() <= usize::MAX,
    ensures
        r is Some <==> (is_dec_digit(s@[i as int]) && is_dec_digit(s@[i as int + 1])
            && is_dec_digit(s@[i as int + 2]) && is_dec_digit(s@[i as int + 3])),
        match r {
            Some(v) => v < 10000 && s@.subrange(i as int, i as int + 4) == dec4(v as nat),
            None => true,
        },
{
    let c1 = s.get_char(i);
    let c2 = s.get_char(i + 1);
    let c3 = s.get_char(i + 2);
    let c4 = s.get_char(i + 3);
    let u1 = c1 as u32;
    let u2 = c2 as u32;
    let u3 = c3 as u32;
    let u4 = c4 as u32;
    if 48 <= u1 && u1 <= 57 && 48 <= u2 && u2 <= 57 && 48 <= u3 && u3 <= 57 && 48 <= u4 && u4
        <= 57 {
        let v = (u1 - 48) * 1000 + (u2 - 48) * 100 + (u3 - 48) * 10 + (u4 - 48);
        proof {
            lemma_dec4_identity(v as nat);
            assert(v as nat / 1000 % 10 == (u1 - 48) as nat && v as nat / 100 % 10 == (u2
                - 48) as nat && v as nat / 10 % 10 == (u3 - 48) as nat && v as nat % 10 == (u4
                - 48) as nat) by {
                lemma_dec4_digit_parts((u1 - 48) as nat, (u2 - 48) as nat, (u3 - 48) as nat, (u4
                    - 48) as nat);
            }
            assert(s@.subrange(i as int, i as int + 4) =~= dec4(v as nat));
        }
        Some(v)
    } else {
        None
    }
}

proof fn lemma_dec4_digit_parts(a: nat, b: nat, c: nat, d: nat)
    requires
        a < 10,
        b < 10,
        c < 10,
        d < 10,
    ensures
        (a * 1000 + b * 100 + c * 10 + d) / 1000 % 10 == a,
        (a * 1000 + b * 100 + c * 10 + d) / 100 % 10 == b,
        (a * 1000 + b * 100 + c * 10 + d) / 10 % 10 == c,
        (a * 1000 + b * 100 + c * 10 + d) % 10 == d,
{
    let v = a * 1000 + b * 100 + c * 10 + d;
    assert(v / 1000 == a && v / 100 == a * 10 + b && v / 10 == a * 100 + b * 10 + c && v % 10
        == d) by (nonlinear_arith)
        requires
            a < 10,
            b < 10,
            c < 10,
            d < 10,
            v == a * 1000 + b * 100 + c * 10 + d,
    ;
}

/// Decodes a `YYYYMMDD` date string: strict fixed-width parse, and an
/// invalid calendar date fails with a format error. Succeeds exactly on
/// the encodings of valid dates.
pub fn decode_date(s: &str) -> (r: Result<Date, IClassError>)
    ensures
        match r {
            Ok(d) => date_valid(d) && s@ == date_chars(d),
            Err(e) => e == IClassError::FormatError && (forall|d: Date|
                date_valid(d) ==> s@ != date_chars(d)),
        },
{
    let n = s.unicode_len();
    if n != 8 {
        proof {
            assert forall|d: Date| date_valid(d) implies s@ != date_chars(d) by {
                lemma_date_chars_digits(d);
            }
        }
        return Err(IClassError::FormatError);
    }
    let y = read_dec4(s, 0);
    let mo = read_dec2(s, 4);
    let dy = read_dec2(s, 6);
    match (y, mo, dy) {
        (Some(y), Some(mo), Some(dy)) => {
            let d = Date { year: y, month: mo, day: dy };
            if check_date_valid(&d) {
                proof {
                    assert(s@ =~= s@.subrange(0, 4) + s@.subrange(4, 6) + s@.subrange(6, 8));
                }
                Ok(d)
            } else {
                proof {
                    assert forall|d2: Date| date_valid(d2) implies s@ != date_chars(d2) by {
                        if s@ == date_chars(d2) {
                            lemma_same_date_chars(s@, d2, d);
                        }
                    }
                }
                Err(IClassError::FormatError)
            }
        },
        _ => {
            proof {
                assert forall|d2: Date| date_valid(d2) implies s@ != date_chars(d2) by {
                    lemma_date_chars_digits(d2);
                }
            }
            Err(IClassError::FormatError)
        },
    }
}

/// A wall-clock datetime in the fixed UTC+8 offset (China Standard
/// Time). The service always reports local time in this zone, so the
/// offset is a fixed constant of the encoding, not a field.
#[derive(Clone, Copy, Debug, PartialEq, Eq, Structural)]
pub struct DateTime {
    /// The calendar date.
    pub date: Date,
    /// Hour, `0` through `23`.
    pub hour: u32,
    /// Minute, `0` through `59`.
    pub minute: u32,
    /// Second, `0` through `59`.
    pub second: u32,
}

/// A valid wall-clock datetime.
pub open spec fn datetime_valid(t: DateTime) -> bool {
    &&& date_valid(t.date)
    &&& t.hour <= 23
    &&& t.minute <= 59
    &&& t.second <= 59
}

/// Decides [`datetime_valid`].
pub fn check_datetime_valid(t: &DateTime) -> (r: bool)
    ensures
        r == datetime_valid(*t),
{
    check_date_valid(&t.date) && t.hour <= 23 && t.minute <= 59 && t.second <= 59
}

/// The `YYYY-MM-DD` encoding of a date.
pub open spec fn date_chars_hyphen(d: Date) -> Seq<char> {
    dec4(d.year as nat) + seq!['-'] + dec2(d.month as nat) + seq!['-'] + dec2(d.day as nat)
}

/// The `YYYY-MM-DD HH:MM:SS` encoding of a datetime.
pub open spec fn datetime_chars(t: DateTime) -> Seq<char> {
    date_chars_hyphen(t.date) + seq![' '] + dec2(t.hour as nat) + seq![':'] + dec2(
        t.minute as nat,
    ) + seq![':'] + dec2(t.second as nat)
}

proof fn lemma_date_chars_hyphen_shape(d: Date)
    ensures
        date_chars_hyphen(d).len() == 10,
        date_chars_hyphen(d).subrange(0, 4) =~= dec4(d.year as nat),
        date_chars_hyphen(d)[4] == '-',
        date_chars_hyphen(d).subrange(5, 7) =~= dec2(d.month as nat),
        date_chars_hyphen(d)[7] == '-',
        date_chars_hyphen(d).subrange(8, 10) =~= dec2(d.day as nat),
{
}

proof fn lemma_datetime_chars_shape(t: DateTime)
    ensures
        datetime_chars(t).len() == 19,
        datetime_chars(t).subrange(0, 4) =~= dec4(t.date.year as nat),
        datetime_chars(t)[4] == '-',
        datetime_chars(t).subrange(5, 7) =~= dec2(t.date.month as nat),
        datetime_chars(t)[7] == '-',
        datetime_chars(t).subrange(8, 10) =~= dec2(t.date.day as nat),
        datetime_chars(t)[10] == ' ',
        datetime_chars(t).subrange(11, 13) =~= dec2(t.hour as nat),
        datetime_chars(t)[13] == ':',
        datetime_chars(t).subrange(14, 16) =~= dec2(t.minute as nat),
        datetime_chars(t)[16] == ':',
        datetime_chars(t).subrange(17, 19) =~= dec2(t.second as nat),
{
    lemma_date_chars_hyphen_shape(t.date);
}

/// Decodes a `YYYY-MM-DD` date string: strict fixed-width parse, and an
/// invalid calendar date fails with a format error. Succeeds exactly on
/// the hyphenated encodings of valid dates.
pub fn decode_date_hyphen(s: &str) -> (r: Result<Date, IClassError>)
    ensures
        match r {
            Ok(d) => date_valid(d) && s@ == date_chars_hyphen(d),
            Err(e) => e == IClassError::FormatError && (forall|d: Date|
                date_valid(d) ==> s@ != date_chars_hyphen(d)),
        },
{
    let n = s.unicode_len();
    if n != 10 {
        proof {
            assert forall|d: Date| date_valid(d) implies s@ != date_chars_hyphen(d) by {
                lemma_date_chars_hyphen_shape(d);
            }
        }
        return Err(IClassError::FormatError);
    }
    let y = read_dec4(s, 0);
    let mo = read_dec2(s, 5);
    let dy = read_dec2(s, 8);
    let seps = s.get_char(4) == '-' && s.get_char(7) == '-';
    match (y, mo, dy) {
        (Some(y), Some(mo), Some(dy)) if seps => {
            let d = Date { year: y, month: mo, day: dy };
            if check_date_valid(&d) {
                proof {
                    lemma_date_chars_hyphen_shape(d);
                    assert(s@ =~= date_chars_hyphen(d));
                }
                Ok(d)
            } else {
                proof {
                    assert forall|d2: Date| date_valid(d2) implies s@ != date_chars_hyphen(
                        d2,
                    ) by {
                        if s@ == date_chars_hyphen(d2) {
                            lemma_date_chars_hyphen_shape(d2);
                            lemma_dec4_injective(d2.year as nat, y as nat);
                            lemma_dec2_injective(d2.month as nat, mo as nat);
                            lemma_dec2_injective(d2.day as nat, dy as nat);
                        }
                    }
                }
                Err(IClassError::FormatError)
            }
        },
        _ => {
            proof {
                assert forall|d2: Date| date_valid(d2) implies s@ != date_chars_hyphen(d2) by {
                    if s@ == date_chars_hyphen(d2) {
                        lemma_date_chars_hyphen_shape(d2);
                        lemma_dec2_dec4_digits(d2.year as nat, d2.month as nat, d2.day as nat);
                    }
                }
            }
            Err(IClassError::FormatError)
        },
    }
}

proof fn lemma_dec2_dec4_digits(y: nat, m: nat, d: nat)
    ensures
        forall|i: int| 0 <= i < 4 ==> is_dec_digit(#[trigger] dec4(y)[i]),
        forall|i: int| 0 <= i < 2 ==> is_dec_digit(#[trigger] dec2(m)[i]),
        forall|i: int| 0 <= i < 2 ==> is_dec_digit(#[trigger] dec2(d)[i]),
{
    assert(is_dec_digit(dec4(y)[0]));
    assert(is_dec_digit(dec4(y)[1]));
    assert(is_dec_digit(dec4(y)[2]));
    assert(is_dec_digit(dec4(y)[3]));
    assert(is_dec_digit(dec2(m)[0]));
    assert(is_dec_digit(dec2(m)[1]));
    assert(is_dec_digit(dec2(d)[0]));
    assert(is_dec_digit(dec2(d)[1]));
}

/// Decodes a `YYYY-MM-DD HH:MM:SS` local datetime string, interpreted in
/// the fixed UTC+8 offset. Succeeds exactly on the encodings of valid
/// datetimes.
pub fn decode_datetime(s: &str) -> (r: Result<DateTime, IClassError>)
    ensures
        match r {
            Ok(t) => datetime_valid(t) && s@ == datetime_chars(t),
            Err(e) => e == IClassError::FormatError && (forall|t: DateTime|
                datetime_valid(t) ==> s@ != datetime_chars(t)),
        },
{
    let n = s.unicode_len();
    if n != 19 {
        proof {
            assert forall|t: DateTime| datetime_valid(t) implies s@ != datetime_chars(t) by {
                lemma_datetime_chars_shape(t);
            }
        }
        return Err(IClassError::FormatError);
    }
    let y = read_dec4(s, 0);
    let mo = read_dec2(s, 5);
    let dy = read_dec2(s, 8);
    let ho = read_dec2(s, 11);
    let mi = read_dec2(s, 14);
    let se = read_dec2(s, 17);
    let seps = s.get_char(4) == '-' && s.get_char(7) == '-' && s.get_char(10) == ' '
        && s.get_char(13) == ':' && s.get_char(16) == ':';
    match (y, mo, dy, ho, mi, se) {
        (Some(y), Some(mo), Some(dy), Some(ho), Some(mi), Some(se)) if seps => {
            let d = Date { year: y, month: mo, day: dy };
            let t = DateTime { date: d, hour: ho, minute: mi, second: se };
            if check_date_valid(&d) && ho <= 23 && mi <= 59 && se <= 59 {
                proof {
                    lemma_datetime_chars_shape(t);
                    assert(s@ =~= datetime_chars(t));
                }
                Ok(t)
            } else {
                proof {
                    assert forall|t2: DateTime| datetime_valid(t2) implies s@ != datetime_chars(
                        t2,
                    ) by {
                        if s@ == datetime_chars(t2) {
                            lemma_datetime_chars_shape(t2);
                            lemma_dec4_injective(t2.date.year as nat, y as nat);
                            lemma_dec2_injective(t2.date.month as nat, mo as nat);
                            lemma_dec2_injective(t2.date.day as nat, dy as nat);
                            lemma_dec2_injective(t2.hour as nat, ho as nat);
                            lemma_dec2_injective(t2.minute as nat, mi as nat);
                            lemma_dec2_injective(t2.second as nat, se as nat);
                        }
                    }
                }
                Err(IClassError::FormatError)
            }
        },
        _ => {
            proof {
                assert forall|t2: DateTime| datetime_valid(t2) implies s@ != datetime_chars(
                    t2,
                ) by {
                    if s@ == datetime_chars(t2) {
                        lemma_datetime_chars_shape(t2);
                        lemma_dec2_dec4_digits(
                            t2.date.year as nat,
                            t2.date.month as nat,
                            t2.date.day as nat,
                        );
                        lemma_dec2_dec4_digits(t2.hour as nat, t2.minute as nat, t2.second as nat);
                    }
                }
            }
            Err(IClassError::FormatError)
        },
    }
}

proof fn lemma_same_date_chars(s: Seq<char>, a: Date, b: Date)
    requires
        a.year <= 9999,
        1 <= a.month <= 12,
        1 <= a.day <= 31,
        b.year < 10000,
        b.month < 100,
        b.day < 100,
        s == date_chars(a),
        s.subrange(0, 4) == dec4(b.year as nat),
        s.subrange(4, 6) == dec2(b.month as nat),
        s.subrange(6, 8) == dec2(b.day as nat),
    ensures
        a == b,
{
    assert(s =~= dec4(a.year as nat) + dec2(a.month as nat) + dec2(a.day as nat));
    assert(s.subrange(0, 4) =~= dec4(a.year as nat));
    assert(s.subrange(4, 6) =~= dec2(a.month as nat));
    assert(s.subrange(6, 8) =~= dec2(a.day as nat));
    lemma_dec4_injective(a.year as nat, b.year as nat);
    lemma_dec2_injective(a.month as nat, b.month as nat);
    lemma_dec2_injective(a.day as nat, b.day as nat);
}

/// An ASCII whitespace character, as `char::is_ascii_whitespace`
/// counts them: space, tab, line feed, form feed, carriage return.
pub open spec fn is_ascii_ws(c: char) -> bool {
    c == ' ' || c == '\t' || c == '\n' || c == '\u{c}' || c == '\r'
}

/// `s` without its leading ASCII whitespace.
pub open spec fn ws_trim_start(s: Seq<char>) -> Seq<char>
    decreases s.len(),
{
    if s.len() > 0 && is_ascii_ws(s[0]) {
        ws_trim_start(s.subrange(1, s.len() as int))
    } else {
        s
    }
}

/// `s` without its trailing ASCII whitespace.
pub open spec fn ws_trim_end(s: Seq<char>) -> Seq<char>
    decreases s.len(),
{
    if s.len() > 0 && is_ascii_ws(s.last()) {
        ws_trim_end(s.drop_last())
    } else {
        s
    }
}

/// `s` without its surrounding ASCII whitespace.
pub open spec fn ws_trim(s: Seq<char>) -> Seq<char> {
    ws_trim_end(ws_trim_start(s))
}

/// Strips surrounding ASCII whitespace off a string slice.
pub(crate) fn trim_ascii_ws(s: &str) -> (r: &str)
    ensures
        r@ == ws_trim(s@),
{
    let n = s.unicode_len();
    let mut start: usize = 0;
    proof {
        assert(s@.subrange(0, n as int) =~= s@);
    }
    loop
        invariant
            start <= n == s@.len(),
            ws_trim_start(s@) == ws_trim_start(s@.subrange(start as int, n as int)),
        ensures
            start <= n == s@.len(),
            ws_trim_start(s@) == s@.subrange(start as int, n as int),
        decreases n - start,
    {
        if start >= n {
            break;
        }
        let c = s.get_char(start);
        if !(c == ' ' || c == '\t' || c == '\n' || c == '\u{c}' || c == '\r') {
            break;
        }
        proof {
            let cur = s@.subrange(start as int, n as int);
            assert(cur[0] == s@[start as int]);
            assert(cur.subrange(1, cur.len() as int) =~= s@.subrange(start + 1, n as int));
        }
        start = start + 1;
    }
    let ghost mid = s@.subrange(start as int, n as int);
    let mut end: usize = n;
    loop
        invariant
            start <= end <= n == s@.len(),
            mid == s@.subrange(start as int, n as int),
            ws_trim_end(mid) == ws_trim_end(s@.subrange(start as int, end as int)),
        ensures
            start <= end <= n == s@.len(),
            ws_trim_end(mid) == s@.subrange(start as int, end as int),
        decreases end,
    {
        if end <= start {
            break;
        }
        let c = s.get_char(end - 1);
        proof {
            let cur = s@.subrange(start as int, end as int);
            assert(cur.last() == s@[end - 1]);
        }
        if !(c == ' ' || c == '\t' || c == '\n' || c == '\u{c}' || c == '\r') {
            break;
        }
        proof {
            let cur = s@.subrange(start as int, end as int);
            assert(cur.drop_last() =~= s@.subrange(start as int, end - 1));
        }
        end = end - 1;
    }
    s.substring_char(start, end)
}

/// A string that decodes as a boolean: exactly `"1"` or `"0"`.
pub open spec fn is_bool_str(s: Seq<char>) -> bool {
    s == "1"@ || s == "0"@
}

/// The boolean a bool string decodes to.
pub open spec fn bool_str_value(s: Seq<char>) -> bool {
    s == "1"@
}

/// A string that decodes as a `YYYYMMDD` date: the encoding of some
/// valid date.
pub open spec fn is_date_str(s: Seq<char>) -> bool {
    exists|d: Date| date_valid(d) && s == date_chars(d)
}

/// A string that decodes as a `YYYY-MM-DD HH:MM:SS` datetime: the
/// encoding of some valid datetime.
pub open spec fn is_datetime_str(s: Seq<char>) -> bool {
    exists|t: DateTime| datetime_valid(t) && s == datetime_chars(t)
}

/// The string slice holding one decimal digit character.
fn digit_str(v: u32) -> (r: &'static str)
    requires
        v < 10,
    ensures
        r@ =~= seq![digit_char(v as nat)],
{
    proof {
        reveal_strlit("0");
        reveal_strlit("1");
        reveal_strlit("2");
        reveal_strlit("3");
        reveal_strlit("4");
        reveal_strlit("5");
        reveal_strlit("6");
        reveal_strlit("7");
        reveal_strlit("8");
        reveal_strlit("9");
    }
    match v {
        0 => "0",
        1 => "1",
        2 => "2",
        3 => "3",
        4 => "4",
        5 => "5",
        6 => "6",
        7 => "7",
        8 => "8",
        _ => "9",
    }
}

/// Appends the two-digit zero-padded encoding of `v`.
fn push_dec2(out: &mut String, v: u32)
    requires
        v < 100,
    ensures
        final(out)@ == old(out)@ + dec2(v as nat),
{
    out.append(digit_str(v / 10 % 10));
    out.append(digit_str(v % 10));
    proof {
        assert(final(out)@ =~= old(out)@ + dec2(v as nat));
    }
}

/// Appends the four-digit zero-padded encoding of `v`.
fn push_dec4(out: &mut String, v: u32)
    requires
        v < 10000,
    ensures
        final(out)@ == old(out)@ + dec4(v as nat),
{
    out.append(digit_str(v / 1000 % 10));
    out.append(digit_str(v / 100 % 10));
    out.append(digit_str(v / 10 % 10));
    out.append(digit_str(v % 10));
    proof {
        assert(final(out)@ =~= old(out)@ + dec4(v as nat));
    }
}

/// Formats a date as `YYYYMMDD`: the exact inverse of [`decode_date`],
/// used when building outgoing query parameters.
pub fn format_date_to_str(date: &Date) -> (r: String)
    requires
        date_valid(*date),
    ensures
        r@ == date_chars(*date),
{
    let mut out = String::new();
    push_dec4(&mut out, date.year);
    push_dec2(&mut out, date.month);
    push_dec2(&mut out, date.day);
    proof {
        assert(out@ =~= date_chars(*date));
    }
    out
}

/// Formats a date as `YYYY-MM-DD`: the exact inverse of
/// [`decode_date_hyphen`], used for display.
pub fn format_date_to_hyphen_str(date: &Date) -> (r: String)
    requires
        date_valid(*date),
    ensures
        r@ == date_chars_hyphen(*date),
{
    proof {
        reveal_strlit("-");
    }
    let mut out = String::new();
    push_dec4(&mut out, date.year);
    out.append("-");
    push_dec2(&mut out, date.month);
    out.append("-");
    push_dec2(&mut out, date.day);
    proof {
        assert(out@ =~= date_chars_hyphen(*date));
    }
    out
}

/// Formats a datetime as `YYYY-MM-DD HH:MM:SS` without a zone marker:
/// the exact inverse of [`decode_datetime`].
pub fn format_datetime_to_str(datetime: &DateTime) -> (r: String)
    requires
        datetime_valid(*datetime),
    ensures
        r@ == datetime_chars(*datetime),
{
    proof {
        reveal_strlit(" ");
        reveal_strlit(":");
    }
    let mut out = format_date_to_hyphen_str(&datetime.date);
    out.append(" ");
    push_dec2(&mut out, datetime.hour);
    out.append(":");
    push_dec2(&mut out, datetime.minute);
    out.append(":");
    push_dec2(&mut out, datetime.second);
    proof {
        assert(out@ =~= datetime_chars(*datetime));
    }
    out
}

/// Round-trip law for the `YYYYMMDD` encoding: a valid date is the only
/// valid date with its encoding, so decoding what [`format_date_to_str`]
/// produced gives back exactly the original date.
pub proof fn lemma_date_round_trip(d1: Date, d2: Date)
    requires
        date_valid(d1),
        date_valid(d2),
        date_chars(d1) == date_chars(d2),
    ensures
        d1 == d2,
{
    assert(date_chars(d2).subrange(0, 4) =~= dec4(d2.year as nat));
    assert(date_chars(d2).subrange(4, 6) =~= dec2(d2.month as nat));
    assert(date_chars(d2).subrange(6, 8) =~= dec2(d2.day as nat));
    lemma_same_date_chars(date_chars(d1), d1, d2);
}

/// Round-trip law for the `YYYY-MM-DD HH:MM:SS` encoding: a valid
/// datetime is the only valid datetime with its encoding, so decoding
/// what [`format_datetime_to_str`] produced gives back exactly the
/// original datetime.
pub proof fn lemma_datetime_round_trip(t1: DateTime, t2: DateTime)
    requires
        datetime_valid(t1),
        datetime_valid(t2),
        datetime_chars(t1) == datetime_chars(t2),
    ensures
        t1 == t2,
{
    lemma_datetime_chars_shape(t1);
    lemma_datetime_chars_shape(t2);
    lemma_dec4_injective(t1.date.year as nat, t2.date.year as nat);
    lemma_dec2_injective(t1.date.month as nat, t2.date.month as nat);
    lemma_dec2_injective(t1.date.day as nat, t2.date.day as nat);
    lemma_dec2_injective(t1.hour as nat, t2.hour as nat);
    lemma_dec2_injective(t1.minute as nat, t2.minute as nat);
    lemma_dec2_injective(t1.second as nat, t2.second as nat);
}

/// The ordinary decimal encoding of `n`, without leading zeros (`0`
/// encodes as `"0"`).
pub open spec fn dec_seq(n: nat) -> Seq<char>
    decreases n,
{
    if n < 10 {
        seq![digit_char(n)]
    } else {
        dec_seq(n / 10) + seq![digit_char(n % 10)]
    }
}

/// Formats an unsigned number in ordinary decimal.
pub fn u128_to_string(n: u128) -> (r: String)
    ensures
        r@ == dec_seq(n as nat),
{
    let mut digs: Vec<u32> = Vec::new();
    let mut m: u128 = n;
    while m >= 10
        invariant
            forall|k: int| 0 <= k < digs@.len() ==> #[trigger] digs@[k] < 10,
            dec_seq(n as nat) =~= dec_seq(m as nat) + rev_digit_chars(digs@),
        decreases m,
    {
        let d = (m % 10) as u32;
        proof {
            assert(dec_seq(m as nat) == dec_seq((m / 10) as nat) + seq![
                digit_char((m % 10) as nat),
            ]);
            lemma_rev_digit_chars_push(digs@, d);
        }
        digs.push(d);
        m = m / 10;
    }
    proof {
        lemma_rev_digit_chars_push(digs@, m as u32);
    }
    digs.push(m as u32);
    proof {
        assert(dec_seq(n as nat) =~= rev_digit_chars(digs@));
    }
    let mut out = String::new();
    let mut i = digs.len();
    while i > 0
        invariant
            i <= digs@.len(),
            forall|k: int| 0 <= k < digs@.len() ==> #[trigger] digs@[k] < 10,
            out@ =~= rev_digit_chars(digs@).subrange(0, digs@.len() - i),
        decreases i,
    {
        i = i - 1;
        let d = digs[i];
        out.append(digit_str(d));
        proof {
            assert(out@ =~= rev_digit_chars(digs@).subrange(0, digs@.len() - i));
        }
    }
    proof {
        assert(out@ =~= rev_digit_chars(digs@));
    }
    out
}

/// The digit characters of `digs`, least significant first, reversed.
spec fn rev_digit_chars(digs: Seq<u32>) -> Seq<char> {
    Seq::new(digs.len(), |i: int| digit_char(digs[digs.len() - 1 - i] as nat))
}

proof fn lemma_rev_digit_chars_push(digs: Seq<u32>, d: u32)
    ensures
        rev_digit_chars(digs.push(d)) =~= seq![digit_char(d as nat)] + rev_digit_chars(digs),
{
}

/// The decimal encoding of a signed number.
pub open spec fn int_dec_seq(v: int) -> Seq<char> {
    if v < 0 {
        seq!['-'] + dec_seq((-v) as nat)
    } else {
        dec_seq(v as nat)
    }
}

/// Formats a signed 8-bit number in ordinary decimal.
pub fn i8_to_string(v: i8) -> (r: String)
    ensures
        r@ == int_dec_seq(v as int),
{
    proof {
        reveal_strlit("-");
    }
    if v < 0 {
        let mag: u128 = (-(v as i32)) as u128;
        let mut out = String::new();
        out.append("-");
        let digits = u128_to_string(mag);
        out.append(digits.as_str());
        proof {
            assert(out@ =~= int_dec_seq(v as int));
        }
        out
    } else {
        u128_to_string(v as u128)
    }
}

} // verus!
