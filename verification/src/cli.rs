//! Plain data for the command-line surface, and the caller-facing
//! decisions it needs: timestamp/offset resolution and identifier
//! classification.

use vstd::prelude::*;

use crate::codec::digits_val;
use crate::codec::is_dec_digit;
use crate::codec::parse_digits_u128;
use crate::codec::seq_is_digits;
use crate::codec::trim_ascii_ws;
use crate::codec::ws_trim;
use crate::codec::Date;
use crate::util::current_timestamp_millis;
use crate::IClassError;

verus! {

/// iClass command line: the API root override and the subcommand.
#[derive(Clone, Debug)]
pub struct Cli {
    /// API root URL, defaulting to the UCAS iClass API root.
    pub api_root: Option<String>,
    /// The subcommand to run.
    pub subcommand: SubCommands,
}

/// The available subcommands.
#[derive(Clone, Debug)]
pub enum SubCommands {
    /// Login to iClass and save the session to a file.
    Login(Login),
    /// List courses in the current semester.
    Courses(Courses),
    /// Get the schedule for a specific date or week, defaulting to
    /// today.
    Schedule(Schedule),
    /// Check in for a specific schedule by id or uuid, defaulting to
    /// the current schedule if any.
    CheckIn(CheckIn),
}

/// Login to iClass and save the session to a file.
#[derive(Clone, Debug)]
pub struct Login {
    /// The username.
    pub username: String,
    /// The password.
    pub password: String,
    /// The session file path to save to.
    pub session_file: String,
}

/// List courses in the current semester.
#[derive(Clone, Debug)]
pub struct Courses {
    /// The session file path to load from.
    pub session_file: String,
}

/// Get the schedule for a specific date or week.
#[derive(Clone, Debug)]
pub struct Schedule {
    /// The date to get the schedule for.
    pub date: Date,
    /// Show the weekly schedule instead of the daily schedule.
    pub weekly: bool,
    /// The session file path to load from.
    pub session_file: String,
}

/// Check in for a specific schedule by id or uuid.
#[derive(Clone, Debug)]
pub struct CheckIn {
    /// The schedule id or uuid, defaulting to the current schedule if
    /// any.
    pub id_or_uuid: Option<String>,
    /// Timestamp or offset (prefixed with `+` or `-`) to the current
    /// time in milliseconds, defaulting to `+0` (current time).
    pub timestamp_or_offset: Option<String>,
    /// The session file path to load from.
    pub session_file: String,
}

/// Timestamp or offset for a check-in: an absolute timestamp in
/// milliseconds, or a signed offset relative to "now", letting a caller
/// compensate for known clock skew against the service.
#[derive(Clone, Copy, Debug, PartialEq, Eq, Structural)]
pub enum TimestampOrOffset {
    /// A specific timestamp in milliseconds.
    Timestamp(u128),
    /// Positive offset to the current time in milliseconds.
    Plus(u128),
    /// Negative offset to the current time in milliseconds.
    Minus(u128),
}

impl TimestampOrOffset {
    /// What resolution yields at current time `now`: an absolute value
    /// passes through unchanged; `+N` adds, saturating at the type's
    /// maximum; `-N` subtracts, saturating at zero rather than
    /// underflowing.
    pub open spec fn spec_resolve_at(self, now: u128) -> u128 {
        match self {
            TimestampOrOffset::Timestamp(ts) => ts,
            TimestampOrOffset::Plus(off) => if now + off > u128::MAX {
                u128::MAX
            } else {
                (now + off) as u128
            },
            TimestampOrOffset::Minus(off) => if now >= off {
                (now - off) as u128
            } else {
                0
            },
        }
    }

    /// Resolves to a timestamp in milliseconds, taking the current time
    /// as an argument.
    pub fn resolve_at(&self, now: u128) -> (r: u128)
        ensures
            r == self.spec_resolve_at(now),
    {
        match self {
            TimestampOrOffset::Timestamp(ts) => *ts,
            TimestampOrOffset::Plus(off) => now.saturating_add(*off),
            TimestampOrOffset::Minus(off) => now.saturating_sub(*off),
        }
    }

    /// Resolves to a timestamp in milliseconds against the machine
    /// clock.
    pub fn resolve(&self) -> (r: u128)
        ensures
            self matches TimestampOrOffset::Timestamp(ts) ==> r == ts,
            exists|now: u128| r == self.spec_resolve_at(now),
    {
        let now = current_timestamp_millis();
        self.resolve_at(now)
    }
}

impl Default for TimestampOrOffset {
    /// The default is `+0`: "now".
    fn default() -> (r: Self)
        ensures
            r == TimestampOrOffset::Plus(0u128),
    {
        TimestampOrOffset::Plus(0)
    }
}

/// The reading of a timestamp-or-offset string: an optional `+` or `-`
/// prefix, then an unsigned decimal number of milliseconds.
pub open spec fn spec_parse_timestamp_or_offset(s: Seq<char>) -> Option<TimestampOrOffset> {
    if s.len() >= 2 && (s[0] == '+' || s[0] == '-') && seq_is_digits(
        s.subrange(1, s.len() as int),
    ) && digits_val(s.subrange(1, s.len() as int)) <= u128::MAX {
        if s[0] == '+' {
            Some(TimestampOrOffset::Plus(digits_val(s.subrange(1, s.len() as int)) as u128))
        } else {
            Some(TimestampOrOffset::Minus(digits_val(s.subrange(1, s.len() as int)) as u128))
        }
    } else if s.len() >= 1 && seq_is_digits(s) && digits_val(s) <= u128::MAX {
        Some(TimestampOrOffset::Timestamp(digits_val(s) as u128))
    } else {
        None
    }
}

/// Parses a timestamp-or-offset string: `+N` and `-N` are offsets to
/// the current time in milliseconds, an unprefixed number is an
/// absolute timestamp. Surrounding ASCII whitespace is ignored.
pub fn parse_timestamp_or_offset(arg: &str) -> (r: Result<TimestampOrOffset, IClassError>)
    ensures
        match r {
            Ok(t) => spec_parse_timestamp_or_offset(ws_trim(arg@)) == Some(t),
            Err(e) => e == IClassError::FormatError && spec_parse_timestamp_or_offset(
                ws_trim(arg@),
            ) is None,
        },
{
    let s = trim_ascii_ws(arg);
    let n = s.unicode_len();
    if n == 0 {
        return Err(IClassError::FormatError);
    }
    let c0 = s.get_char(0);
    let signed = c0 == '+' || c0 == '-';
    let start: usize = if signed {
        1
    } else {
        0
    };
    proof {
        if start == 0 {
            assert(s@.subrange(0, n as int) =~= s@);
        }
    }
    match parse_digits_u128(s, start, n) {
        Some(v) => {
            if c0 == '+' {
                Ok(TimestampOrOffset::Plus(v))
            } else if c0 == '-' {
                Ok(TimestampOrOffset::Minus(v))
            } else {
                Ok(TimestampOrOffset::Timestamp(v))
            }
        },
        None => Err(IClassError::FormatError),
    }
}

/// Which identifier space a check-in argument belongs to.
#[derive(Clone, Copy, Debug, PartialEq, Eq, Structural)]
pub enum IdentifierKind {
    /// A schedule uuid: 32 hexadecimal digits.
    Uuid,
    /// A schedule id: all decimal digits.
    Id,
    /// Neither: rejected before any request is built.
    Invalid,
}

/// A hexadecimal digit character.
pub open spec fn is_hex_digit(c: char) -> bool {
    is_dec_digit(c) || (97 <= c as u32 && c as u32 <= 102) || (65 <= c as u32 && c as u32 <= 70)
}

/// Identifier classification: a 32-character string of hexadecimal
/// digits is a uuid; otherwise an all-digit string is an id; anything
/// else is a caller error.
pub open spec fn spec_classify_identifier(s: Seq<char>) -> IdentifierKind {
    if s.len() == 32 && (forall|i: int| 0 <= i < s.len() ==> is_hex_digit(s[i])) {
        IdentifierKind::Uuid
    } else if forall|i: int| 0 <= i < s.len() ==> is_dec_digit(s[i]) {
        IdentifierKind::Id
    } else {
        IdentifierKind::Invalid
    }
}

/// Classifies a check-in identifier as uuid, id, or invalid: the caller
/// must know which identifier space it holds before a check-in request
/// can be built.
pub fn classify_identifier(s: &str) -> (k: IdentifierKind)
    ensures
        k == spec_classify_identifier(s@),
{
    let n = s.unicode_len();
    let mut all_hex = true;
    let mut all_dec = true;
    let mut i: usize = 0;
    while i < n
        invariant
            i <= n == s@.len(),
            all_hex == (forall|j: int| 0 <= j < i ==> is_hex_digit(s@[j])),
            all_dec == (forall|j: int| 0 <= j < i ==> is_dec_digit(s@[j])),
        decreases n - i,
    {
        let c = s.get_char(i);
        let u = c as u32;
        let hex = (48 <= u && u <= 57) || (97 <= u && u <= 102) || (65 <= u && u <= 70);
        let dec = 48 <= u && u <= 57;
        all_hex = all_hex && hex;
        all_dec = all_dec && dec;
        i = i + 1;
    }
    if n == 32 && all_hex {
        IdentifierKind::Uuid
    } else if all_dec {
        IdentifierKind::Id
    } else {
        IdentifierKind::Invalid
    }
}

} // verus!
