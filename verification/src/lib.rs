//! Client library for the UCAS iClass attendance-tracking service.
//!
//! The library holds the verified core: codecs for the service's ad hoc
//! string encodings, the response envelope, session state, and builders
//! for the HTTP requests of each operation. Sending the requests and
//! reading the replies is the caller's job; everything the library
//! computes is specified and proved.

use vstd::prelude::*;

pub mod cli;
pub mod codec;
pub mod request;
pub mod util;

pub mod checkin;
pub mod login;
pub mod query;
pub mod render;

pub use checkin::CheckInResult;
pub use checkin::RawCheckInResult;
pub use login::UserSessionInfo;
pub use query::Course;
pub use query::DailySchedule;
pub use query::RawDailySchedule;
pub use query::RawSchedule;
pub use query::RawSemester;
pub use query::Schedule;
pub use query::Semester;
pub use render::check_in_display;
pub use render::course_display;
pub use render::daily_schedule_display;
pub use render::display_check_in_result;
pub use render::display_course;
pub use render::display_daily_schedule;
pub use render::display_schedule;
pub use render::schedule_display;
use crate::codec::decode_i8;
use crate::codec::decode_opt_i8;
use crate::codec::i8_to_string;
use crate::codec::int_dec_seq;
use crate::codec::int_str_value;

verus! {

/// The root URL of the iClass platform.
pub const API_ROOT: &'static str = "https://iclass.ucas.edu.cn:8181/";

/// Status code of a successful response.
pub const STATUS_SUCCESS: i8 = 0;

/// Status code the service reserves for an unknown user.
pub const STATUS_USER_NOT_FOUND: i8 = 106;

/// Status code the service reserves for a wrong password.
pub const STATUS_WRONG_PASSWORD: i8 = 107;

/// Possible errors when interacting with the iClass platform.
#[derive(Clone, Debug, PartialEq, Eq)]
pub enum IClassError {
    /// The user has not logged in.
    NotLoggedIn,
    /// The credentials were rejected by the service.
    AuthenticationFailed,
    /// Other API errors, with the upstream-provided message.
    ApiError(String),
    /// Error parsing data from the server: a success status without a
    /// payload.
    DataParsingError,
    /// Network or HTTP-layer failure, including URL construction.
    TransportError(String),
    /// A date, time, boolean or integer field failed to decode.
    FormatError,
}

/// The iClass client: the API root and the active session, if any.
pub struct IClass {
    /// API root URL; paths are appended to it, so it ends with `/`.
    pub api_root: String,
    /// User session information. Exactly zero or one session is active;
    /// a new login replaces the previous session wholesale.
    pub user_session: Option<UserSessionInfo>,
}

impl IClass {
    /// The API root this client sends its requests to.
    pub open spec fn spec_api_root(&self) -> Seq<char> {
        self.api_root@
    }

    /// Creates a new client for the iClass platform, with no session.
    pub fn new() -> (r: Self)
        ensures
            r.spec_api_root() == API_ROOT@,
            r.user_session is None,
    {
        Self { api_root: String::from_str(API_ROOT), user_session: None }
    }

    /// Creates a new client with the given API root URL, with no
    /// session. The root must end with `/` for the request URLs to be
    /// well formed.
    pub fn with_api_root(url: String) -> (r: Self)
        ensures
            r.spec_api_root() == url@,
            r.user_session is None,
    {
        Self { api_root: url, user_session: None }
    }

    /// Gets a reference to the user session, or fails with
    /// [`IClassError::NotLoggedIn`]. Every authenticated operation goes
    /// through this first, so a missing session short-circuits before
    /// any request is built.
    pub fn get_user_session(&self) -> (r: Result<&UserSessionInfo, IClassError>)
        ensures
            match self.user_session {
                Some(s) => r is Ok && *r.unwrap() == s,
                None => r == Err::<&UserSessionInfo, IClassError>(IClassError::NotLoggedIn),
            },
    {
        match &self.user_session {
            Some(s) => Ok(s),
            None => Err(IClassError::NotLoggedIn),
        }
    }

    /// Stores `session` as the active session, replacing any prior one
    /// wholesale.
    pub fn store_session(&mut self, session: UserSessionInfo)
        ensures
            final(self).user_session == Some(session),
            final(self).spec_api_root() == old(self).spec_api_root(),
    {
        self.user_session = Some(session);
    }

    /// The full URL of an endpoint: the API root with `path` appended.
    pub(crate) fn endpoint_url(&self, path: &str) -> (r: String)
        ensures
            r@ == self.spec_api_root() + path@,
    {
        let mut url = self.api_root.clone();
        url.append(path);
        url
    }
}

impl Default for IClass {
    /// A fresh client for the iClass platform, with no session.
    fn default() -> (r: Self)
        ensures
            r.spec_api_root() == API_ROOT@,
            r.user_session is None,
    {
        Self::new()
    }
}

/// A numeric-as-string field that does not read as a signed 8-bit
/// integer.
pub open spec fn i8_str_fails(s: Seq<char>) -> bool {
    match int_str_value(s) {
        Some(v) => v < -128 || v > 127,
        None => true,
    }
}

/// A response envelope as it comes off the wire, before the
/// numeric-as-string fields are decoded.
#[derive(Clone, Debug)]
pub struct RawResponse<T> {
    /// The status code, as the string the service sent.
    pub status: String,
    /// The optional error code, as the string the service sent.
    pub err_code: Option<String>,
    /// The optional error message.
    pub err_msg: Option<String>,
    /// The result data.
    pub result: Option<T>,
}

/// Generic response envelope from the iClass API, with decoded fields.
#[derive(Clone, Debug)]
pub struct Response<T> {
    /// The status code of the response, `0` for success.
    pub status: i8,
    /// Optional error code.
    pub err_code: Option<i8>,
    /// Optional error message.
    pub err_msg: Option<String>,
    /// The result data. Meaningful only when `status` is `0`.
    pub result: Option<T>,
}

/// Decodes the numeric-as-string fields of a wire envelope. Fails with a
/// format error exactly when the status, or a present error code, does
/// not read as a signed 8-bit integer.
pub fn decode_envelope<T>(raw: RawResponse<T>) -> (r: Result<Response<T>, IClassError>)
    ensures
        match r {
            Ok(resp) => {
                &&& int_str_value(raw.status@) == Some(resp.status as int)
                &&& match (raw.err_code, resp.err_code) {
                    (None, None) => true,
                    (Some(s), Some(v)) => int_str_value(s@) == Some(v as int),
                    _ => false,
                }
                &&& resp.err_msg == raw.err_msg
                &&& resp.result == raw.result
            },
            Err(e) => {
                &&& e == IClassError::FormatError
                &&& (i8_str_fails(raw.status@) || (raw.err_code matches Some(c) && i8_str_fails(
                    c@,
                )))
            },
        },
{
    let status = match decode_i8(raw.status.as_str()) {
        Ok(v) => v,
        Err(e) => {
            return Err(e);
        },
    };
    let err_code = match decode_opt_i8(&raw.err_code) {
        Ok(v) => v,
        Err(e) => {
            return Err(e);
        },
    };
    Ok(Response { status, err_code, err_msg: raw.err_msg, result: raw.result })
}

/// The fallback message for a failure the service sent no message for:
/// it carries the envelope's scalar fields — the status and, when
/// present, the error code. The generic payload has no rendering, so it
/// cannot be part of the message.
pub open spec fn unknown_error_msg(status: i8, err_code: Option<i8>) -> Seq<char> {
    "unknown error, status "@ + int_dec_seq(status as int) + (match err_code {
        Some(c) => ", code "@ + int_dec_seq(c as int),
        None => Seq::<char>::empty(),
    })
}

impl<T> Response<T> {
    /// Converts the envelope into a [`Result`], translating status codes
    /// into errors: status `0` yields the payload, or a data-parsing
    /// error when the payload is absent; the two reserved auth-failure
    /// statuses yield [`IClassError::AuthenticationFailed`] regardless
    /// of any message; any other non-zero status yields
    /// [`IClassError::ApiError`] with the upstream message, or a generic
    /// fallback carrying the envelope's status and error code when
    /// absent.
    pub fn into_result(self) -> (r: Result<T, IClassError>)
        ensures
            self.status == STATUS_SUCCESS ==> match self.result {
                Some(v) => r == Ok::<T, IClassError>(v),
                None => r == Err::<T, IClassError>(IClassError::DataParsingError),
            },
            (self.status == STATUS_USER_NOT_FOUND || self.status == STATUS_WRONG_PASSWORD) ==> r
                == Err::<T, IClassError>(IClassError::AuthenticationFailed),
            (self.status != STATUS_SUCCESS && self.status != STATUS_USER_NOT_FOUND && self.status
                != STATUS_WRONG_PASSWORD) ==> (r matches Err(IClassError::ApiError(m)) && m@ == (
            match self.err_msg {
                Some(t) => t@,
                None => unknown_error_msg(self.status, self.err_code),
            })),
    {
        if self.status == STATUS_SUCCESS {
            match self.result {
                Some(v) => Ok(v),
                None => Err(IClassError::DataParsingError),
            }
        } else if self.status == STATUS_USER_NOT_FOUND || self.status == STATUS_WRONG_PASSWORD {
            Err(IClassError::AuthenticationFailed)
        } else {
            match self.err_msg {
                Some(m) => Err(IClassError::ApiError(m)),
                None => {
                    let mut msg = String::from_str("unknown error, status ");
                    let digits = i8_to_string(self.status);
                    msg.append(digits.as_str());
                    if let Some(code) = self.err_code {
                        msg.append(", code ");
                        let code_digits = i8_to_string(code);
                        msg.append(code_digits.as_str());
                    }
                    proof {
                        assert(msg@ =~= unknown_error_msg(self.status, self.err_code));
                    }
                    Err(IClassError::ApiError(msg))
                },
            }
        }
    }
}

} // verus!
