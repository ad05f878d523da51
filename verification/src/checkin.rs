//! Check-in to a scheduled class session, by either of the service's
//! two identifier spaces.

use vstd::prelude::*;

use crate::codec::bool_str_value;
use crate::codec::dec_seq;
use crate::codec::decode_bool;
use crate::codec::is_bool_str;
use crate::codec::u128_to_string;
use crate::request::HttpRequest;
use crate::request::Method;
use crate::request::QueryParam;
use crate::IClass;
use crate::IClassError;

verus! {

/// The result of a check-in request.
#[derive(Clone, Debug, PartialEq, Eq)]
pub struct CheckInResult {
    /// Check-in ID: the serial number of the check-in record.
    pub id: String,
    /// Whether the check-in succeeded.
    pub status: bool,
}

/// A check-in result as it comes off the wire, before its boolean field
/// is decoded.
#[derive(Clone, Debug)]
pub struct RawCheckInResult {
    /// Check-in ID.
    pub id: String,
    /// Check-in status, as the string the service sent.
    pub status: String,
}

/// The raw fields of a check-in result decode without error.
pub open spec fn check_in_raw_ok(raw: RawCheckInResult) -> bool {
    is_bool_str(raw.status@)
}

/// `c` is the decoding of the wire check-in result `raw`.
pub open spec fn check_in_decodes_to(raw: RawCheckInResult, c: CheckInResult) -> bool {
    &&& c.id == raw.id
    &&& is_bool_str(raw.status@)
    &&& c.status == bool_str_value(raw.status@)
}

/// Decodes a wire check-in result. Fails with a format error exactly
/// when its boolean field is malformed.
pub fn decode_check_in_result(raw: &RawCheckInResult) -> (r: Result<CheckInResult, IClassError>)
    ensures
        match r {
            Ok(c) => check_in_decodes_to(*raw, c),
            Err(e) => e == IClassError::FormatError && !check_in_raw_ok(*raw),
        },
{
    let status = match decode_bool(raw.status.as_str()) {
        Ok(b) => b,
        Err(e) => {
            return Err(e);
        },
    };
    Ok(CheckInResult { id: raw.id.clone(), status })
}

impl IClass {
    /// Builds the check-in request for a schedule uuid — the identifier
    /// from the QR code on the smart device outside the classroom —
    /// with the client-generated timestamp in milliseconds. Fails with
    /// [`IClassError::NotLoggedIn`] when no session is active, before
    /// any request exists to send.
    pub fn check_in_by_uuid_request(&self, schedule_uuid: &str, timestamp: u128) -> (r: Result<
        HttpRequest,
        IClassError,
    >)
        ensures
            self.user_session is None ==> r == Err::<HttpRequest, IClassError>(
                IClassError::NotLoggedIn,
            ),
            self.user_session matches Some(session) ==> r matches Ok(q) && {
                &&& q.method == Method::Get
                &&& q.url@ == self.spec_api_root() + "app/course/stu_scan_sign.action"@
                &&& q.session_header matches Some(h) && h@ == session.session_id@
                &&& q.query@.len() == 3
                &&& q.query@[0].key@ == "timeTableId"@ && q.query@[0].value@ == schedule_uuid@
                &&& q.query@[1].key@ == "timestamp"@ && q.query@[1].value@ == dec_seq(
                    timestamp as nat,
                )
                &&& q.query@[2].key@ == "id"@ && q.query@[2].value@ == session.id@
            },
    {
        let session = match self.get_user_session() {
            Ok(s) => s,
            Err(e) => {
                return Err(e);
            },
        };
        let url = self.endpoint_url("app/course/stu_scan_sign.action");
        let mut query: Vec<QueryParam> = Vec::new();
        query.push(
            QueryParam { key: String::from_str("timeTableId"), value: schedule_uuid.to_owned() },
        );
        query.push(
            QueryParam { key: String::from_str("timestamp"), value: u128_to_string(timestamp) },
        );
        query.push(QueryParam { key: String::from_str("id"), value: session.id.clone() });
        Ok(
            HttpRequest {
                method: Method::Get,
                url,
                session_header: Some(session.session_id.clone()),
                query,
            },
        )
    }

    /// Builds the check-in request for a schedule id — the identifier
    /// from the QR code on the computer inside the classroom — with the
    /// client-generated timestamp in milliseconds. Fails with
    /// [`IClassError::NotLoggedIn`] when no session is active, before
    /// any request exists to send.
    pub fn check_in_by_id_request(&self, schedule_id: &str, timestamp: u128) -> (r: Result<
        HttpRequest,
        IClassError,
    >)
        ensures
            self.user_session is None ==> r == Err::<HttpRequest, IClassError>(
                IClassError::NotLoggedIn,
            ),
            self.user_session matches Some(session) ==> r matches Ok(q) && {
                &&& q.method == Method::Get
                &&& q.url@ == self.spec_api_root() + "app/course/stu_scan_sign.action"@
                &&& q.session_header matches Some(h) && h@ == session.session_id@
                &&& q.query@.len() == 3
                &&& q.query@[0].key@ == "courseSchedId"@ && q.query@[0].value@ == schedule_id@
                &&& q.query@[1].key@ == "timestamp"@ && q.query@[1].value@ == dec_seq(
                    timestamp as nat,
                )
                &&& q.query@[2].key@ == "id"@ && q.query@[2].value@ == session.id@
            },
    {
        let session = match self.get_user_session() {
            Ok(s) => s,
            Err(e) => {
                return Err(e);
            },
        };
        let url = self.endpoint_url("app/course/stu_scan_sign.action");
        let mut query: Vec<QueryParam> = Vec::new();
        query.push(
            QueryParam { key: String::from_str("courseSchedId"), value: schedule_id.to_owned() },
        );
        query.push(
            QueryParam { key: String::from_str("timestamp"), value: u128_to_string(timestamp) },
        );
        query.push(QueryParam { key: String::from_str("id"), value: session.id.clone() });
        Ok(
            HttpRequest {
                method: Method::Get,
                url,
                session_header: Some(session.session_id.clone()),
                query,
            },
        )
    }
}

} // verus!
