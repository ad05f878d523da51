//! Login and session state.

use vstd::prelude::*;

use crate::request::HttpRequest;
use crate::request::Method;
use crate::request::QueryParam;
use crate::unknown_error_msg;
use crate::IClass;
use crate::IClassError;
use crate::Response;
use crate::STATUS_SUCCESS;
use crate::STATUS_USER_NOT_FOUND;
use crate::STATUS_WRONG_PASSWORD;

verus! {

/// User session information returned after login: the authenticated
/// identity that gates every other operation.
#[derive(Clone, Debug, PartialEq, Eq)]
pub struct UserSessionInfo {
    /// ID of the user.
    pub id: String,
    /// Session ID: the opaque token attached to every authenticated
    /// call.
    pub session_id: String,
    /// Real name.
    pub real_name: String,
    /// Student number.
    pub student_no: String,
}

impl IClass {
    /// Builds the login request: a single unauthenticated POST carrying
    /// the credentials as query parameters, not headers.
    pub fn login_request(&self, username: &str, password: &str) -> (r: HttpRequest)
        ensures
            r.method == Method::Post,
            r.url@ == self.spec_api_root() + "app/user/login.action"@,
            r.session_header is None,
            r.query@.len() == 2,
            r.query@[0].key@ == "phone"@ && r.query@[0].value@ == username@,
            r.query@[1].key@ == "password"@ && r.query@[1].value@ == password@,
    {
        let url = self.endpoint_url("app/user/login.action");
        let mut query: Vec<QueryParam> = Vec::new();
        query.push(QueryParam { key: String::from_str("phone"), value: username.to_owned() });
        query.push(
            QueryParam { key: String::from_str("password"), value: password.to_owned() },
        );
        HttpRequest { method: Method::Post, url, session_header: None, query }
    }

    /// Applies a decoded login response: on success stores the returned
    /// session, replacing any prior one wholesale; on failure leaves the
    /// session as it was and surfaces the envelope's error.
    pub fn apply_login_response(&mut self, response: Response<UserSessionInfo>) -> (r: Result<
        (),
        IClassError,
    >)
        ensures
            final(self).spec_api_root() == old(self).spec_api_root(),
            match r {
                Ok(()) => {
                    &&& response.status == STATUS_SUCCESS
                    &&& response.result is Some
                    &&& final(self).user_session == Some(response.result.unwrap())
                },
                Err(e) => {
                    &&& final(self).user_session == old(self).user_session
                    &&& (response.status == STATUS_SUCCESS ==> response.result is None && e
                        == IClassError::DataParsingError)
                    &&& ((response.status == STATUS_USER_NOT_FOUND || response.status
                        == STATUS_WRONG_PASSWORD) ==> e == IClassError::AuthenticationFailed)
                    &&& ((response.status != STATUS_SUCCESS && response.status
                        != STATUS_USER_NOT_FOUND && response.status != STATUS_WRONG_PASSWORD) ==> (
                    e matches IClassError::ApiError(m) && m@ == (match response.err_msg {
                        Some(t) => t@,
                        None => unknown_error_msg(response.status, response.err_code),
                    })))
                },
            },
    {
        match response.into_result() {
            Ok(session) => {
                self.store_session(session);
                Ok(())
            },
            Err(e) => Err(e),
        }
    }
}

} // verus!
