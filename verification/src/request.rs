//! A description of one outbound HTTP request: everything the transport
//! layer needs to send it. The library builds these; the caller sends
//! them.

use vstd::prelude::*;

verus! {

/// The HTTP method of a request.
#[derive(Clone, Copy, Debug, PartialEq, Eq, Structural)]
pub enum Method {
    /// An HTTP GET request.
    Get,
    /// An HTTP POST request.
    Post,
}

/// One query parameter of a request.
#[derive(Clone, Debug)]
pub struct QueryParam {
    /// The parameter name.
    pub key: String,
    /// The parameter value.
    pub value: String,
}

/// One outbound request: method, full URL, the optional `sessionId`
/// header value, and the query parameters, in order.
#[derive(Clone, Debug)]
pub struct HttpRequest {
    /// The HTTP method.
    pub method: Method,
    /// The full URL, without query parameters.
    pub url: String,
    /// The value for the `sessionId` header, if the call is
    /// authenticated.
    pub session_header: Option<String>,
    /// The query parameters, in order.
    pub query: Vec<QueryParam>,
}

} // verus!
