//! The plain values that pass between this crate and whatever carries a
//! request to the device.

use vstd::prelude::*;

verus! {

/// The name of the header that carries the password.
pub const AUTH_HEADER: &'static str = "X-Auth-PSK";

/// The content type of every request.
pub const CONTENT_TYPE: &'static str = "application/json";

/// One HTTP POST, ready to be sent: the address, the value of the
/// [`AUTH_HEADER`] and the JSON text of the body. The content type is always
/// [`CONTENT_TYPE`].
#[derive(Debug, Clone, PartialEq, Eq)]
pub struct HttpRequest {
    pub url: String,
    pub auth: String,
    pub body: String,
}

/// The mathematical value of an [`HttpRequest`].
pub struct HttpRequestView {
    pub url: Seq<char>,
    pub auth: Seq<char>,
    pub body: Seq<char>,
}

impl View for HttpRequest {
    type V = HttpRequestView;

    open spec fn view(&self) -> HttpRequestView {
        HttpRequestView { url: self.url@, auth: self.auth@, body: self.body@ }
    }
}

/// How an exchange ended.
#[derive(Debug, Clone, PartialEq, Eq)]
pub enum HttpOutcome {
    /// No response arrived (connection, timeout, I/O); the cause.
    Failed(String),
    /// A response arrived: its status code and its body.
    Response(u16, String),
}

/// The mathematical value of an [`HttpOutcome`].
pub enum HttpOutcomeView {
    Failed(Seq<char>),
    Response(u16, Seq<char>),
}

impl View for HttpOutcome {
    type V = HttpOutcomeView;

    open spec fn view(&self) -> HttpOutcomeView {
        match self {
            HttpOutcome::Failed(cause) => HttpOutcomeView::Failed(cause@),
            HttpOutcome::Response(status, body) => HttpOutcomeView::Response(*status, body@),
        }
    }
}

/// Whether a status code lies in the success range, 200 to 299.
pub open spec fn is_success(status: u16) -> bool {
    200 <= status < 300
}

/// Tests a status code against the success range.
pub fn status_is_success(status: u16) -> (ok: bool)
    ensures
        ok == is_success(status),
{
    200 <= status && status < 300
}

} // verus!
