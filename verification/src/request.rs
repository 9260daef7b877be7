//! What a submit asks of the transport, and the text that each outcome of
//! the transport becomes on the screen.

use crate::method::Method;
use std::collections::HashMap;
use vstd::prelude::*;

verus! {

/// The text shown when the method token names none of the supported methods.
pub open spec fn invalid_method_text() -> Seq<char> {
    "Invalid Method"@
}

/// The text shown when the transport fails, whatever the failure.
pub open spec fn failure_text() -> Seq<char> {
    "Failed to make request"@
}

/// One HTTP request, described in plain values for the transport to carry out.
#[derive(Clone, Debug, PartialEq, Eq)]
pub struct RequestPlan {
    pub method: Method,
    /// The target, exactly as typed: nothing validates it.
    pub url: String,
    /// Every entry is sent as a request header; their order is not fixed.
    pub headers: HashMap<String, String>,
    /// The payload, or `None` where the request carries none.
    pub body: Option<String>,
}

/// The mathematical content of a [`RequestPlan`].
pub struct RequestPlanView {
    pub method: Method,
    pub url: Seq<char>,
    pub headers: Map<String, String>,
    pub body: Option<Seq<char>>,
}

impl View for RequestPlan {
    type V = RequestPlanView;

    open spec fn view(&self) -> RequestPlanView {
        RequestPlanView {
            method: self.method,
            url: self.url@,
            headers: self.headers@,
            body: match self.body {
                Some(text) => Some(text@),
                None => None,
            },
        }
    }
}

/// The request that a method, a target, a header set and a body text call
/// for: target and headers are taken as they are, and the body text is the
/// payload, even when empty, unless the method is `GET`, which carries none.
pub open spec fn planned(
    method: Method,
    url: Seq<char>,
    headers: Map<String, String>,
    body: Seq<char>,
) -> RequestPlanView {
    RequestPlanView {
        method,
        url,
        headers,
        body: if method.has_body() {
            Some(body)
        } else {
            None
        },
    }
}

impl RequestPlan {
    /// Describes the request for a known method.
    pub fn new(method: Method, url: &str, headers: &HashMap<String, String>, body: &str) -> (plan:
        RequestPlan)
        ensures
            plan@ == planned(method, url@, headers@, body@),
    {
        let payload = if method.carries_body() {
            Some(body.to_owned())
        } else {
            None
        };
        RequestPlan { method, url: url.to_owned(), headers: headers.clone(), body: payload }
    }
}

/// What is to happen after a submit.
#[derive(Clone, Debug, PartialEq, Eq)]
pub enum Dispatch {
    /// Nothing is sent; the text is the response to show.
    Reply(String),
    /// The request is to be sent.
    Send(RequestPlan),
}

/// Decides what a submit leads to. A method token that names none of the
/// five methods is answered on the spot with the invalid-method text, and
/// nothing is sent; any other submit is to be sent as [`planned`] says.
pub fn make_request(method: &str, url: &str, headers: &HashMap<String, String>, body: &str) -> (next:
    Dispatch)
    ensures
        match Method::of_token(method@) {
            Some(known) => next matches Dispatch::Send(plan) && plan@ == planned(
                known,
                url@,
                headers@,
                body@,
            ),
            None => next matches Dispatch::Reply(text) && text@ == invalid_method_text(),
        },
{
    match Method::from_token(method) {
        Some(known) => Dispatch::Send(RequestPlan::new(known, url, headers, body)),
        None => Dispatch::Reply("Invalid Method".to_owned()),
    }
}

/// The text that an outcome of the transport becomes: the decoded body of
/// the response on success, the failure text on any failure.
pub open spec fn outcome_text<E>(outcome: Result<String, E>) -> Seq<char> {
    match outcome {
        Ok(received) => received@,
        Err(_) => failure_text(),
    }
}

/// Reduces the transport's outcome to the text to show.
pub fn response_text<E>(outcome: Result<String, E>) -> (text: String)
    ensures
        text@ == outcome_text(outcome),
{
    match outcome {
        Ok(received) => received,
        Err(_) => "Failed to make request".to_owned(),
    }
}

} // verus!
