//! The core of a single-screen terminal HTTP client: the state of one
//! interactive session, the transition taken on each keypress, the request
//! that a submit describes, and the text shown for each outcome.
//!
//! Nothing here touches a terminal or a socket. The caller polls for keys,
//! draws what [`session::Session::screen`] describes, carries out each
//! [`request::RequestPlan`] and hands the outcome back.

pub mod method;
pub mod model;
pub mod request;
pub mod screen;
pub mod session;
pub mod text;
