//! Method-based dispatch: the table from HTTP method to handler, built once
//! at startup and read-only afterwards, and the abuse gate that is consulted
//! once per request.
//!
//! A method outside the table has no handler: the dispatcher then closes the
//! connection without producing any response.

use vstd::prelude::*;
use crate::message::{Method, Request};

verus! {

/// Which handler a request is routed to.
#[derive(Clone, Copy, PartialEq, Eq, Structural, Debug)]
pub enum HandlerKind {
    Get,
    Post,
    Head,
}

/// The handler table: GET, POST and HEAD are registered; every other method
/// is unhandled.
pub open spec fn handler_for(m: Method) -> Option<HandlerKind> {
    match m {
        Method::Get => Some(HandlerKind::Get),
        Method::Post => Some(HandlerKind::Post),
        Method::Head => Some(HandlerKind::Head),
        _ => None,
    }
}

/// Whether some handler is registered for the method.
pub open spec fn method_supported(m: Method) -> bool {
    handler_for(m) is Some
}

/// Routes a parsed request's method through the handler table. `None` means
/// the connection is to be closed silently: no handler runs and no response
/// is produced.
pub fn select_handler(m: Method) -> (r: Option<HandlerKind>)
    ensures
        r == handler_for(m),
{
    match m {
        Method::Get => Some(HandlerKind::Get),
        Method::Post => Some(HandlerKind::Post),
        Method::Head => Some(HandlerKind::Head),
        _ => None,
    }
}

/// The strike set: a read-mostly structure shared by all workers, consulted
/// per request to decide whether a client may proceed to forwarding. It
/// carries no fields and allows every request.
pub struct HTTPStrikeSet {}

impl HTTPStrikeSet {
    /// A gate with the empty policy.
    pub fn new() -> (g: Self) {
        HTTPStrikeSet {}
    }

    /// Whether the request may proceed to forwarding: under the empty policy,
    /// always.
    pub fn permits(&self, _req: &Request) -> (allowed: bool)
        ensures
            allowed,
    {
        true
    }
}

} // verus!
