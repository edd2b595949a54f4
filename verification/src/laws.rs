//! The laws the proxy core obeys, stated and proved over the same models its
//! function contracts use: the handler table of [`crate::dispatch`], and the
//! GET critical-section step of [`crate::handler`].

use vstd::prelude::*;
use crate::dispatch::{handler_for, method_supported};
use crate::handler::{forward_result_spec, get_step_cache, get_step_response, ForwardOutcomeModel};
use crate::message::{Method, RequestId, ResponseModel};

verus! {

/// A request is routed to a handler exactly when its method is GET, POST or
/// HEAD. For every other method the dispatcher holds no handler: the
/// connection is closed without any handler running and without a response.
pub proof fn lemma_unsupported_method_unrouted(m: Method)
    ensures
        method_supported(m) <==> (m == Method::Get || m == Method::Post || m == Method::Head),
        handler_for(m) is None <==> !method_supported(m),
{
}

/// GET requests with the same identity are serialized by the cache lock into
/// successive critical sections. When the first of two misses, it alone
/// consumes an origin fetch: it stores its forward result under the identity,
/// and the second section is a hit that answers that same stored response and
/// leaves the cache unchanged — whatever forward outcome the second would
/// have had. So at most one origin fetch occurs, and every caller observes a
/// response equal to the one inserted into the cache.
pub proof fn lemma_one_fetch_serves_all(
    c: Map<RequestId, ResponseModel>,
    id: RequestId,
    o1: ForwardOutcomeModel,
    o2: ForwardOutcomeModel,
)
    requires
        !c.contains_key(id),
    ensures
        get_step_response(c, id, o1) == forward_result_spec(o1),
        get_step_cache(c, id, o1) == c.insert(id, forward_result_spec(o1)),
        get_step_response(get_step_cache(c, id, o1), id, o2) == get_step_response(c, id, o1),
        get_step_cache(get_step_cache(c, id, o1), id, o2) == get_step_cache(c, id, o1),
{
}

/// Idempotence of a cached GET: when a response for the identity is already
/// cached, serving the same GET twice answers the identical stored response
/// both times and leaves the cache untouched. Neither answer depends on a
/// forward outcome, so no second origin fetch is required for correctness.
pub proof fn lemma_cached_get_idempotent(
    c: Map<RequestId, ResponseModel>,
    id: RequestId,
    o1: ForwardOutcomeModel,
    o2: ForwardOutcomeModel,
)
    requires
        c.contains_key(id),
    ensures
        get_step_response(c, id, o1) == c[id],
        get_step_cache(c, id, o1) == c,
        get_step_response(get_step_cache(c, id, o1), id, o2) == c[id],
        get_step_cache(get_step_cache(c, id, o1), id, o2) == c,
{
}

} // verus!
