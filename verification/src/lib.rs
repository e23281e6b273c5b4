//! A composition layer for RPC-style request handlers: cross-cutting
//! behaviour — authentication gating, metrics, logging — is attached to a
//! handler without modifying it, by wrapping it in decorators.
//!
//! Two decorator shapes exist. A [`RequestInterceptor`] is a pre-call gate:
//! it inspects or enriches a request, or rejects it with a terminal
//! [`Status`] before the handler runs. A [`Middleware`] is a full wrap: it
//! receives a live handle to the inner service and controls whether and when
//! the service runs, with logic before and after. [`InterceptorFor`] and
//! [`MiddlewareFor`] bind one decorator to one inner service and are
//! themselves services, so wrappers nest to any depth;
//! [`RequestInterceptorLayer`] and [`MiddlewareLayer`] apply one decorator
//! uniformly to every service registered at assembly time.
//!
//! The call order of a composed chain is deterministic — outermost wrapper
//! first on the way in, last on the way out — and a rejection
//! short-circuits: the inner handler never runs, and the enclosing
//! middleware observes the synthesized terminal response as a normal,
//! successful completion. These rules are stated as contracts on the
//! wrappers and proved once for every chain in the [`composition`] module.

use vstd::prelude::*;

pub mod auth;
pub mod composition;
mod flow;
pub mod metrics;
mod middleware;
pub mod orders;
pub mod products;
mod request_interceptor;
pub mod services;
pub mod wire;

pub use flow::Action;
pub use flow::Flow;
pub use middleware::Middleware;
pub use middleware::MiddlewareFor;
pub use middleware::MiddlewareLayer;
pub use request_interceptor::InterceptorFor;
pub use request_interceptor::RequestInterceptor;
pub use request_interceptor::RequestInterceptorLayer;
pub use wire::Code;
pub use wire::Error;
pub use wire::Metadata;
pub use wire::Request;
pub use wire::Response;
pub use wire::Status;

use crate::wire::outcome_view;
use crate::wire::ErrorView;
use crate::wire::RequestView;
use crate::wire::ResponseView;

verus! {

/// The capability every wrappable unit of request processing satisfies: a
/// readiness probe, a call that processes one request, and a duplicable
/// (`Clone`) handle.
///
/// The two spec functions `events` and `outcome` are the service's model: the
/// decorator actions one call records, in order, and the result it returns.
/// `call` is bound to that model, which is what lets the composition rules of
/// this crate — who runs first, what a rejection short-circuits, what an
/// enclosing middleware observes — be stated and proved once for every chain
/// of wrappers.
pub trait ServiceBound: Sized + Clone {
    /// Whether the service reports itself ready.
    spec fn ready_spec(&self) -> bool;

    /// The decorator actions recorded during one call on `req`, in the order
    /// they run.
    spec fn events(&self, req: RequestView) -> Seq<Action>;

    /// The outcome of one call on `req`.
    spec fn outcome(&self, req: RequestView) -> Result<ResponseView, ErrorView>;

    /// The stable name under which the service is routed, if it has one.
    spec fn name_spec(&self) -> Option<Seq<char>>;

    /// Readiness probe; wrappers delegate it unchanged to the innermost
    /// handler.
    fn poll_ready(&self) -> (r: bool)
        ensures
            r == self.ready_spec(),
    ;

    /// The service's stable name, passed through every wrapper unchanged.
    fn name(&self) -> (r: Option<String>)
        ensures
            match r {
                Some(n) => self.name_spec() matches Some(m) && n@ == m,
                None => self.name_spec() is None,
            },
    ;

    /// Processes one request, appending to `flow` the actions of every
    /// decorator phase that runs, in order.
    fn call(&self, req: Request, flow: &mut Flow) -> (r: Result<Response, Error>)
        ensures
            final(flow)@ == old(flow)@ + self.events(req@),
            outcome_view(r) == self.outcome(req@),
    ;
}

} // verus!
