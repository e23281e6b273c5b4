use vstd::prelude::*;

use crate::flow::Action;
use crate::flow::Flow;
use crate::wire::outcome_view;
use crate::wire::Error;
use crate::wire::ErrorView;
use crate::wire::Request;
use crate::wire::RequestView;
use crate::wire::Response;
use crate::wire::ResponseView;
use crate::ServiceBound;

verus! {

/// A full wrap around a service: receives the request together with a live
/// handle to the inner service, and controls whether, when and how often (at
/// most once) the inner service runs, with logic before or after the call.
///
/// The two spec functions are the middleware's model, given the inner service
/// it is handed: the actions one call records and the outcome it returns.
/// `call` is bound to that model. A middleware propagates the service's
/// native error channel unchanged — only interceptors produce
/// [`Status`](crate::Status)-based rejections.
///
/// To only gate or enrich requests before the service runs, implement
/// [`RequestInterceptor`](crate::RequestInterceptor) instead.
pub trait Middleware<S: ServiceBound>: Sized {
    /// The actions recorded during one call on `req` made against `inner`,
    /// in the order they run.
    spec fn events(&self, inner: S, req: RequestView) -> Seq<Action>;

    /// The outcome of one call on `req` made against `inner`.
    spec fn outcome(&self, inner: S, req: RequestView) -> Result<ResponseView, ErrorView>;

    /// Processes `req`, deciding whether and when to invoke `service`, and
    /// appending to `flow` the actions of every phase that runs.
    fn call(&self, req: Request, service: &S, flow: &mut Flow) -> (r: Result<Response, Error>)
        ensures
            final(flow)@ == old(flow)@ + self.events(*service, req@),
            outcome_view(r) == self.outcome(*service, req@),
    ;
}

/// Binds one [`Middleware`] to one inner service; itself a [`ServiceBound`],
/// so wrappers nest to any depth. A call hands the request and the inner
/// service to the middleware and returns whatever it produces; the readiness
/// probe passes through to the inner service unchanged.
#[derive(Clone)]
pub struct MiddlewareFor<S, M> where S: ServiceBound, M: Middleware<S> {
    pub inner: S,
    pub middleware: M,
}

impl<S, M> MiddlewareFor<S, M> where S: ServiceBound, M: Middleware<S> {
    /// Wraps `inner` with `middleware`.
    pub fn new(inner: S, middleware: M) -> (r: Self)
        ensures
            r.inner == inner,
            r.middleware == middleware,
    {
        MiddlewareFor { inner, middleware }
    }
}

impl<S, M> ServiceBound for MiddlewareFor<S, M> where
    S: ServiceBound,
    M: Middleware<S> + Clone,
 {
    open spec fn ready_spec(&self) -> bool {
        self.inner.ready_spec()
    }

    open spec fn events(&self, req: RequestView) -> Seq<Action> {
        self.middleware.events(self.inner, req)
    }

    open spec fn outcome(&self, req: RequestView) -> Result<ResponseView, ErrorView> {
        self.middleware.outcome(self.inner, req)
    }

    open spec fn name_spec(&self) -> Option<Seq<char>> {
        self.inner.name_spec()
    }

    fn poll_ready(&self) -> (r: bool) {
        self.inner.poll_ready()
    }

    fn name(&self) -> (r: Option<String>) {
        self.inner.name()
    }

    fn call(&self, req: Request, flow: &mut Flow) -> (r: Result<Response, Error>) {
        self.middleware.call(req, &self.inner, flow)
    }
}

/// Applies one [`Middleware`] uniformly: a deferred constructor that, at
/// server-assembly time, wraps every registered service in a
/// [`MiddlewareFor`] with this middleware.
#[derive(Clone)]
pub struct MiddlewareLayer<M> {
    middleware: M,
}

impl<M> MiddlewareLayer<M> {
    /// The middleware this layer applies.
    pub closed spec fn middleware_spec(&self) -> M {
        self.middleware
    }

    /// A layer applying `middleware`.
    pub fn new(middleware: M) -> (r: Self)
        ensures
            r.middleware_spec() == middleware,
    {
        MiddlewareLayer { middleware }
    }
}

impl<M: Copy> MiddlewareLayer<M> {
    /// Wraps one registered service, exactly as an explicit per-service
    /// [`MiddlewareFor::new`] with this layer's middleware would.
    pub fn layer<S: ServiceBound>(&self, inner: S) -> (r: MiddlewareFor<S, M>) where
        M: Middleware<S>,

        ensures
            r.inner == inner,
            r.middleware == self.middleware_spec(),
    {
        MiddlewareFor::new(inner, self.middleware)
    }
}

} // verus!
