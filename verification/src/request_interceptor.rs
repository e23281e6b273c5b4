use vstd::prelude::*;

use crate::flow::Action;
use crate::flow::Flow;
use crate::wire::http_view;
use crate::wire::ErrorView;
use crate::wire::Request;
use crate::wire::RequestView;
use crate::wire::ResponseView;
use crate::wire::Status;
use crate::wire::StatusView;
use crate::ServiceBound;
use crate::wire::Error;
use crate::wire::Response;

verus! {

/// A pre-call gate: inspects or mutates an incoming request before it reaches
/// the service logic, or rejects it with a terminal [`Status`] so that the
/// inner handler never runs.
///
/// The spec functions are the interceptor's model: which requests it lets
/// through (`accepts`), what it forwards inward in their place
/// (`transformed`), which status it answers otherwise (`rejection`), and the
/// actions it records either way (`events`). `intercept` is bound to that
/// model.
///
/// For work on both the request and the response, or after the service call,
/// implement [`Middleware`](crate::Middleware) instead.
pub trait RequestInterceptor: Sized {
    /// The actions recorded while examining `req`, accepted or not.
    spec fn events(&self, req: RequestView) -> Seq<Action>;

    /// Whether `req` is allowed through to the inner handler.
    spec fn accepts(&self, req: RequestView) -> bool;

    /// The request forwarded inward when `req` is accepted.
    spec fn transformed(&self, req: RequestView) -> RequestView;

    /// The terminal status answered when `req` is rejected.
    spec fn rejection(&self, req: RequestView) -> StatusView;

    /// Examines `req`: hands back the (possibly modified) request to forward,
    /// or the status to halt it with.
    fn intercept(&self, req: Request, flow: &mut Flow) -> (r: Result<Request, Status>)
        ensures
            final(flow)@ == old(flow)@ + self.events(req@),
            self.accepts(req@) ==> (r matches Ok(q) && q@ == self.transformed(req@)),
            !self.accepts(req@) ==> (r matches Err(s) && s@ == self.rejection(req@)),
    ;
}

/// Binds one [`RequestInterceptor`] to one inner service; itself a
/// [`ServiceBound`], so wrappers nest to any depth.
///
/// On acceptance the inner service is called with the transformed request and
/// its result is returned unchanged. On rejection the inner service is never
/// called and the wrapper returns — as a *successful* outcome — the complete
/// terminal response synthesized from the status: an enclosing middleware
/// observes a normal inner-call completion, not an error.
#[derive(Debug, Clone)]
pub struct InterceptorFor<S, I> where I: RequestInterceptor {
    pub inner: S,
    pub interceptor: I,
}

impl<S, I> InterceptorFor<S, I> where I: RequestInterceptor {
    /// Wraps `inner` with `interceptor`.
    pub fn new(inner: S, interceptor: I) -> (r: Self)
        ensures
            r.inner == inner,
            r.interceptor == interceptor,
    {
        InterceptorFor { inner, interceptor }
    }
}

impl<S, I> ServiceBound for InterceptorFor<S, I> where
    S: ServiceBound,
    I: RequestInterceptor + Clone,
 {
    open spec fn ready_spec(&self) -> bool {
        self.inner.ready_spec()
    }

    open spec fn events(&self, req: RequestView) -> Seq<Action> {
        self.interceptor.events(req) + if self.interceptor.accepts(req) {
            self.inner.events(self.interceptor.transformed(req))
        } else {
            Seq::<Action>::empty()
        }
    }

    open spec fn outcome(&self, req: RequestView) -> Result<ResponseView, ErrorView> {
        if self.interceptor.accepts(req) {
            self.inner.outcome(self.interceptor.transformed(req))
        } else {
            Ok(http_view(self.interceptor.rejection(req)))
        }
    }

    open spec fn name_spec(&self) -> Option<Seq<char>> {
        self.inner.name_spec()
    }

    fn poll_ready(&self) -> (r: bool) {
        self.inner.poll_ready()
    }

    fn name(&self) -> (r: Option<String>) {
        self.inner.name()
    }

    fn call(&self, req: Request, flow: &mut Flow) -> (r: Result<Response, Error>) {
        let ghost req0 = req@;
        match self.interceptor.intercept(req, flow) {
            Ok(forwarded) => {
                let r = self.inner.call(forwarded, flow);
                proof {
                    assert(flow@ =~= old(flow)@ + self.events(req0));
                }
                r
            },
            Err(status) => {
                proof {
                    assert(flow@ =~= old(flow)@ + self.events(req0));
                }
                Ok(status.to_http())
            },
        }
    }
}

/// Applies one [`RequestInterceptor`] uniformly: a deferred constructor that,
/// at server-assembly time, wraps every registered service in an
/// [`InterceptorFor`] with this interceptor.
#[derive(Debug, Clone)]
pub struct RequestInterceptorLayer<I> {
    interceptor: I,
}

impl<I> RequestInterceptorLayer<I> {
    /// The interceptor this layer applies.
    pub closed spec fn interceptor_spec(&self) -> I {
        self.interceptor
    }

    /// A layer applying `interceptor`.
    pub fn new(interceptor: I) -> (r: Self)
        ensures
            r.interceptor_spec() == interceptor,
    {
        RequestInterceptorLayer { interceptor }
    }
}

impl<I> RequestInterceptorLayer<I> where I: RequestInterceptor + Copy {
    /// Wraps one registered service, exactly as an explicit per-service
    /// [`InterceptorFor::new`] with this layer's interceptor would.
    pub fn layer<S: ServiceBound>(&self, inner: S) -> (r: InterceptorFor<S, I>)
        ensures
            r.inner == inner,
            r.interceptor == self.interceptor_spec(),
    {
        InterceptorFor::new(inner, self.interceptor)
    }
}

} // verus!
