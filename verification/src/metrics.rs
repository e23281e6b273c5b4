use vstd::prelude::*;

use crate::flow::Action;
use crate::flow::Flow;
use crate::wire::Error;
use crate::wire::ErrorView;
use crate::wire::Request;
use crate::wire::RequestView;
use crate::wire::Response;
use crate::wire::ResponseView;
use crate::Middleware;
use crate::ServiceBound;

verus! {

/// An observing middleware: invokes the inner service and hands its outcome
/// back unchanged, recording no actions of its own. The surrounding
/// application brackets a call of the composed service with its clock to
/// report how long the request took.
#[derive(Clone, Copy, Debug, Default)]
pub struct MetricsMiddleware;

impl<S: ServiceBound> Middleware<S> for MetricsMiddleware {
    open spec fn events(&self, inner: S, req: RequestView) -> Seq<Action> {
        inner.events(req)
    }

    open spec fn outcome(&self, inner: S, req: RequestView) -> Result<ResponseView, ErrorView> {
        inner.outcome(req)
    }

    fn call(&self, req: Request, service: &S, flow: &mut Flow) -> (r: Result<Response, Error>) {
        service.call(req, flow)
    }
}

} // verus!
