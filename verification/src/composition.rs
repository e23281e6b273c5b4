use vstd::prelude::*;

use crate::flow::Action;
use crate::middleware::MiddlewareFor;
use crate::request_interceptor::InterceptorFor;
use crate::services::Middleware1;
use crate::wire::http_view;
use crate::wire::ErrorView;
use crate::wire::RequestView;
use crate::wire::ResponseView;
use crate::Middleware;
use crate::RequestInterceptor;
use crate::ServiceBound;

verus! {

/// No side effects on rejection: when the interceptor of a wrapper rejects a
/// request, the inner service is never invoked — the wrapper records the
/// interceptor's actions and nothing else — and the wrapper's outcome is the
/// successful terminal response synthesized from the rejection status.
pub proof fn lemma_rejection_short_circuits<S: ServiceBound, I: RequestInterceptor + Clone>(
    w: InterceptorFor<S, I>,
    req: RequestView,
)
    requires
        !w.interceptor.accepts(req),
    ensures
        w.events(req) == w.interceptor.events(req),
        w.outcome(req) == Ok::<ResponseView, ErrorView>(http_view(w.interceptor.rejection(req))),
{
    assert(w.events(req) =~= w.interceptor.events(req));
}

/// Single interceptor order: one accepted call through a wrapper records the
/// interceptor's actions first and the inner service's after them, and hands
/// the inner service's outcome on the transformed request back unchanged.
pub proof fn lemma_single_interceptor_order<S: ServiceBound, I: RequestInterceptor + Clone>(
    w: InterceptorFor<S, I>,
    req: RequestView,
)
    requires
        w.interceptor.accepts(req),
    ensures
        w.events(req) == w.interceptor.events(req) + w.inner.events(
            w.interceptor.transformed(req),
        ),
        w.outcome(req) == w.inner.outcome(w.interceptor.transformed(req)),
{
}

/// Nesting order for two interceptors: with `a` wrapped first and `b`
/// outermost, an accepted call records `b`'s actions, then `a`'s on the
/// request `b` forwarded, then the handler's — construction order equals
/// call order, outermost first.
pub proof fn lemma_nested_interceptors_order<
    S: ServiceBound,
    A: RequestInterceptor + Clone,
    B: RequestInterceptor + Clone,
>(h: S, a: A, b: B, req: RequestView)
    requires
        b.accepts(req),
        a.accepts(b.transformed(req)),
    ensures
        ({
            let w = InterceptorFor {
                inner: InterceptorFor { inner: h, interceptor: a },
                interceptor: b,
            };
            let req_b = b.transformed(req);
            let req_a = a.transformed(req_b);
            w.events(req) == b.events(req) + a.events(req_b) + h.events(req_a) && w.outcome(req)
                == h.outcome(req_a)
        }),
{
    let w = InterceptorFor { inner: InterceptorFor { inner: h, interceptor: a }, interceptor: b };
    let req_b = b.transformed(req);
    let req_a = a.transformed(req_b);
    assert(w.events(req) =~= b.events(req) + a.events(req_b) + h.events(req_a));
}

/// Middleware bracketing with a nested interceptor: wrap a handler with
/// interceptor `a`, then with the bracketing middleware; one accepted call
/// whose handler succeeds records the middleware's before-action, the
/// interceptor's actions, the handler's actions, and the middleware's
/// after-action, in exactly that order.
pub proof fn lemma_middleware_brackets_interceptor<
    S: ServiceBound,
    A: RequestInterceptor + Clone,
>(h: S, a: A, req: RequestView)
    requires
        a.accepts(req),
        h.outcome(a.transformed(req)) is Ok,
    ensures
        ({
            let w = MiddlewareFor {
                inner: InterceptorFor { inner: h, interceptor: a },
                middleware: Middleware1,
            };
            w.events(req) == seq![Action::Middleware1Before] + a.events(req) + h.events(
                a.transformed(req),
            ) + seq![Action::Middleware1After]
        }),
{
    let w = MiddlewareFor {
        inner: InterceptorFor { inner: h, interceptor: a },
        middleware: Middleware1,
    };
    assert(w.events(req) =~= seq![Action::Middleware1Before] + a.events(req) + h.events(
        a.transformed(req),
    ) + seq![Action::Middleware1After]);
}

/// Global layers are uniform over handlers: wrapping any two handlers in the
/// same two layers — a bracketing middleware outermost, then an interceptor —
/// records, for one accepted call of either wrapped handler whose own events
/// are none and whose outcome is a success, the same actions: before-action,
/// the interceptor's actions, after-action, independent of the handler.
pub proof fn lemma_global_layers_uniform<
    P: ServiceBound,
    Q: ServiceBound,
    I: RequestInterceptor + Clone + Copy,
>(p: P, q: Q, i: I, req: RequestView)
    requires
        i.accepts(req),
        p.outcome(i.transformed(req)) is Ok,
        q.outcome(i.transformed(req)) is Ok,
        p.events(i.transformed(req)) == Seq::<Action>::empty(),
        q.events(i.transformed(req)) == Seq::<Action>::empty(),
    ensures
        ({
            let wp = MiddlewareFor {
                inner: InterceptorFor { inner: p, interceptor: i },
                middleware: Middleware1,
            };
            let wq = MiddlewareFor {
                inner: InterceptorFor { inner: q, interceptor: i },
                middleware: Middleware1,
            };
            let record = seq![Action::Middleware1Before] + i.events(req) + seq![
                Action::Middleware1After,
            ];
            wp.events(req) == record && wq.events(req) == record
        }),
{
    let wp = MiddlewareFor {
        inner: InterceptorFor { inner: p, interceptor: i },
        middleware: Middleware1,
    };
    let wq = MiddlewareFor {
        inner: InterceptorFor { inner: q, interceptor: i },
        middleware: Middleware1,
    };
    let record = seq![Action::Middleware1Before] + i.events(req) + seq![Action::Middleware1After];
    assert(wp.events(req) =~= record);
    assert(wq.events(req) =~= record);
}

/// A rejection is observed as a success by the enclosing middleware: when
/// the nested interceptor rejects, the middleware still sees a normal inner
/// completion — its after-phase runs, the record is before-action,
/// interceptor, after-action — and the middleware's outcome is the terminal
/// response made from the rejection status, not an error.
pub proof fn lemma_rejection_observed_as_success<
    S: ServiceBound,
    A: RequestInterceptor + Clone,
>(h: S, a: A, req: RequestView)
    requires
        !a.accepts(req),
    ensures
        ({
            let w = MiddlewareFor {
                inner: InterceptorFor { inner: h, interceptor: a },
                middleware: Middleware1,
            };
            w.events(req) == seq![Action::Middleware1Before] + a.events(req) + seq![
                Action::Middleware1After,
            ] && w.outcome(req) == Ok::<ResponseView, ErrorView>(http_view(a.rejection(req)))
        }),
{
    let w = MiddlewareFor {
        inner: InterceptorFor { inner: h, interceptor: a },
        middleware: Middleware1,
    };
    assert(w.events(req) =~= seq![Action::Middleware1Before] + a.events(req) + seq![
        Action::Middleware1After,
    ]);
}

/// Readiness and the routing name pass through an interceptor wrapper
/// unchanged to the inner service; the interceptor gates neither.
pub proof fn lemma_interceptor_wrapper_passthrough<
    S: ServiceBound,
    I: RequestInterceptor + Clone,
>(w: InterceptorFor<S, I>)
    ensures
        w.ready_spec() == w.inner.ready_spec(),
        w.name_spec() == w.inner.name_spec(),
{
}

/// Readiness and the routing name pass through a middleware wrapper
/// unchanged to the inner service; the middleware gates neither.
pub proof fn lemma_middleware_wrapper_passthrough<S: ServiceBound, M: Middleware<S> + Clone>(
    w: MiddlewareFor<S, M>,
)
    ensures
        w.ready_spec() == w.inner.ready_spec(),
        w.name_spec() == w.inner.name_spec(),
{
}

} // verus!
