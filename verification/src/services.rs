use vstd::prelude::*;
use vstd::string::StringExecFns;

use crate::flow::Action;
use crate::flow::Flow;
use crate::wire::get_value;
use crate::wire::set_value;
use crate::wire::str_eq;
use crate::wire::Code;
use crate::wire::Error;
use crate::wire::ErrorView;
use crate::wire::Metadata;
use crate::wire::Request;
use crate::wire::RequestView;
use crate::wire::Response;
use crate::wire::ResponseView;
use crate::wire::Status;
use crate::wire::StatusView;
use crate::Middleware;
use crate::RequestInterceptor;
use crate::ServiceBound;

verus! {

/// The metadata key under which a caller's identity travels.
pub const USER_ID_HEADER_KEY: &'static str = "user_id";

/// The identity resolved for the one recognised token.
pub const USER_ID: &'static str = "user-1";

/// The metadata key under which credentials travel.
pub const AUTHORIZATION_HEADER_KEY: &'static str = "authorization";

/// The one recognised token.
pub const TOKEN: &'static str = "supersecret";

/// The response `PublicService` answers every request with.
pub open spec fn public_response_view() -> ResponseView {
    ResponseView { body: "Hello Public!"@, meta: Seq::empty() }
}

/// A service anyone may call: answers every request with a fixed greeting
/// and records nothing.
#[derive(Clone, Copy, Debug, Default)]
pub struct PublicService;

impl PublicService {
    /// The fixed greeting.
    pub fn public_method(&self, _request: Request) -> (r: Result<Response, Status>)
        ensures
            r matches Ok(resp) && resp@ == public_response_view(),
    {
        let r = Response { body: String::from_str("Hello Public!"), metadata: Metadata::new() };
        proof {
            assert(r@.meta =~= public_response_view().meta);
        }
        Ok(r)
    }
}

impl ServiceBound for PublicService {
    open spec fn ready_spec(&self) -> bool {
        true
    }

    open spec fn events(&self, req: RequestView) -> Seq<Action> {
        Seq::empty()
    }

    open spec fn outcome(&self, req: RequestView) -> Result<ResponseView, ErrorView> {
        Ok(public_response_view())
    }

    open spec fn name_spec(&self) -> Option<Seq<char>> {
        Some("PublicService"@)
    }

    fn poll_ready(&self) -> (r: bool) {
        true
    }

    fn name(&self) -> (r: Option<String>) {
        Some(String::from_str("PublicService"))
    }

    fn call(&self, req: Request, flow: &mut Flow) -> (r: Result<Response, Error>) {
        proof {
            assert(flow@ =~= flow@ + Seq::<Action>::empty());
        }
        match self.public_method(req) {
            Ok(resp) => Ok(resp),
            Err(status) => Ok(status.to_http()),
        }
    }
}

/// The response `ProtectedService` answers a request carrying the identity
/// `user` with: a fixed greeting, the identity echoed in the metadata.
pub open spec fn protected_response_view(user: Seq<char>) -> ResponseView {
    ResponseView { body: "Hello Protected!"@, meta: seq![(USER_ID_HEADER_KEY@, user)] }
}

/// A service that answers with the caller's identity, taken from the
/// `user_id` metadata entry that an authentication interceptor resolved;
/// records nothing.
#[derive(Clone, Copy, Debug, Default)]
pub struct ProtectedService {}

impl ProtectedService {
    /// Echoes the identity under which the request arrived. The identity
    /// must have been placed in the request's metadata.
    pub fn protected_method(&self, request: Request) -> (r: Result<Response, Status>)
        requires
            get_value(request@.meta, USER_ID_HEADER_KEY@) is Some,
        ensures
            r matches Ok(resp) && resp@ == protected_response_view(
                get_value(request@.meta, USER_ID_HEADER_KEY@)->0,
            ),
    {
        match request.metadata.get(USER_ID_HEADER_KEY) {
            Some(user) => {
                let mut metadata = Metadata::new();
                metadata.append(String::from_str(USER_ID_HEADER_KEY), user);
                let r = Response { body: String::from_str("Hello Protected!"), metadata };
                proof {
                    assert(r@.meta =~= protected_response_view(
                        get_value(request@.meta, USER_ID_HEADER_KEY@)->0,
                    ).meta);
                }
                Ok(r)
            },
            None => {
                proof {
                    assert(false);
                }
                Err(Status::internal("user_id missing"))
            },
        }
    }
}

impl ServiceBound for ProtectedService {
    open spec fn ready_spec(&self) -> bool {
        true
    }

    open spec fn events(&self, req: RequestView) -> Seq<Action> {
        Seq::empty()
    }

    open spec fn outcome(&self, req: RequestView) -> Result<ResponseView, ErrorView> {
        match get_value(req.meta, USER_ID_HEADER_KEY@) {
            Some(user) => Ok(protected_response_view(user)),
            None => Err(ErrorView { message: "user_id missing"@ }),
        }
    }

    open spec fn name_spec(&self) -> Option<Seq<char>> {
        Some("ProtectedService"@)
    }

    fn poll_ready(&self) -> (r: bool) {
        true
    }

    fn name(&self) -> (r: Option<String>) {
        Some(String::from_str("ProtectedService"))
    }

    fn call(&self, req: Request, flow: &mut Flow) -> (r: Result<Response, Error>) {
        proof {
            assert(flow@ =~= flow@ + Seq::<Action>::empty());
        }
        match req.metadata.get(USER_ID_HEADER_KEY) {
            Some(_) => {
                match self.protected_method(req) {
                    Ok(resp) => Ok(resp),
                    Err(status) => Ok(status.to_http()),
                }
            },
            None => Err(Error::new("user_id missing")),
        }
    }
}

/// An authenticating interceptor: lets a request through only when its
/// `authorization` metadata carries the recognised token, and then resolves
/// and attaches the caller's identity; otherwise rejects with
/// `Unauthenticated`. Records one `AuthInterceptor` action either way.
#[derive(Clone, Copy, Debug)]
pub struct AuthInterceptor;

impl AuthInterceptor {
    /// A fresh instance.
    pub fn new() -> (r: Self)
        ensures
            r == (AuthInterceptor),
    {
        AuthInterceptor
    }
}

impl RequestInterceptor for AuthInterceptor {
    open spec fn events(&self, req: RequestView) -> Seq<Action> {
        seq![Action::AuthInterceptor]
    }

    open spec fn accepts(&self, req: RequestView) -> bool {
        get_value(req.meta, AUTHORIZATION_HEADER_KEY@) == Some(TOKEN@)
    }

    open spec fn transformed(&self, req: RequestView) -> RequestView {
        RequestView { body: req.body, meta: set_value(req.meta, USER_ID_HEADER_KEY@, USER_ID@) }
    }

    open spec fn rejection(&self, req: RequestView) -> StatusView {
        StatusView { code: Code::Unauthenticated, message: "Unauthenticated"@ }
    }

    fn intercept(&self, req: Request, flow: &mut Flow) -> (r: Result<Request, Status>) {
        flow.add_action(Action::AuthInterceptor);
        proof {
            assert(old(flow)@.push(Action::AuthInterceptor) =~= old(flow)@ + self.events(req@));
        }
        let token = req.metadata.get(AUTHORIZATION_HEADER_KEY);
        match token {
            Some(t) => {
                if str_eq(t.as_str(), TOKEN) {
                    let mut forwarded = req;
                    forwarded.metadata.set(
                        String::from_str(USER_ID_HEADER_KEY),
                        String::from_str(USER_ID),
                    );
                    Ok(forwarded)
                } else {
                    Err(Status::unauthenticated("Unauthenticated"))
                }
            },
            None => Err(Status::unauthenticated("Unauthenticated")),
        }
    }
}

/// An interceptor that waves every request through unchanged, recording one
/// `Interceptor2` action.
#[derive(Clone, Copy, Debug)]
pub struct Interceptor2;

impl Interceptor2 {
    /// A fresh instance.
    pub fn new() -> (r: Self)
        ensures
            r == (Interceptor2),
    {
        Interceptor2
    }
}

impl RequestInterceptor for Interceptor2 {
    open spec fn events(&self, req: RequestView) -> Seq<Action> {
        seq![Action::Interceptor2]
    }

    open spec fn accepts(&self, req: RequestView) -> bool {
        true
    }

    open spec fn transformed(&self, req: RequestView) -> RequestView {
        req
    }

    // Never used: this interceptor accepts every request.
    open spec fn rejection(&self, req: RequestView) -> StatusView {
        StatusView { code: Code::Internal, message: Seq::empty() }
    }

    fn intercept(&self, req: Request, flow: &mut Flow) -> (r: Result<Request, Status>) {
        flow.add_action(Action::Interceptor2);
        proof {
            assert(old(flow)@.push(Action::Interceptor2) =~= old(flow)@ + self.events(req@));
        }
        Ok(req)
    }
}

/// A bracketing middleware: records `Middleware1Before`, invokes the inner
/// service, and — when the service succeeded — records `Middleware1After`
/// on the way out, handing the service's outcome back unchanged.
#[derive(Clone, Copy, Debug)]
pub struct Middleware1;

impl Middleware1 {
    /// A fresh instance.
    pub fn new() -> (r: Self)
        ensures
            r == (Middleware1),
    {
        Middleware1
    }
}

impl<S: ServiceBound> Middleware<S> for Middleware1 {
    open spec fn events(&self, inner: S, req: RequestView) -> Seq<Action> {
        seq![Action::Middleware1Before] + inner.events(req) + if inner.outcome(req) is Ok {
            seq![Action::Middleware1After]
        } else {
            Seq::<Action>::empty()
        }
    }

    open spec fn outcome(&self, inner: S, req: RequestView) -> Result<ResponseView, ErrorView> {
        inner.outcome(req)
    }

    fn call(&self, req: Request, service: &S, flow: &mut Flow) -> (r: Result<Response, Error>) {
        let ghost req0 = req@;
        flow.add_action(Action::Middleware1Before);
        let result = service.call(req, flow);
        match result {
            Ok(resp) => {
                flow.add_action(Action::Middleware1After);
                proof {
                    assert(flow@ =~= old(flow)@ + self.events(*service, req0));
                }
                Ok(resp)
            },
            Err(e) => {
                proof {
                    assert(flow@ =~= old(flow)@ + self.events(*service, req0));
                }
                Err(e)
            },
        }
    }
}

} // verus!
