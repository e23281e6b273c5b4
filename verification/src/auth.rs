use vstd::prelude::*;
use vstd::string::StrSliceExecFns;
use vstd::string::StringExecFns;

use crate::flow::Action;
use crate::flow::Flow;
use crate::wire::get_value;
use crate::wire::set_value;
use crate::wire::str_eq;
use crate::wire::Code;
use crate::wire::Request;
use crate::wire::RequestView;
use crate::wire::Status;
use crate::wire::StatusView;
use crate::RequestInterceptor;

verus! {

/// A token verifier, implemented by the application's authentication
/// backend.
///
/// The spec functions are the verifier's model: which tokens it recognises,
/// which identity it resolves a recognised token to, and the message it
/// answers for the rest. `verify_token` is bound to that model.
pub trait AuthService: Sized {
    /// Whether `token` is recognised.
    spec fn token_valid(&self, token: Seq<char>) -> bool;

    /// The identity resolved for a recognised token.
    spec fn user_of(&self, token: Seq<char>) -> Seq<char>;

    /// The message answered for an unrecognised token.
    spec fn denial(&self, token: Seq<char>) -> Seq<char>;

    /// Resolves `token` to the identity it belongs to, or explains the
    /// refusal.
    fn verify_token(&self, token: &str) -> (r: Result<String, String>)
        ensures
            self.token_valid(token@) ==> (r matches Ok(u) && u@ == self.user_of(token@)),
            !self.token_valid(token@) ==> (r matches Err(m) && m@ == self.denial(token@)),
    ;
}

/// A fixed-credential verifier: recognises the single token `supersecret`
/// and resolves it to `user-1`.
#[derive(Clone, Copy, Debug, Default)]
pub struct AuthServiceImpl;

impl AuthService for AuthServiceImpl {
    open spec fn token_valid(&self, token: Seq<char>) -> bool {
        token == "supersecret"@
    }

    open spec fn user_of(&self, token: Seq<char>) -> Seq<char> {
        "user-1"@
    }

    open spec fn denial(&self, token: Seq<char>) -> Seq<char> {
        "Unauthenticated"@
    }

    fn verify_token(&self, token: &str) -> (r: Result<String, String>) {
        if str_eq(token, "supersecret") {
            Ok(String::from_str("user-1"))
        } else {
            Err(String::from_str("Unauthenticated"))
        }
    }
}

/// Whether every character of `s` may stand in a metadata value on the wire:
/// visible ASCII or the space.
pub open spec fn valid_header_value(s: Seq<char>) -> bool {
    forall|i: int| 0 <= i < s.len() ==> 32 <= #[trigger] s[i] as int && s[i] as int <= 126
}

/// Decides `valid_header_value`.
pub fn is_valid_header_value(s: &str) -> (r: bool)
    ensures
        r == valid_header_value(s@),
{
    let len = s.unicode_len();
    let mut i: usize = 0;
    while i < len
        invariant
            len == s@.len(),
            i <= len,
            forall|j: int| 0 <= j < i ==> 32 <= #[trigger] s@[j] as int && s@[j] as int <= 126,
        decreases len - i,
    {
        let c = s.get_char(i) as u32;
        if c < 32 || c > 126 {
            return false;
        }
        i = i + 1;
    }
    true
}

/// An authenticating interceptor over any [`AuthService`]: reads the token
/// from the `authorization` metadata entry, resolves it to an identity, and
/// attaches that identity under `user_id` for the wrapped service to read.
///
/// A request without a token, or with an unrecognised one, is rejected with
/// `Unauthenticated`; an identity that cannot stand in a metadata value is an
/// internal fault of this decorator and is rejected with `Internal`. Records
/// no actions.
#[derive(Clone, Copy, Debug)]
pub struct AuthInterceptor<A: AuthService> {
    pub auth_service: A,
}

impl<A: AuthService> RequestInterceptor for AuthInterceptor<A> {
    open spec fn events(&self, req: RequestView) -> Seq<Action> {
        Seq::empty()
    }

    open spec fn accepts(&self, req: RequestView) -> bool {
        match get_value(req.meta, "authorization"@) {
            Some(token) => self.auth_service.token_valid(token) && valid_header_value(
                self.auth_service.user_of(token),
            ),
            None => false,
        }
    }

    open spec fn transformed(&self, req: RequestView) -> RequestView {
        let token = get_value(req.meta, "authorization"@)->0;
        RequestView {
            body: req.body,
            meta: set_value(req.meta, "user_id"@, self.auth_service.user_of(token)),
        }
    }

    open spec fn rejection(&self, req: RequestView) -> StatusView {
        match get_value(req.meta, "authorization"@) {
            Some(token) => if !self.auth_service.token_valid(token) {
                StatusView {
                    code: Code::Unauthenticated,
                    message: self.auth_service.denial(token),
                }
            } else {
                StatusView {
                    code: Code::Internal,
                    message: "Failed to convert user_id to header value"@,
                }
            },
            None => StatusView { code: Code::Unauthenticated, message: "Unauthenticated"@ },
        }
    }

    fn intercept(&self, req: Request, flow: &mut Flow) -> (r: Result<Request, Status>) {
        proof {
            assert(flow@ =~= flow@ + self.events(req@));
        }
        match req.metadata.get("authorization") {
            Some(token) => {
                match self.auth_service.verify_token(token.as_str()) {
                    Ok(user_id) => {
                        if is_valid_header_value(user_id.as_str()) {
                            let mut forwarded = req;
                            forwarded.metadata.set(String::from_str("user_id"), user_id);
                            Ok(forwarded)
                        } else {
                            Err(Status::internal("Failed to convert user_id to header value"))
                        }
                    },
                    Err(denial) => Err(Status::new(Code::Unauthenticated, denial)),
                }
            },
            None => Err(Status::unauthenticated("Unauthenticated")),
        }
    }
}

} // verus!
