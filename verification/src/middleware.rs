//! The authorization rules of the task routes: how the `Authorization`
//! header is read, how the outcome of decoding its token is answered, and how
//! a handler finds the user that the check admitted.

use vstd::prelude::*;
use std::rc::Rc;
use crate::error::{AppError, ErrorKind};
use crate::text::{has_prefix, starts_with};

verus! {

/// The scheme that must open the `Authorization` header.
pub open spec fn bearer_prefix() -> Seq<char> {
    "Bearer "@
}

/// The text of an optional header value.
pub open spec fn header_text(header: Option<&str>) -> Option<Seq<char>> {
    match header {
        Some(h) => Some(h@),
        None => None,
    }
}

/// How the `Authorization` header is read: the token after `Bearer `, or
/// the message of the refusal.
pub open spec fn header_outcome(header: Option<Seq<char>>) -> Result<Seq<char>, Seq<char>> {
    match header {
        None => Err("Missing authorization header"@),
        Some(h) => if has_prefix(h, bearer_prefix()) {
            Ok(h.subrange(bearer_prefix().len() as int, h.len() as int))
        } else {
            Err("Invalid authorization header"@)
        },
    }
}

/// The message that refuses a token that does not decode or has expired.
pub open spec fn bad_token_message() -> Seq<char> {
    "Invalid or expired token"@
}

/// The message of the error when a handler finds no admitted user.
pub open spec fn missing_user_message() -> Seq<char> {
    "User ID not found"@
}

/// The middleware that guards the task routes.
#[derive(Debug, Clone, Copy)]
pub struct AuthMiddleware;

/// The guarded service: every request must carry a valid bearer token
/// before it reaches the inner service.
pub struct AuthMiddlewareService<S> {
    service: Rc<S>,
}

impl AuthMiddleware {
    /// Wraps `service` behind the authorization check.
    pub fn new_transform<S>(&self, service: S) -> (s: AuthMiddlewareService<S>)
        ensures
            s.inner() == service,
    {
        AuthMiddlewareService { service: Rc::new(service) }
    }
}

impl<S> AuthMiddlewareService<S> {
    /// The inner service.
    pub closed spec fn inner(&self) -> S {
        *self.service
    }

    /// The shared handle of the inner service.
    pub fn service(&self) -> (r: &Rc<S>)
        ensures
            **r == self.inner(),
    {
        &self.service
    }

    /// Reads the `Authorization` header: the token after `Bearer `, or an
    /// unauthorized error when the header is missing or uses another scheme.
    pub fn bearer_token(&self, header: Option<&str>) -> (r: Result<String, AppError>)
        ensures
            match header_outcome(header_text(header)) {
                Ok(t) => r matches Ok(s) && s@ == t,
                Err(m) => r matches Err(e) && e.is(ErrorKind::Unauthorized, m),
            },
    {
        proof {
            reveal_strlit("Bearer ");
        }
        match header {
            None => Err(AppError::new(ErrorKind::Unauthorized, "Missing authorization header")),
            Some(h) => {
                if starts_with(h, "Bearer ") {
                    let n = h.unicode_len();
                    Ok(h.substring_char(7, n).to_owned())
                } else {
                    Err(AppError::new(ErrorKind::Unauthorized, "Invalid authorization header"))
                }
            },
        }
    }

    /// Answers the outcome of decoding the token: the subject of its claims
    /// when it decoded, or an unauthorized error when it did not.
    pub fn accept_subject(&self, subject: Option<String>) -> (r: Result<String, AppError>)
        ensures
            match subject {
                Some(s) => r matches Ok(u) && u@ == s@,
                None => r matches Err(e) && e.is(ErrorKind::Unauthorized, bad_token_message()),
            },
    {
        match subject {
            Some(s) => Ok(s),
            None => Err(AppError::new(ErrorKind::Unauthorized, "Invalid or expired token")),
        }
    }
}

/// The user that the authorization check admitted for this request, as the
/// handler finds it among the request's extensions; an internal error when
/// there is none.
pub fn get_user_id(found: Option<String>) -> (r: Result<String, AppError>)
    ensures
        match found {
            Some(s) => r matches Ok(u) && u@ == s@,
            None => r matches Err(e) && e.is(ErrorKind::Internal, missing_user_message()),
        },
{
    match found {
        Some(s) => Ok(s),
        None => Err(AppError::new(ErrorKind::Internal, "User ID not found")),
    }
}

/// A header `Bearer ` followed by a token is read as that token, and a
/// header that is read as a token is `Bearer ` followed by it.
pub proof fn lemma_bearer_round_trip(token: Seq<char>, header: Seq<char>)
    ensures
        header_outcome(Some(bearer_prefix() + token)) == Ok::<Seq<char>, Seq<char>>(token),
        header_outcome(Some(header)) matches Ok(t) ==> header == bearer_prefix() + t,
{
    let h = bearer_prefix() + token;
    assert(h.subrange(0, bearer_prefix().len() as int) =~= bearer_prefix());
    assert(h.subrange(bearer_prefix().len() as int, h.len() as int) =~= token);
    if header_outcome(Some(header)) is Ok {
        let t = header.subrange(bearer_prefix().len() as int, header.len() as int);
        assert(header =~= header.subrange(0, bearer_prefix().len() as int) + t);
    }
}

} // verus!
