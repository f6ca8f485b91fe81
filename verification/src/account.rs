//! Registration and login as steps: each step takes what the application
//! learned from the work it was asked to do (a lookup, an insert, a token)
//! and decides the next state and the next piece of work, or the answer.
//! Hashing and checking passwords happen inside the steps.  The application
//! performs the work and feeds the outcome back.

use vstd::prelude::*;
use crate::db::{is_new_user_row, new_user_row};
use crate::error::{AppError, ErrorKind};
use crate::handlers::{
    auth_response, email_taken_message, login_lookup, login_password, login_problem,
    lookup_failure_answer, registration_problem, reject_taken_email, validate_login,
    validate_registration, wrong_password_answer,
};
use crate::models::{AuthResponse, LoginRequest, RegisterRequest, User};
use crate::password::{
    bcrypt_check, hash_failed_message, hash_password, is_hash_of, verify_failed_message,
    verify_password,
};

verus! {

/// Where a registration stands.
pub enum RegisterState {
    /// Nothing has been done yet.
    Start,
    /// The request is valid; the application is counting users with its email.
    CheckingEmail { req: RegisterRequest },
    /// The application is inserting the new user and reading it back.
    Storing,
    /// The user is stored; the application is issuing its token.
    IssuingToken { user: User },
    /// The registration has been answered.
    Done,
}

/// What the application reports to a registration.
pub enum RegisterEvent {
    /// A registration request arrived.
    Begin(RegisterRequest),
    /// Whether a user with the requested email already exists.
    EmailChecked(Result<bool, AppError>),
    /// The stored user, as read back.
    UserStored(Result<User, AppError>),
    /// The token issued for the user.
    TokenIssued(Result<String, AppError>),
}

/// What a registration asks the application to do next.
pub enum RegisterAction {
    /// Find out whether a user with this email exists.
    CheckEmail(String),
    /// Insert this row, then read the user back by its identifier.
    StoreUser(User),
    /// Issue a token for the user with this identifier.
    IssueToken(String),
    /// Answer with this body (201 Created).
    Respond(AuthResponse),
    /// Answer with this error.
    Fail(AppError),
}

impl RegisterState {
    /// Whether this state waits for `event`.
    pub open spec fn expects(&self, event: &RegisterEvent) -> bool {
        match (self, event) {
            (RegisterState::Start, RegisterEvent::Begin(_)) => true,
            (RegisterState::CheckingEmail { .. }, RegisterEvent::EmailChecked(_)) => true,
            (RegisterState::Storing, RegisterEvent::UserStored(_)) => true,
            (RegisterState::IssuingToken { .. }, RegisterEvent::TokenIssued(_)) => true,
            _ => false,
        }
    }

    /// Whether `(next, action)` is the step that this state takes on `event`.
    /// When the email is free the password is hashed: either the hash fails
    /// and the registration fails, or the row to store holds a hash made from
    /// the requested password.
    pub open spec fn steps_to(
        self,
        event: RegisterEvent,
        next: RegisterState,
        action: RegisterAction,
    ) -> bool {
        match (self, event) {
            (RegisterState::Start, RegisterEvent::Begin(req)) => match registration_problem(
                req.username@,
                req.email@,
                req.password@,
            ) {
                Some(m) => {
                    &&& action matches RegisterAction::Fail(e)
                    &&& e.is(ErrorKind::BadRequest, m)
                    &&& next == RegisterState::Done
                },
                None => {
                    &&& action matches RegisterAction::CheckEmail(email)
                    &&& email@ == req.email@
                    &&& next == (RegisterState::CheckingEmail { req })
                },
            },
            (RegisterState::CheckingEmail { req }, RegisterEvent::EmailChecked(checked)) => match checked {
                Err(e) => next == RegisterState::Done && action == RegisterAction::Fail(e),
                Ok(true) => {
                    &&& action matches RegisterAction::Fail(e)
                    &&& e.is(ErrorKind::Conflict, email_taken_message())
                    &&& next == RegisterState::Done
                },
                Ok(false) => {
                    ||| {
                        &&& action matches RegisterAction::StoreUser(u)
                        &&& is_hash_of(req.password@, u.password@)
                        &&& is_new_user_row(u, req, u.password@)
                        &&& next == RegisterState::Storing
                    }
                    ||| {
                        &&& action matches RegisterAction::Fail(e)
                        &&& e.is(ErrorKind::Internal, hash_failed_message())
                        &&& next == RegisterState::Done
                    }
                },
            },
            (RegisterState::Storing, RegisterEvent::UserStored(stored)) => match stored {
                Err(e) => next == RegisterState::Done && action == RegisterAction::Fail(e),
                Ok(u) => {
                    &&& action matches RegisterAction::IssueToken(id)
                    &&& id@ == u.id@
                    &&& next == (RegisterState::IssuingToken { user: u })
                },
            },
            (RegisterState::IssuingToken { user }, RegisterEvent::TokenIssued(issued)) => match issued {
                Err(e) => next == RegisterState::Done && action == RegisterAction::Fail(e),
                Ok(t) => {
                    &&& action matches RegisterAction::Respond(r)
                    &&& r.token@ == t@
                    &&& r.user.shows(&user)
                    &&& next == RegisterState::Done
                },
            },
            _ => false,
        }
    }

    /// Whether this state waits for `event`.
    pub fn accepts(&self, event: &RegisterEvent) -> (b: bool)
        ensures
            b == self.expects(event),
    {
        match (self, event) {
            (RegisterState::Start, RegisterEvent::Begin(_)) => true,
            (RegisterState::CheckingEmail { .. }, RegisterEvent::EmailChecked(_)) => true,
            (RegisterState::Storing, RegisterEvent::UserStored(_)) => true,
            (RegisterState::IssuingToken { .. }, RegisterEvent::TokenIssued(_)) => true,
            _ => false,
        }
    }

    /// Takes the step of a registration on `event`.
    pub fn step(self, event: RegisterEvent) -> (r: (RegisterState, RegisterAction))
        requires
            self.expects(&event),
        ensures
            self.steps_to(event, r.0, r.1),
    {
        match (self, event) {
            (RegisterState::Start, RegisterEvent::Begin(req)) => {
                match validate_registration(&req) {
                    Err(e) => (RegisterState::Done, RegisterAction::Fail(e)),
                    Ok(()) => {
                        let email = req.email.clone();
                        (RegisterState::CheckingEmail { req }, RegisterAction::CheckEmail(email))
                    },
                }
            },
            (RegisterState::CheckingEmail { req }, RegisterEvent::EmailChecked(checked)) => {
                match checked {
                    Err(e) => (RegisterState::Done, RegisterAction::Fail(e)),
                    Ok(exists) => match reject_taken_email(exists) {
                        Err(e) => (RegisterState::Done, RegisterAction::Fail(e)),
                        Ok(()) => match hash_password(req.password.as_str()) {
                            Err(e) => (RegisterState::Done, RegisterAction::Fail(e)),
                            Ok(h) => {
                                let row = new_user_row(&req, h.as_str());
                                (RegisterState::Storing, RegisterAction::StoreUser(row))
                            },
                        },
                    },
                }
            },
            (RegisterState::Storing, RegisterEvent::UserStored(stored)) => {
                match stored {
                    Err(e) => (RegisterState::Done, RegisterAction::Fail(e)),
                    Ok(u) => {
                        let id = u.id.clone();
                        (RegisterState::IssuingToken { user: u }, RegisterAction::IssueToken(id))
                    },
                }
            },
            (RegisterState::IssuingToken { user }, RegisterEvent::TokenIssued(issued)) => {
                match issued {
                    Err(e) => (RegisterState::Done, RegisterAction::Fail(e)),
                    Ok(t) => (RegisterState::Done, RegisterAction::Respond(auth_response(t, user))),
                }
            },
            _ => {
                proof {
                    assert(false);
                }
                (RegisterState::Done, RegisterAction::Fail(AppError::new(ErrorKind::Internal, "")))
            },
        }
    }
}

/// Where a login stands.
pub enum LoginState {
    /// Nothing has been done yet.
    Start,
    /// The request is valid; the application is looking the user up by email.
    LookingUp { req: LoginRequest },
    /// The password matches; the application is issuing the user's token.
    IssuingToken { user: User },
    /// The login has been answered.
    Done,
}

/// What the application reports to a login.
pub enum LoginEvent {
    /// A login request arrived.
    Begin(LoginRequest),
    /// The user with the requested email.
    UserFound(Result<User, AppError>),
    /// The token issued for the user.
    TokenIssued(Result<String, AppError>),
}

/// What a login asks the application to do next.
pub enum LoginAction {
    /// Look up the user with this email.
    FindUser(String),
    /// Issue a token for the user with this identifier.
    IssueToken(String),
    /// Answer with this body (200 OK).
    Respond(AuthResponse),
    /// Answer with this error.
    Fail(AppError),
}

impl LoginState {
    /// Whether this state waits for `event`.
    pub open spec fn expects(&self, event: &LoginEvent) -> bool {
        match (self, event) {
            (LoginState::Start, LoginEvent::Begin(_)) => true,
            (LoginState::LookingUp { .. }, LoginEvent::UserFound(_)) => true,
            (LoginState::IssuingToken { .. }, LoginEvent::TokenIssued(_)) => true,
            _ => false,
        }
    }

    /// Whether `(next, action)` is the step that this state takes on `event`.
    /// When the user is found, the requested password is checked against the
    /// stored hash.
    pub open spec fn steps_to(self, event: LoginEvent, next: LoginState, action: LoginAction) -> bool {
        match (self, event) {
            (LoginState::Start, LoginEvent::Begin(req)) => match login_problem(
                req.email@,
                req.password@,
            ) {
                Some(m) => {
                    &&& action matches LoginAction::Fail(e)
                    &&& e.is(ErrorKind::BadRequest, m)
                    &&& next == LoginState::Done
                },
                None => {
                    &&& action matches LoginAction::FindUser(email)
                    &&& email@ == req.email@
                    &&& next == (LoginState::LookingUp { req })
                },
            },
            (LoginState::LookingUp { req }, LoginEvent::UserFound(found)) => match found {
                Err(e) => {
                    &&& action matches LoginAction::Fail(e2)
                    &&& e2.report() == lookup_failure_answer(e.report())
                    &&& next == LoginState::Done
                },
                Ok(u) => match bcrypt_check(req.password@, u.password@) {
                    None => {
                        &&& action matches LoginAction::Fail(e)
                        &&& e.is(ErrorKind::Internal, verify_failed_message())
                        &&& next == LoginState::Done
                    },
                    Some(false) => {
                        &&& action matches LoginAction::Fail(e)
                        &&& e.report() == wrong_password_answer()
                        &&& next == LoginState::Done
                    },
                    Some(true) => {
                        &&& action matches LoginAction::IssueToken(id)
                        &&& id@ == u.id@
                        &&& next == (LoginState::IssuingToken { user: u })
                    },
                },
            },
            (LoginState::IssuingToken { user }, LoginEvent::TokenIssued(issued)) => match issued {
                Err(e) => next == LoginState::Done && action == LoginAction::Fail(e),
                Ok(t) => {
                    &&& action matches LoginAction::Respond(r)
                    &&& r.token@ == t@
                    &&& r.user.shows(&user)
                    &&& next == LoginState::Done
                },
            },
            _ => false,
        }
    }

    /// Whether this state waits for `event`.
    pub fn accepts(&self, event: &LoginEvent) -> (b: bool)
        ensures
            b == self.expects(event),
    {
        match (self, event) {
            (LoginState::Start, LoginEvent::Begin(_)) => true,
            (LoginState::LookingUp { .. }, LoginEvent::UserFound(_)) => true,
            (LoginState::IssuingToken { .. }, LoginEvent::TokenIssued(_)) => true,
            _ => false,
        }
    }

    /// Takes the step of a login on `event`.
    pub fn step(self, event: LoginEvent) -> (r: (LoginState, LoginAction))
        requires
            self.expects(&event),
        ensures
            self.steps_to(event, r.0, r.1),
    {
        match (self, event) {
            (LoginState::Start, LoginEvent::Begin(req)) => {
                match validate_login(&req) {
                    Err(e) => (LoginState::Done, LoginAction::Fail(e)),
                    Ok(()) => {
                        let email = req.email.clone();
                        (LoginState::LookingUp { req }, LoginAction::FindUser(email))
                    },
                }
            },
            (LoginState::LookingUp { req }, LoginEvent::UserFound(found)) => {
                match login_lookup(found) {
                    Err(e) => (LoginState::Done, LoginAction::Fail(e)),
                    Ok(u) => match verify_password(req.password.as_str(), u.password.as_str()) {
                        Err(e) => (LoginState::Done, LoginAction::Fail(e)),
                        Ok(valid) => match login_password(valid) {
                            Err(e) => (LoginState::Done, LoginAction::Fail(e)),
                            Ok(()) => {
                                let id = u.id.clone();
                                (LoginState::IssuingToken { user: u }, LoginAction::IssueToken(id))
                            },
                        },
                    },
                }
            },
            (LoginState::IssuingToken { user }, LoginEvent::TokenIssued(issued)) => {
                match issued {
                    Err(e) => (LoginState::Done, LoginAction::Fail(e)),
                    Ok(t) => (LoginState::Done, LoginAction::Respond(auth_response(t, user))),
                }
            },
            _ => {
                proof {
                    assert(false);
                }
                (LoginState::Done, LoginAction::Fail(AppError::new(ErrorKind::Internal, "")))
            },
        }
    }
}

/// A registration stores a user only after the email was reported free, and
/// the row it stores holds a hash that accepts the requested password.
pub proof fn lemma_register_stores_only_free_emails(
    state: RegisterState,
    event: RegisterEvent,
    next: RegisterState,
    action: RegisterAction,
)
    requires
        state.steps_to(event, next, action),
    ensures
        action is StoreUser ==> event matches RegisterEvent::EmailChecked(Ok(false)),
        action matches RegisterAction::StoreUser(u) ==> state matches RegisterState::CheckingEmail {
            req,
        } && bcrypt_check(req.password@, u.password@) == Some(true),
        next is Storing ==> action is StoreUser,
{
}

/// A registration answers with a body only once a token was issued for the
/// stored user, and issues a token only for the user it stored.
pub proof fn lemma_register_responds_only_with_token(
    state: RegisterState,
    event: RegisterEvent,
    next: RegisterState,
    action: RegisterAction,
)
    requires
        state.steps_to(event, next, action),
    ensures
        action is Respond ==> state is IssuingToken && event matches RegisterEvent::TokenIssued(
            Ok(_),
        ),
        next is IssuingToken ==> state is Storing && event matches RegisterEvent::UserStored(
            Ok(_),
        ),
{
}

/// A login issues a token only for the user found by the requested email,
/// and only when the requested password matches that user's stored hash; it
/// answers with a body only once that token was issued.
pub proof fn lemma_login_token_only_after_password(
    state: LoginState,
    event: LoginEvent,
    next: LoginState,
    action: LoginAction,
)
    requires
        state.steps_to(event, next, action),
    ensures
        action matches LoginAction::IssueToken(id) ==> {
            &&& state matches LoginState::LookingUp { req }
            &&& event matches LoginEvent::UserFound(Ok(u))
            &&& bcrypt_check(req.password@, u.password@) == Some(true)
            &&& id@ == u.id@
        },
        next is IssuingToken ==> action is IssueToken,
        action is Respond ==> state is IssuingToken && event matches LoginEvent::TokenIssued(
            Ok(_),
        ),
{
}

/// A login that fails on an unknown email and one that fails on a wrong
/// password are answered alike.
pub proof fn lemma_login_failures_answered_alike(
    missing: AppError,
    req1: LoginRequest,
    a1: LoginAction,
    n1: LoginState,
    user: User,
    req2: LoginRequest,
    a2: LoginAction,
    n2: LoginState,
)
    requires
        missing.kind() == ErrorKind::NotFound,
        (LoginState::LookingUp { req: req1 }).steps_to(
            LoginEvent::UserFound(Err(missing)),
            n1,
            a1,
        ),
        bcrypt_check(req2.password@, user.password@) == Some(false),
        (LoginState::LookingUp { req: req2 }).steps_to(LoginEvent::UserFound(Ok(user)), n2, a2),
    ensures
        a1 matches LoginAction::Fail(e1) && a2 matches LoginAction::Fail(e2) && e1.report()
            == e2.report(),
{
}

} // verus!
