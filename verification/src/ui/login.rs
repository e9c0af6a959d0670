//! The login form.

use vstd::prelude::*;

use crate::client::APIError;
use crate::model::requests::{LoginUserV1, RegisterUserV1};
use crate::model::user::User;

verus! {

/// What the user can do in the login form.
#[derive(Debug, Clone)]
pub enum LoginMessage {
    UsernameChanged(String),
    PasswordChanged(String),
    Login,
    Register,
}

/// What the login form asks the application to do next.
#[derive(Debug, Clone)]
pub enum LoginCommand {
    Nothing,
    /// Log in with these credentials.
    Login(LoginUserV1),
    /// Register with these credentials.
    Register(RegisterUserV1),
}

/// The typed user name and password after an input: typing replaces a
/// field, the buttons change neither.
pub open spec fn login_after(username: Seq<char>, password: Seq<char>, m: LoginMessage) -> (Seq<char>, Seq<char>) {
    match m {
        LoginMessage::UsernameChanged(u) => (u@, password),
        LoginMessage::PasswordChanged(p) => (username, p@),
        LoginMessage::Login => (username, password),
        LoginMessage::Register => (username, password),
    }
}

/// The state of the login form: what has been typed so far.
#[derive(Debug, Clone)]
pub struct LoginView {
    pub username: String,
    pub password: String,
}

impl LoginView {
    /// An empty form.
    pub fn new() -> (v: Self)
        ensures
            v.username@ == Seq::<char>::empty(),
            v.password@ == Seq::<char>::empty(),
    {
        LoginView { username: String::new(), password: String::new() }
    }

    /// Handles an input: typing replaces the field's text, the buttons send
    /// the typed credentials.
    pub fn update(&mut self, message: LoginMessage) -> (c: LoginCommand)
        ensures
            (final(self).username@, final(self).password@) == login_after(
                old(self).username@,
                old(self).password@,
                message,
            ),
            message matches LoginMessage::UsernameChanged(u) ==> c is Nothing
                && final(self).username@ == u@ && final(self).password@ == old(self).password@,
            message matches LoginMessage::PasswordChanged(p) ==> c is Nothing
                && final(self).password@ == p@ && final(self).username@ == old(self).username@,
            message is Login ==> (c matches LoginCommand::Login(r) && r.name@ == old(self).username@
                && r.password@ == old(self).password@),
            message is Register ==> (c matches LoginCommand::Register(r) && r.name@ == old(
                self,
            ).username@ && r.password@ == old(self).password@),
            (message is Login || message is Register) ==> final(self).username@ == old(
                self,
            ).username@ && final(self).password@ == old(self).password@,
    {
        match message {
            LoginMessage::UsernameChanged(username) => {
                self.username = username;
                LoginCommand::Nothing
            },
            LoginMessage::PasswordChanged(password) => {
                self.password = password;
                LoginCommand::Nothing
            },
            LoginMessage::Login => LoginCommand::Login(
                LoginUserV1 { name: self.username.clone(), password: self.password.clone() },
            ),
            LoginMessage::Register => LoginCommand::Register(
                RegisterUserV1 { name: self.username.clone(), password: self.password.clone() },
            ),
        }
    }
}

/// Which button of the authentication form was pressed; `Unset` until one is.
#[derive(Debug, Clone, Copy, PartialEq, Eq, Structural)]
pub enum AuthType {
    Unset,
    Login,
    Register,
}

/// The request a submitted authentication form makes: a login or a
/// registration with the submitted credentials. The form is only submitted
/// through one of its buttons.
pub fn auth_request(auth_type: AuthType, username: String, password: String) -> (c: LoginCommand)
    requires
        auth_type != AuthType::Unset,
    ensures
        auth_type == AuthType::Login ==> (c matches LoginCommand::Login(r) && r.name@ == username@
            && r.password@ == password@),
        auth_type == AuthType::Register ==> (c matches LoginCommand::Register(r) && r.name@
            == username@ && r.password@ == password@),
{
    match auth_type {
        AuthType::Register => LoginCommand::Register(RegisterUserV1 { name: username, password }),
        _ => LoginCommand::Login(LoginUserV1 { name: username, password }),
    }
}

/// What the authentication form does with the server's answer.
#[derive(Debug)]
pub enum AuthOutcome {
    /// Remember the user and go back to the page shown before.
    LoggedIn(User),
    /// Report the failure.
    Failed(APIError),
}

/// The authentication form's reaction to the server's answer.
pub fn auth_outcome(res: Result<User, APIError>) -> (o: AuthOutcome)
    ensures
        res matches Ok(u) ==> (o matches AuthOutcome::LoggedIn(v) && v == u),
        res matches Err(e) ==> (o matches AuthOutcome::Failed(f) && f == e),
{
    match res {
        Ok(user) => AuthOutcome::LoggedIn(user),
        Err(e) => AuthOutcome::Failed(e),
    }
}

/// The logged-in user after a login or registration, and what the caller
/// is told: the user on success; nobody, and the error, on failure.
pub fn auth_state(res: Result<User, APIError>) -> (r: (Option<User>, Result<(), APIError>))
    ensures
        res matches Ok(u) ==> r.0 == Some(u) && r.1 is Ok,
        res matches Err(e) ==> r.0 is None && (r.1 matches Err(f) && f == e),
{
    match res {
        Ok(user) => (Some(user), Ok(())),
        Err(e) => (None, Err(e)),
    }
}

} // verus!
