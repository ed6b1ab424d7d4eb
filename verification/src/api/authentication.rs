//! The bodies of the login exchange.

use crate::api::client::{HttpRequest, Method, Params, params_view};
use crate::error::TokenAuthError;
use crate::text::joined;
use crate::{Baserow, Configuration};
use vstd::prelude::*;

verus! {

/// The body of a login request.
#[derive(Debug, Clone)]
pub struct LoginRequest {
    /// The user's e-mail address.
    pub email: String,
    /// The user's password.
    pub password: String,
}

/// The body of a successful login response.
#[derive(Debug, Clone)]
pub struct TokenResponse {
    /// The short-lived token that authorises requests.
    pub access_token: String,
    /// The token with which a new access token is obtained.
    pub refresh_token: String,
    /// The token under its older name.
    pub token: String,
    /// The user who logged in.
    pub user: User,
}

/// The user that a login response describes.
#[derive(Debug)]
pub struct User {
    /// The user's first name.
    pub first_name: String,
    /// The name the user logs in with.
    pub username: String,
    /// The language of the user's interface.
    pub language: String,
}

impl Clone for User {
    fn clone(&self) -> (copy: Self)
        ensures
            copy == *self,
    {
        User {
            first_name: self.first_name.clone(),
            username: self.username.clone(),
            language: self.language.clone(),
        }
    }
}

/// The body of a failed login response.
#[derive(Debug, Clone)]
pub struct TokenAuthErrorResponse {
    /// The service's error code.
    pub error: String,
}

/// The URL of the login exchange.
pub open spec fn token_auth_url(base: Seq<char>) -> Seq<char> {
    base + "/api/user/token-auth/"@
}

/// Whether a response with this status is a successful login.
pub open spec fn is_login(status: u16) -> bool {
    status == 200
}

/// Whether a response with this status is a successful login, so that its
/// body holds the tokens.
pub fn login_accepted(status: u16) -> (accepted: bool)
    ensures
        accepted == is_login(status),
{
    status == 200
}

/// Accepts the response to a login by its status: 200 passes; any other
/// status is a refused login that carries the body of the response.
pub fn token_auth_status(status: u16, body: String) -> (outcome: Result<(), TokenAuthError>)
    ensures
        is_login(status) ==> outcome is Ok,
        !is_login(status) ==> outcome == Err::<(), TokenAuthError>(
            TokenAuthError::AuthenticationFailed(body),
        ),
{
    if login_accepted(status) {
        Ok(())
    } else {
        Err(TokenAuthError::AuthenticationFailed(body))
    }
}

impl Baserow {
    /// The login request, with its body. It is refused when the
    /// configuration lacks the e-mail address, else when it lacks the
    /// password. The request carries no token.
    pub fn token_auth_request(&self) -> (outcome: Result<(HttpRequest, LoginRequest), TokenAuthError>)
        ensures
            self.configuration.email is None ==> (outcome matches Err(
                TokenAuthError::MissingCredentials(field),
            ) && field@ == "email"@),
            self.configuration.email is Some && self.configuration.password is None ==> (
            outcome matches Err(TokenAuthError::MissingCredentials(field)) && field@
                == "password"@),
            self.configuration.email is Some && self.configuration.password is Some ==> (
            outcome matches Ok(sent) && sent.0.describes(
                Method::Post,
                token_auth_url(self.configuration.base_url@),
                Params::empty(),
                None,
            ) && sent.1.email == self.configuration.email->0 && sent.1.password
                == self.configuration.password->0),
    {
        let email = match &self.configuration.email {
            Some(email) => email.clone(),
            None => {
                return Err(TokenAuthError::MissingCredentials("email"));
            },
        };
        let password = match &self.configuration.password {
            Some(password) => password.clone(),
            None => {
                return Err(TokenAuthError::MissingCredentials("password"));
            },
        };
        let sent = HttpRequest {
            method: Method::Post,
            url: joined(self.configuration.base_url.as_str(), "/api/user/token-auth/"),
            query: Vec::new(),
            authorization: None,
        };
        assert(params_view(sent.query@) =~= Params::empty());
        Ok((sent, LoginRequest { email, password }))
    }

    /// The client after a login: the tokens and the user of the response
    /// replace those of the configuration, the token under its older name
    /// becoming the database token.
    pub fn token_auth(&self, response: TokenResponse) -> (client: Baserow)
        ensures
            client.configuration == (Configuration {
                database_token: Some(response.token),
                access_token: Some(response.access_token),
                refresh_token: Some(response.refresh_token),
                user: Some(response.user),
                ..self.configuration
            }),
    {
        self.clone().with_database_token(response.token).with_access_token(
            response.access_token,
        ).with_refresh_token(response.refresh_token).with_user(response.user)
    }
}

} // verus!
