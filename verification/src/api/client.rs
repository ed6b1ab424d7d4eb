//! Requests as plain descriptions, and what every request has in common.

use crate::error::TableError;
use crate::text::joined;
use crate::text::text_of;
use crate::{Baserow, Configuration};
use vstd::prelude::*;

verus! {

/// The method of a request.
#[derive(Debug, Clone, Copy, PartialEq, Eq, Structural)]
pub enum Method {
    /// Read.
    Get,
    /// Create.
    Post,
    /// Change.
    Patch,
    /// Remove.
    Delete,
}

/// A request, described and not yet sent: the caller sends it and hands the
/// response back.
#[derive(Debug)]
pub struct HttpRequest {
    /// The method.
    pub method: Method,
    /// The URL, without query parameters.
    pub url: String,
    /// The query parameters, in the order in which they are appended.
    pub query: Vec<(String, String)>,
    /// The value of the `Authorization` header, where one is sent.
    pub authorization: Option<String>,
}

/// Query parameters as mathematics: pairs of a key and a value.
pub type Params = Seq<(Seq<char>, Seq<char>)>;

/// The mathematical parameters of a vector of owned parameters.
pub open spec fn params_view(query: Seq<(String, String)>) -> Params {
    query.map_values(|p: (String, String)| (p.0@, p.1@))
}

impl HttpRequest {
    /// Whether the request has this method, URL, query and `Authorization`
    /// header.
    pub open spec fn describes(
        &self,
        method: Method,
        url: Seq<char>,
        query: Params,
        authorization: Option<Seq<char>>,
    ) -> bool {
        &&& self.method == method
        &&& self.url@ == url
        &&& params_view(self.query@) == query
        &&& text_of(self.authorization) == authorization
    }
}

/// The value of the `Authorization` header for a configuration: the session
/// token where there is one, else the database token, else none.
pub open spec fn authorization_of(configuration: Configuration) -> Option<Seq<char>> {
    match configuration.jwt {
        Some(token) => Some("JWT "@ + token@),
        None => match configuration.database_token {
            Some(token) => Some("Token "@ + token@),
            None => None,
        },
    }
}

/// Whether a response with this status is a success.
pub open spec fn is_success(status: u16) -> bool {
    200 <= status < 300
}

/// Accepts a response by its status: a status from 200 to 299 passes; any
/// other is an error that carries the status and the body of the response.
pub fn check_status(status: u16, body: String) -> (outcome: Result<(), TableError>)
    ensures
        is_success(status) ==> outcome is Ok,
        !is_success(status) ==> outcome == Err::<(), TableError>(
            TableError::Request { status, body },
        ),
{
    if 200 <= status && status < 300 {
        Ok(())
    } else {
        Err(TableError::Request { status, body })
    }
}

impl Baserow {
    /// The value of the `Authorization` header that this client sends.
    pub fn authorization(&self) -> (header: Option<String>)
        ensures
            text_of(header) == authorization_of(self.configuration),
    {
        match &self.configuration.jwt {
            Some(token) => Some(joined("JWT ", token.as_str())),
            None => match &self.configuration.database_token {
                Some(token) => Some(joined("Token ", token.as_str())),
                None => None,
            },
        }
    }
}

} // verus!
