//! Where a request supplies its copy of the token.
use vstd::prelude::*;
use crate::error::CsrfError;
use crate::request::{first_header, first_value, Request};

verus! {

/// A place in a request that holds the request's copy of the token.
#[derive(Clone, Debug)]
pub enum BasicExtractor {
    /// The first header of the given name, ignoring the case of ASCII
    /// letters.
    Header { name: String },
    /// The first field of the given name in the parsed body.
    Body { name: String },
    /// The first query-string parameter of the given name.
    Query { name: String },
}

impl BasicExtractor {
    /// The name of the header, body field or query parameter.
    pub open spec fn location_name(self) -> String {
        match self {
            BasicExtractor::Header { name } => name,
            BasicExtractor::Body { name } => name,
            BasicExtractor::Query { name } => name,
        }
    }

    /// The token that `req` supplies at this place, if any. A body that could
    /// not be parsed supplies none.
    pub open spec fn token_in(self, req: Request) -> Option<String> {
        match self {
            BasicExtractor::Header { name } => first_header(req.headers@, name@),
            BasicExtractor::Query { name } => first_value(req.query@, name@),
            BasicExtractor::Body { name } => match req.body {
                Some(fields) => first_value(fields@, name@),
                None => None,
            },
        }
    }

    /// Takes the token out of `req`, or says which place was empty.
    pub fn extract_token(&self, req: &Request) -> (r: Result<String, CsrfError>)
        ensures
            r == match self.token_in(*req) {
                Some(t) => Ok::<String, CsrfError>(t),
                None => Err(CsrfError::MissingToken(self.location_name())),
            },
    {
        let found = match self {
            BasicExtractor::Header { name } => req.header(name),
            BasicExtractor::Query { name } => req.query_param(name),
            BasicExtractor::Body { name } => req.body_field(name),
        };
        match found {
            Some(t) => Ok(t),
            None => {
                let name = match self {
                    BasicExtractor::Header { name } => name.clone(),
                    BasicExtractor::Body { name } => name.clone(),
                    BasicExtractor::Query { name } => name.clone(),
                };
                Err(CsrfError::MissingToken(name))
            },
        }
    }
}

} // verus!
