//! Why a protected request was refused.
use vstd::prelude::*;
use vstd::string::StringExecFns;

verus! {

/// The reasons for refusing a request that must carry a CSRF token.
#[derive(Clone, Debug, PartialEq, Eq)]
pub enum CsrfError {
    /// The token of the cookie and the token supplied in the request differ.
    TokenDontMatch,
    /// The request carries no token cookie.
    MissingCookie,
    /// The request carries no token where the method's extractor looks; holds
    /// the name of the header, body field or query parameter looked up.
    MissingToken(String),
}

/// The text that describes `e` in the server's log.
pub open spec fn reason_text(e: CsrfError) -> Seq<char> {
    match e {
        CsrfError::TokenDontMatch => "The CSRF Tokens do not match"@,
        CsrfError::MissingCookie => "The CSRF Token is missing in the cookies"@,
        CsrfError::MissingToken(name) => "The CSRF Token is missing = "@ + name@,
    }
}

impl CsrfError {
    /// The text for the server's log. It is not meant for the client.
    pub fn reason(&self) -> (r: String)
        ensures
            r@ == reason_text(*self),
    {
        match self {
            CsrfError::TokenDontMatch => String::from_str("The CSRF Tokens do not match"),
            CsrfError::MissingCookie => String::from_str("The CSRF Token is missing in the cookies"),
            CsrfError::MissingToken(name) => String::from_str(
                "The CSRF Token is missing = ",
            ).concat(name.as_str()),
        }
    }
}

} // verus!
