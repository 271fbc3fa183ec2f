//! Double-submit-cookie CSRF protection: the per-request decision, the
//! extraction of the two token copies, their comparison, and the minting of
//! fresh tokens for outgoing responses.
//!
//! A token is sent to the client in a cookie. On a checked request the client
//! returns it twice: in the cookie, and in a header, body field or query
//! parameter chosen per method. The request passes only where both copies are
//! equal.
pub mod compare;
pub mod csrf;
pub mod error;
pub mod extractor;
pub mod generator;
pub mod method;
pub mod request;

pub use crate::csrf::{Csrf, TokenCookie, Verdict};
pub use crate::error::CsrfError;
pub use crate::extractor::BasicExtractor;
pub use crate::generator::TokenGenerator;
pub use crate::method::Method;
pub use crate::request::Request;
