//! The protection's configuration, the per-request verdict and the token
//! attached to outgoing responses.
use vstd::prelude::*;
use vstd::string::StringExecFns;
use crate::compare::constant_time_eq;
use crate::error::CsrfError;
use crate::extractor::BasicExtractor;
use crate::generator::{is_token, TokenGenerator};
use crate::method::Method;
use crate::request::{first_value, Request};

verus! {

/// The outcome of checking one request.
#[derive(Clone, Debug, PartialEq, Eq)]
pub enum Verdict {
    Allow,
    Reject(CsrfError),
}

/// The cookie to set on an outgoing response.
#[derive(Clone, Debug)]
pub struct TokenCookie {
    pub name: String,
    pub value: String,
    pub path: String,
}

/// What the configuration decides with: whether the protection is on, the
/// name of the token cookie, the extractors by method name in the order in
/// which they were registered, and the whitelisted (method, path) pairs.
pub ghost struct CsrfView {
    pub enabled: bool,
    pub cookie_name: Seq<char>,
    pub extractors: Seq<(Seq<char>, BasicExtractor)>,
    pub whitelist: Seq<(Seq<char>, Seq<char>)>,
}

/// The extractor registered last for method `m`: a later registration
/// replaces an earlier one.
pub open spec fn extractor_for(extractors: Seq<(Seq<char>, BasicExtractor)>, m: Seq<char>) -> Option<
    BasicExtractor,
>
    decreases extractors.len(),
{
    if extractors.len() == 0 {
        None
    } else if extractors.last().0 == m {
        Some(extractors.last().1)
    } else {
        extractor_for(extractors.drop_last(), m)
    }
}

/// Whether the pair (`m`, `path`) is whitelisted, by exact equality of both.
pub open spec fn whitelisted(v: CsrfView, m: Seq<char>, path: Seq<char>) -> bool {
    exists|i: int| 0 <= i < v.whitelist.len() && #[trigger] v.whitelist[i] == (m, path)
}

/// Whether `req` must carry matching tokens: the protection is on, the
/// request is not whitelisted and its method has an extractor.
pub open spec fn protects(v: CsrfView, req: Request) -> bool {
    &&& v.enabled
    &&& !whitelisted(v, req.method@, req.path@)
    &&& extractor_for(v.extractors, req.method@).is_some()
}

/// The verdict on `req`: allowed where it need not be checked; otherwise
/// refused for a missing cookie, then for a missing request token, then for
/// tokens that differ; allowed where both tokens are equal.
pub open spec fn verdict_of(v: CsrfView, req: Request) -> Verdict {
    if !protects(v, req) {
        Verdict::Allow
    } else {
        let ext = extractor_for(v.extractors, req.method@).unwrap();
        match first_value(req.cookies@, v.cookie_name) {
            None => Verdict::Reject(CsrfError::MissingCookie),
            Some(cookie) => match ext.token_in(req) {
                None => Verdict::Reject(CsrfError::MissingToken(ext.location_name())),
                Some(token) => if cookie@ == token@ {
                    Verdict::Allow
                } else {
                    Verdict::Reject(CsrfError::TokenDontMatch)
                },
            },
        }
    }
}

/// The double-submit-cookie protection: its configuration and the generator
/// of the tokens it hands out.
pub struct Csrf {
    generator: TokenGenerator,
    cookie_name: String,
    /// If false, no request is checked and no token is handed out.
    csrf_enabled: bool,
    /// One extractor per method; a later entry for a method replaces an
    /// earlier one.
    req_extractors: Vec<(Method, BasicExtractor)>,
    /// Endpoints that are not protected: pairs of method and path.
    whitelist: Vec<(Method, String)>,
}

impl View for Csrf {
    type V = CsrfView;

    closed spec fn view(&self) -> CsrfView {
        CsrfView {
            enabled: self.csrf_enabled,
            cookie_name: self.cookie_name@,
            extractors: self.req_extractors@.map_values(
                |e: (Method, BasicExtractor)| (e.0@, e.1),
            ),
            whitelist: self.whitelist@.map_values(|w: (Method, String)| (w.0@, w.1@)),
        }
    }
}

/// The name of the token cookie unless configured otherwise.
pub const DEFAULT_COOKIE_NAME: &'static str = "csrfToken";

/// The header that carries the request's token unless configured otherwise.
pub const DEFAULT_HEADER: &'static str = "x-csrf-token";

/// Whether `e` reads the header named `n`.
pub open spec fn reads_header(e: BasicExtractor, n: Seq<char>) -> bool {
    match e {
        BasicExtractor::Header { name } => name@ == n,
        _ => false,
    }
}

/// The extractor for methods that are protected by default.
fn default_extractor() -> (r: BasicExtractor)
    ensures
        reads_header(r, DEFAULT_HEADER@),
{
    BasicExtractor::Header { name: String::from_str(DEFAULT_HEADER) }
}

/// Whether `v` is the default configuration: on, with the cookie
/// `csrfToken`, POST, PUT and DELETE checked against the header
/// `x-csrf-token`, other methods unchecked, and nothing whitelisted.
pub open spec fn is_default(v: CsrfView) -> bool {
    &&& v.enabled
    &&& v.cookie_name == DEFAULT_COOKIE_NAME@
    &&& v.extractors.len() == 3
    &&& v.extractors[0].0 == "POST"@
    &&& v.extractors[1].0 == "PUT"@
    &&& v.extractors[2].0 == "DELETE"@
    &&& forall|i: int| 0 <= i < 3 ==> reads_header(#[trigger] v.extractors[i].1, DEFAULT_HEADER@)
    &&& v.whitelist.len() == 0
}

impl Csrf {
    /// The default protection, with tokens from a generator seeded by the
    /// operating system; `None` where the operating system cannot provide
    /// entropy.
    pub fn new() -> (r: Option<Csrf>)
        ensures
            r matches Some(c) ==> is_default(c@),
    {
        match TokenGenerator::new() {
            Some(generator) => Some(Csrf::with_generator(generator)),
            None => None,
        }
    }

    /// The default protection, with tokens from `generator`.
    pub fn with_generator(generator: TokenGenerator) -> (r: Csrf)
        ensures
            is_default(r@),
    {
        let mut req_extractors: Vec<(Method, BasicExtractor)> = Vec::new();
        req_extractors.push((Method::post(), default_extractor()));
        req_extractors.push((Method::put(), default_extractor()));
        req_extractors.push((Method::delete(), default_extractor()));
        Csrf {
            generator,
            cookie_name: String::from_str(DEFAULT_COOKIE_NAME),
            csrf_enabled: true,
            req_extractors,
            whitelist: Vec::new(),
        }
    }

    /// Turns the checks, and the tokens handed out, on or off.
    pub fn set_enabled(self, enabled: bool) -> (r: Csrf)
        ensures
            r@ == (CsrfView { enabled, ..self@ }),
    {
        let mut s = self;
        s.csrf_enabled = enabled;
        s
    }

    /// Names the token cookie.
    pub fn set_cookie_name(self, name: String) -> (r: Csrf)
        ensures
            r@ == (CsrfView { cookie_name: name@, ..self@ }),
    {
        let mut s = self;
        s.cookie_name = name;
        s
    }

    /// Registers `extractor` for `method`, replacing any earlier one.
    pub fn add_extractor(self, method: Method, extractor: BasicExtractor) -> (r: Csrf)
        ensures
            r@ == (CsrfView { extractors: self@.extractors.push((method@, extractor)), ..self@ }),
    {
        let mut s = self;
        let ghost m = method@;
        s.req_extractors.push((method, extractor));
        assert(s@.extractors =~= self@.extractors.push((m, extractor)));
        s
    }

    /// Replaces all the extractors; where a method occurs more than once in
    /// `extractors`, the last occurrence counts.
    pub fn set_extractors(self, extractors: Vec<(Method, BasicExtractor)>) -> (r: Csrf)
        ensures
            r@ == (CsrfView {
                extractors: extractors@.map_values(|e: (Method, BasicExtractor)| (e.0@, e.1)),
                ..self@
            }),
    {
        let mut s = self;
        s.req_extractors = extractors;
        s
    }

    /// Exempts requests with this method and exactly this path from the
    /// checks.
    pub fn add_whilelist(self, method: Method, uri: String) -> (r: Csrf)
        ensures
            r@ == (CsrfView { whitelist: self@.whitelist.push((method@, uri@)), ..self@ }),
    {
        let mut s = self;
        let ghost m = method@;
        let ghost u = uri@;
        s.whitelist.push((method, uri));
        assert(s@.whitelist =~= self@.whitelist.push((m, u)));
        s
    }

    /// Whether the pair (`req_method`, `req_uri`) is whitelisted.
    fn in_whilelist(&self, req_method: &Method, req_uri: &String) -> (r: bool)
        ensures
            r == whitelisted(self@, req_method@, req_uri@),
    {
        let mut i: usize = 0;
        while i < self.whitelist.len()
            invariant
                i <= self.whitelist@.len(),
                forall|j: int|
                    0 <= j < i ==> #[trigger] self@.whitelist[j] != (req_method@, req_uri@),
            decreases self.whitelist@.len() - i,
        {
            let entry = &self.whitelist[i];
            if entry.0.same_as(req_method) && entry.1 == *req_uri {
                assert(self@.whitelist[i as int] == (req_method@, req_uri@));
                return true;
            }
            i = i + 1;
        }
        false
    }

    /// The position of the extractor that counts for `method`.
    fn find_extractor(&self, method: &Method) -> (r: Option<usize>)
        ensures
            match r {
                Some(i) => i < self.req_extractors@.len() && extractor_for(
                    self@.extractors,
                    method@,
                ) == Some(self.req_extractors@[i as int].1),
                None => extractor_for(self@.extractors, method@).is_none(),
            },
    {
        let ghost all = self@.extractors;
        let mut i: usize = self.req_extractors.len();
        assert(all.subrange(0, i as int) =~= all);
        while i > 0
            invariant
                i <= self.req_extractors@.len(),
                all == self@.extractors,
                extractor_for(all, method@) == extractor_for(all.subrange(0, i as int), method@),
            decreases i,
        {
            let ghost prefix = all.subrange(0, i as int);
            assert(prefix.drop_last() =~= all.subrange(0, i - 1));
            if self.req_extractors[i - 1].0.same_as(method) {
                return Some(i - 1);
            }
            i = i - 1;
        }
        None
    }

    /// Whether `req` must carry matching tokens.
    pub fn should_protect(&self, req: &Request) -> (r: bool)
        ensures
            r == protects(self@, *req),
    {
        if self.in_whilelist(&req.method, &req.path) {
            return false;
        }
        self.find_extractor(&req.method).is_some() && self.csrf_enabled
    }

    /// The token of the request's cookie.
    fn extract_cookie_token(&self, req: &Request) -> (r: Result<String, CsrfError>)
        ensures
            r == match first_value(req.cookies@, self@.cookie_name) {
                Some(c) => Ok::<String, CsrfError>(c),
                None => Err(CsrfError::MissingCookie),
            },
    {
        match req.cookie(&self.cookie_name) {
            Some(c) => Ok(c),
            None => Err(CsrfError::MissingCookie),
        }
    }

    /// The token that the request supplies where its method's extractor
    /// looks.
    fn extract_request_token(&self, req: &Request) -> (r: Result<String, CsrfError>)
        requires
            extractor_for(self@.extractors, req.method@).is_some(),
        ensures
            r == match extractor_for(self@.extractors, req.method@).unwrap().token_in(*req) {
                Some(t) => Ok::<String, CsrfError>(t),
                None => Err(
                    CsrfError::MissingToken(
                        extractor_for(self@.extractors, req.method@).unwrap().location_name(),
                    ),
                ),
            },
    {
        match self.find_extractor(&req.method) {
            Some(i) => self.req_extractors[i].1.extract_token(req),
            // Not reached: the precondition gives the method an extractor.
            None => Err(CsrfError::MissingCookie),
        }
    }

    /// Checks `req`. Where it must be checked, the cookie's token and the
    /// request's token are compared in time that does not depend on where
    /// they first differ.
    pub fn decide(&self, req: &Request) -> (r: Verdict)
        ensures
            r == verdict_of(self@, *req),
    {
        if !self.should_protect(req) {
            return Verdict::Allow;
        }
        let cookie_token = match self.extract_cookie_token(req) {
            Ok(c) => c,
            Err(e) => {
                return Verdict::Reject(e);
            },
        };
        let req_token = match self.extract_request_token(req) {
            Ok(t) => t,
            Err(e) => {
                return Verdict::Reject(e);
            },
        };
        if constant_time_eq(cookie_token.as_str(), req_token.as_str()) {
            Verdict::Allow
        } else {
            Verdict::Reject(CsrfError::TokenDontMatch)
        }
    }

    /// A fresh token.
    pub fn generate_token(&mut self) -> (r: String)
        ensures
            is_token(r@),
            final(self)@ == old(self)@,
    {
        self.generator.generate()
    }

    /// The cookie to set on a response to a request that was allowed: while
    /// the protection is on, a freshly generated token under the configured
    /// cookie name with path `/`, so the token changes on every response;
    /// while it is off, none.
    pub fn response_cookie(&mut self) -> (r: Option<TokenCookie>)
        ensures
            final(self)@ == old(self)@,
            r.is_some() == old(self)@.enabled,
            r matches Some(c) ==> c.name@ == old(self)@.cookie_name && c.path@ == "/"@ && is_token(
                c.value@,
            ),
    {
        if !self.csrf_enabled {
            return None;
        }
        let value = self.generate_token();
        Some(TokenCookie { name: self.cookie_name.clone(), value, path: String::from_str("/") })
    }
}

/// A whitelisted request is allowed, whatever its cookie and token, present
/// or not.
pub proof fn whitelisted_request_allowed(v: CsrfView, req: Request)
    requires
        whitelisted(v, req.method@, req.path@),
    ensures
        !protects(v, req),
        verdict_of(v, req) == Verdict::Allow,
{
}

/// A request whose method has no extractor is allowed.
pub proof fn unregistered_method_allowed(v: CsrfView, req: Request)
    requires
        extractor_for(v.extractors, req.method@).is_none(),
    ensures
        !protects(v, req),
        verdict_of(v, req) == Verdict::Allow,
{
}

/// While the protection is off, every request is allowed.
pub proof fn disabled_allows_all(v: CsrfView, req: Request)
    requires
        !v.enabled,
    ensures
        !protects(v, req),
        verdict_of(v, req) == Verdict::Allow,
{
}

/// A protected request without the token cookie is refused for the missing
/// cookie, even where it supplies a token of its own.
pub proof fn missing_cookie_rejected(v: CsrfView, req: Request)
    requires
        protects(v, req),
        first_value(req.cookies@, v.cookie_name).is_none(),
    ensures
        verdict_of(v, req) == Verdict::Reject(CsrfError::MissingCookie),
{
}

/// A protected request whose cookie token and request token are present and
/// equal is allowed.
pub proof fn matching_tokens_allowed(v: CsrfView, req: Request, cookie: String, token: String)
    requires
        protects(v, req),
        first_value(req.cookies@, v.cookie_name) == Some(cookie),
        extractor_for(v.extractors, req.method@).unwrap().token_in(req) == Some(token),
        cookie@ == token@,
    ensures
        verdict_of(v, req) == Verdict::Allow,
{
}

/// A protected request whose cookie token and request token are present and
/// differ, in as little as one character, is refused for the mismatch.
pub proof fn differing_tokens_rejected(v: CsrfView, req: Request, cookie: String, token: String)
    requires
        protects(v, req),
        first_value(req.cookies@, v.cookie_name) == Some(cookie),
        extractor_for(v.extractors, req.method@).unwrap().token_in(req) == Some(token),
        cookie@ != token@,
    ensures
        verdict_of(v, req) == Verdict::Reject(CsrfError::TokenDontMatch),
{
}

} // verus!
