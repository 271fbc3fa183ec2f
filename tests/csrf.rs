use actix_csrf::compare::constant_time_eq;
use actix_csrf::generator::{token_from_draws, TOKEN_ALPHABET};
use actix_csrf::request::eq_ignoring_ascii_case;
use std::time::{Duration, Instant};
use actix_csrf::{BasicExtractor, Csrf, CsrfError, Method, Request, TokenGenerator, Verdict};
use std::collections::HashSet;

fn post(path: &str) -> Request {
    Request::new(Method::post(), path.to_string())
}

fn get(path: &str) -> Request {
    Request::new(Method::get(), path.to_string())
}

fn pair(name: &str, value: &str) -> (String, String) {
    (name.to_string(), value.to_string())
}

/// The token handed out on a first GET of "/".
fn token_from_get(csrf: &mut Csrf) -> String {
    assert_eq!(csrf.decide(&get("/")), Verdict::Allow);
    let cookie = csrf.response_cookie().expect("a token cookie");
    assert_eq!(cookie.name, "csrfToken");
    assert_eq!(cookie.path, "/");
    cookie.value
}

fn is_alphanumeric_token(t: &str) -> bool {
    t.len() == 32 && t.chars().all(|c| c.is_ascii_alphanumeric())
}

#[test]
fn test_attach_token() {
    let mut csrf = Csrf::new().unwrap();
    assert_eq!(csrf.decide(&get("/")), Verdict::Allow);
    let cookie = csrf.response_cookie();
    assert!(cookie.is_some());
    let cookie = cookie.unwrap();
    assert!(cookie.name.contains("csrfToken"));
    assert!(is_alphanumeric_token(&cookie.value));
}

#[test]
fn test_post_request_rejected() {
    let csrf = Csrf::new().unwrap();
    assert_eq!(csrf.decide(&post("/")), Verdict::Reject(CsrfError::MissingCookie));
}

#[test]
fn test_post_accepted_with_disabled() {
    let mut csrf = Csrf::new().unwrap().set_enabled(false);
    assert_eq!(csrf.decide(&post("/")), Verdict::Allow);
    assert!(csrf.response_cookie().is_none());
}

#[test]
fn double_submit_correct_token() {
    let mut csrf = Csrf::new().unwrap();
    let token = token_from_get(&mut csrf);
    let mut req = post("/");
    req.cookies.push(pair("csrfToken", &token));
    req.headers.push(pair("x-csrf-token", &token));
    assert_eq!(csrf.decide(&req), Verdict::Allow);
}

#[test]
fn test_whitelist() {
    let mut csrf = Csrf::new().unwrap().add_whilelist(Method::post(), "/".to_string());
    assert_eq!(csrf.decide(&post("/")), Verdict::Allow);
    let cookie = csrf.response_cookie();
    assert!(cookie.is_some());
    assert!(cookie.unwrap().name.contains("csrfToken"));
}

#[test]
fn whitelist_is_exact_on_path_and_method() {
    let csrf = Csrf::new().unwrap().add_whilelist(Method::post(), "/".to_string());
    assert_eq!(csrf.decide(&post("/other")), Verdict::Reject(CsrfError::MissingCookie));
    assert_eq!(csrf.decide(&post("/other/")), Verdict::Reject(CsrfError::MissingCookie));
    let put = Request::new(Method::put(), "/".to_string());
    assert_eq!(csrf.decide(&put), Verdict::Reject(CsrfError::MissingCookie));
}

#[test]
fn whitelisted_request_allowed_with_bad_tokens() {
    let csrf = Csrf::new().unwrap().add_whilelist(Method::delete(), "/item".to_string());
    let mut req = Request::new(Method::delete(), "/item".to_string());
    req.cookies.push(pair("csrfToken", "aaa"));
    req.headers.push(pair("x-csrf-token", "bbb"));
    assert_eq!(csrf.decide(&req), Verdict::Allow);
}

#[test]
fn unregistered_methods_allowed() {
    let csrf = Csrf::new().unwrap();
    for m in [Method::get(), Method::head(), Method::options(), Method::patch(), Method::new("PURGE")] {
        assert_eq!(csrf.decide(&Request::new(m, "/".to_string())), Verdict::Allow);
    }
}

#[test]
fn method_names_are_case_sensitive() {
    let csrf = Csrf::new().unwrap();
    let req = Request::new(Method::new("post"), "/".to_string());
    assert_eq!(csrf.decide(&req), Verdict::Allow);
    assert!(!Method::new("post").same_as(&Method::post()));
    assert!(Method::new("POST").same_as(&Method::post()));
    assert_eq!(Method::delete().as_str(), "DELETE");
}

#[test]
fn default_protects_post_put_delete() {
    let csrf = Csrf::new().unwrap();
    for m in [Method::post(), Method::put(), Method::delete()] {
        let req = Request::new(m, "/".to_string());
        assert_eq!(csrf.decide(&req), Verdict::Reject(CsrfError::MissingCookie));
    }
}

#[test]
fn missing_cookie_even_with_token() {
    let csrf = Csrf::new().unwrap();
    let mut req = post("/");
    req.headers.push(pair("x-csrf-token", "abc"));
    assert_eq!(csrf.decide(&req), Verdict::Reject(CsrfError::MissingCookie));
}

#[test]
fn missing_request_token() {
    let csrf = Csrf::new().unwrap();
    let mut req = post("/");
    req.cookies.push(pair("csrfToken", "abc"));
    assert_eq!(
        csrf.decide(&req),
        Verdict::Reject(CsrfError::MissingToken("x-csrf-token".to_string()))
    );
}

#[test]
fn tokens_differing_in_one_byte_rejected() {
    let csrf = Csrf::new().unwrap();
    let mut req = post("/");
    req.cookies.push(pair("csrfToken", "abcdef"));
    req.headers.push(pair("x-csrf-token", "abcdeg"));
    assert_eq!(csrf.decide(&req), Verdict::Reject(CsrfError::TokenDontMatch));
}

#[test]
fn token_prefix_rejected() {
    let csrf = Csrf::new().unwrap();
    let mut req = post("/");
    req.cookies.push(pair("csrfToken", "abcdef"));
    req.headers.push(pair("x-csrf-token", "abc"));
    assert_eq!(csrf.decide(&req), Verdict::Reject(CsrfError::TokenDontMatch));
}

#[test]
fn first_duplicate_header_counts() {
    let csrf = Csrf::new().unwrap();
    let mut req = post("/");
    req.cookies.push(pair("csrfToken", "good"));
    req.headers.push(pair("x-csrf-token", "good"));
    req.headers.push(pair("x-csrf-token", "bad"));
    assert_eq!(csrf.decide(&req), Verdict::Allow);

    let mut req = post("/");
    req.cookies.push(pair("csrfToken", "good"));
    req.headers.push(pair("x-csrf-token", "bad"));
    req.headers.push(pair("x-csrf-token", "good"));
    assert_eq!(csrf.decide(&req), Verdict::Reject(CsrfError::TokenDontMatch));
}

#[test]
fn query_extractor() {
    let csrf = Csrf::new().unwrap().add_extractor(
        Method::post(),
        BasicExtractor::Query { name: "csrf".to_string() },
    );
    let mut req = post("/");
    req.cookies.push(pair("csrfToken", "t1"));
    req.headers.push(pair("x-csrf-token", "t1"));
    assert_eq!(csrf.decide(&req), Verdict::Reject(CsrfError::MissingToken("csrf".to_string())));
    req.query.push(pair("csrf", "t1"));
    assert_eq!(csrf.decide(&req), Verdict::Allow);
}

#[test]
fn body_extractor_and_unparsed_body() {
    let csrf = Csrf::new().unwrap().add_extractor(
        Method::put(),
        BasicExtractor::Body { name: "token".to_string() },
    );
    let mut req = Request::new(Method::put(), "/".to_string());
    req.cookies.push(pair("csrfToken", "t2"));
    assert_eq!(csrf.decide(&req), Verdict::Reject(CsrfError::MissingToken("token".to_string())));
    req.body = Some(vec![pair("other", "x"), pair("token", "t2")]);
    assert_eq!(csrf.decide(&req), Verdict::Allow);
    req.body = Some(vec![pair("token", "t3")]);
    assert_eq!(csrf.decide(&req), Verdict::Reject(CsrfError::TokenDontMatch));
}

#[test]
fn set_extractors_replaces_all() {
    let csrf = Csrf::new().unwrap().set_extractors(vec![
        (Method::get(), BasicExtractor::Header { name: "a".to_string() }),
        (Method::get(), BasicExtractor::Header { name: "b".to_string() }),
    ]);
    assert_eq!(csrf.decide(&post("/")), Verdict::Allow);
    let mut req = get("/");
    req.cookies.push(pair("csrfToken", "v"));
    req.headers.push(pair("a", "v"));
    assert_eq!(csrf.decide(&req), Verdict::Reject(CsrfError::MissingToken("b".to_string())));
    req.headers.push(pair("b", "v"));
    assert_eq!(csrf.decide(&req), Verdict::Allow);
}

#[test]
fn custom_cookie_name() {
    let mut csrf = Csrf::new().unwrap().set_cookie_name("xsrf".to_string());
    let mut req = post("/");
    req.cookies.push(pair("csrfToken", "v"));
    req.headers.push(pair("x-csrf-token", "v"));
    assert_eq!(csrf.decide(&req), Verdict::Reject(CsrfError::MissingCookie));
    req.cookies.push(pair("xsrf", "v"));
    assert_eq!(csrf.decide(&req), Verdict::Allow);
    assert_eq!(csrf.response_cookie().unwrap().name, "xsrf");
}

#[test]
fn token_rotates_on_each_response() {
    let mut csrf = Csrf::new().unwrap();
    let first = token_from_get(&mut csrf);
    let second = token_from_get(&mut csrf);
    assert_ne!(first, second);
    let mut req = post("/");
    req.cookies.push(pair("csrfToken", &second));
    req.headers.push(pair("x-csrf-token", &second));
    assert_eq!(csrf.decide(&req), Verdict::Allow);
}

#[test]
fn generated_tokens_distinct_and_well_formed() {
    let mut generator = TokenGenerator::new().unwrap();
    let mut seen = HashSet::new();
    for _ in 0..10_000 {
        let t = generator.generate();
        assert!(is_alphanumeric_token(&t), "{}", t);
        assert!(seen.insert(t));
    }
}

#[test]
fn separate_generators_differ() {
    let a = TokenGenerator::new().unwrap().generate();
    let b = TokenGenerator::new().unwrap().generate();
    assert_ne!(a, b);
}

#[test]
fn constant_time_eq_cases() {
    assert!(constant_time_eq("", ""));
    assert!(constant_time_eq("abc", "abc"));
    assert!(!constant_time_eq("abc", "abd"));
    assert!(!constant_time_eq("abc", "ab"));
    assert!(!constant_time_eq("ab", "abc"));
    assert!(!constant_time_eq("", "a"));
    assert!(!constant_time_eq("a\u{0}", "a"));
    assert!(constant_time_eq("é", "é"));
    assert!(!constant_time_eq("é", "e"));
}

#[test]
fn request_lookups() {
    let mut req = get("/");
    req.cookies.push(pair("a", "1"));
    req.cookies.push(pair("a", "2"));
    req.query.push(pair("q", "3"));
    assert_eq!(req.cookie(&"a".to_string()), Some("1".to_string()));
    assert_eq!(req.cookie(&"b".to_string()), None);
    assert_eq!(req.query_param(&"q".to_string()), Some("3".to_string()));
    assert_eq!(req.header(&"q".to_string()), None);
    assert_eq!(req.body_field(&"q".to_string()), None);
}

#[test]
fn header_names_ignore_ascii_case() {
    let csrf = Csrf::new().unwrap();
    let mut req = post("/");
    req.cookies.push(pair("csrfToken", "tok"));
    req.headers.push(pair("X-CSRF-Token", "tok"));
    assert_eq!(csrf.decide(&req), Verdict::Allow);
    assert_eq!(req.header(&"x-csrf-TOKEN".to_string()), Some("tok".to_string()));
    assert_eq!(req.header(&"x-csrf-tokens".to_string()), None);
}

#[test]
fn cookie_names_are_exact() {
    let csrf = Csrf::new().unwrap();
    let mut req = post("/");
    req.cookies.push(pair("CSRFTOKEN", "tok"));
    req.headers.push(pair("x-csrf-token", "tok"));
    assert_eq!(csrf.decide(&req), Verdict::Reject(CsrfError::MissingCookie));
}

#[test]
fn ascii_case_comparison() {
    assert!(eq_ignoring_ascii_case("Content-Type", "content-type"));
    assert!(eq_ignoring_ascii_case("", ""));
    assert!(!eq_ignoring_ascii_case("a", "b"));
    assert!(!eq_ignoring_ascii_case("ab", "a"));
    assert!(!eq_ignoring_ascii_case("[", "{"));
    assert!(!eq_ignoring_ascii_case("É", "é"));
}

#[test]
fn token_from_draws_maps_each_draw() {
    let draws: Vec<u8> = (0..32u8).map(|i| (i * 2) % 62).collect();
    let t = token_from_draws(&draws);
    assert_eq!(t, "ACEGIKMOQSUWYacegikmoqsuwy02468A");
    let last: Vec<u8> = vec![61; 32];
    assert_eq!(token_from_draws(&last), "9".repeat(32));
    let first: Vec<u8> = vec![0; 32];
    assert_eq!(token_from_draws(&first), "A".repeat(32));
    assert_eq!(TOKEN_ALPHABET.len(), 62);
}

#[test]
fn generate_token_shape() {
    let mut csrf = Csrf::with_generator(TokenGenerator::new().unwrap());
    let t = csrf.generate_token();
    assert!(is_alphanumeric_token(&t));
    assert_ne!(t, csrf.generate_token());
}

#[test]
fn should_protect_cases() {
    let csrf = Csrf::new().unwrap().add_whilelist(Method::post(), "/open".to_string());
    assert!(csrf.should_protect(&post("/")));
    assert!(!csrf.should_protect(&post("/open")));
    assert!(!csrf.should_protect(&get("/")));
    let off = Csrf::new().unwrap().set_enabled(false);
    assert!(!off.should_protect(&post("/")));
}

#[test]
fn error_reasons() {
    assert_eq!(CsrfError::TokenDontMatch.reason(), "The CSRF Tokens do not match");
    assert_eq!(CsrfError::MissingCookie.reason(), "The CSRF Token is missing in the cookies");
    assert_eq!(
        CsrfError::MissingToken("x-csrf-token".to_string()).reason(),
        "The CSRF Token is missing = x-csrf-token"
    );
}

/// The fastest of several timed runs of comparing `a` with `b`.
fn fastest_compare(a: &str, b: &str, rounds: usize) -> Duration {
    let mut best = Duration::MAX;
    for _ in 0..rounds {
        let start = Instant::now();
        for _ in 0..20 {
            assert!(!constant_time_eq(std::hint::black_box(a), std::hint::black_box(b)));
        }
        best = best.min(start.elapsed());
    }
    best
}

#[test]
fn constant_time_eq_timing_independent_of_mismatch_position() {
    let base: String = "a".repeat(16 * 1024);
    let mut early = String::from("b");
    early.push_str(&base[1..]);
    let mut late = base[..base.len() - 1].to_string();
    late.push('b');
    let mut first_early = Duration::ZERO;
    let mut first_late = Duration::ZERO;
    for _ in 0..5 {
        first_early += fastest_compare(&base, &early, 10);
        first_late += fastest_compare(&base, &late, 10);
    }
    let (e, l) = (first_early.as_nanos() as f64, first_late.as_nanos() as f64);
    let ratio = e / l;
    assert!(ratio > 0.33 && ratio < 3.0, "early {} ns, late {} ns", e, l);
}
