//! The parts of an inbound request that the protection reads: its method and
//! path, and its cookies, headers, query parameters and body fields as
//! name/value pairs, already parsed by the caller.
use vstd::prelude::*;
use crate::method::Method;
use vstd::utf8::encode_utf8;

verus! {

/// A list of name/value pairs, in the order in which they came.
pub type Pairs = Vec<(String, String)>;

/// The value of the first pair of `pairs`, from index `i` on, whose name is
/// `name`.
pub open spec fn first_value_from(pairs: Seq<(String, String)>, name: Seq<char>, i: int) -> Option<
    String,
>
    decreases pairs.len() - i,
{
    if i < 0 || i >= pairs.len() {
        None
    } else if pairs[i].0@ == name {
        Some(pairs[i].1)
    } else {
        first_value_from(pairs, name, i + 1)
    }
}

/// The value of the first pair of `pairs` whose name is `name`.
pub open spec fn first_value(pairs: Seq<(String, String)>, name: Seq<char>) -> Option<String> {
    first_value_from(pairs, name, 0)
}

/// Looks `name` up in `pairs`; where the name occurs more than once, the first
/// value is returned.
pub fn find_first(pairs: &Pairs, name: &String) -> (r: Option<String>)
    ensures
        r == first_value(pairs@, name@),
{
    let mut i: usize = 0;
    while i < pairs.len()
        invariant
            i <= pairs@.len(),
            first_value(pairs@, name@) == first_value_from(pairs@, name@, i as int),
        decreases pairs@.len() - i,
    {
        if pairs[i].0 == *name {
            return Some(pairs[i].1.clone());
        }
        i = i + 1;
    }
    None
}

/// `b` with an ASCII upper-case letter turned to lower case.
pub open spec fn ascii_lower(b: u8) -> u8 {
    if 65 <= b <= 90 {
        (b + 32) as u8
    } else {
        b
    }
}

/// Whether two byte strings are equal once ASCII letters are lower-cased.
pub open spec fn same_ignoring_ascii_case(a: Seq<u8>, b: Seq<u8>) -> bool {
    &&& a.len() == b.len()
    &&& forall|i: int| 0 <= i < a.len() ==> ascii_lower(#[trigger] a[i]) == ascii_lower(b[i])
}

/// Compares two names, ignoring the case of ASCII letters.
pub fn eq_ignoring_ascii_case(a: &str, b: &str) -> (r: bool)
    ensures
        r == same_ignoring_ascii_case(encode_utf8(a@), encode_utf8(b@)),
{
    let ab = a.as_bytes();
    let bb = b.as_bytes();
    if ab.len() != bb.len() {
        return false;
    }
    let mut i: usize = 0;
    while i < ab.len()
        invariant
            ab@ == encode_utf8(a@),
            bb@ == encode_utf8(b@),
            ab@.len() == bb@.len(),
            i <= ab@.len(),
            forall|j: int| 0 <= j < i ==> ascii_lower(#[trigger] ab@[j]) == ascii_lower(bb@[j]),
        decreases ab@.len() - i,
    {
        let x: u8 = if 65 <= ab[i] && ab[i] <= 90 {
            ab[i] + 32
        } else {
            ab[i]
        };
        let y: u8 = if 65 <= bb[i] && bb[i] <= 90 {
            bb[i] + 32
        } else {
            bb[i]
        };
        if x != y {
            return false;
        }
        i = i + 1;
    }
    true
}

/// The value of the first header of `headers`, from index `i` on, whose name
/// is `name` up to the case of ASCII letters.
pub open spec fn first_header_from(headers: Seq<(String, String)>, name: Seq<char>, i: int) -> Option<
    String,
>
    decreases headers.len() - i,
{
    if i < 0 || i >= headers.len() {
        None
    } else if same_ignoring_ascii_case(encode_utf8(headers[i].0@), encode_utf8(name)) {
        Some(headers[i].1)
    } else {
        first_header_from(headers, name, i + 1)
    }
}

/// The value of the first header of `headers` named `name`; header names are
/// compared without regard to the case of ASCII letters.
pub open spec fn first_header(headers: Seq<(String, String)>, name: Seq<char>) -> Option<String> {
    first_header_from(headers, name, 0)
}

/// An inbound request as the protection sees it.
#[derive(Clone, Debug)]
pub struct Request {
    pub method: Method,
    pub path: String,
    /// Cookies sent by the client.
    pub cookies: Pairs,
    pub headers: Pairs,
    /// Parameters of the query string.
    pub query: Pairs,
    /// Fields of the body, or `None` where the body could not be parsed into
    /// fields.
    pub body: Option<Pairs>,
}

impl Request {
    /// A request with no cookies, headers, query parameters or body fields.
    pub fn new(method: Method, path: String) -> (r: Request)
        ensures
            r.method == method,
            r.path == path,
            r.cookies@.len() == 0,
            r.headers@.len() == 0,
            r.query@.len() == 0,
            r.body.is_none(),
    {
        Request { method, path, cookies: Vec::new(), headers: Vec::new(), query: Vec::new(), body: None }
    }

    /// The value of the first cookie named `name`.
    pub fn cookie(&self, name: &String) -> (r: Option<String>)
        ensures
            r == first_value(self.cookies@, name@),
    {
        find_first(&self.cookies, name)
    }

    /// The value of the first header named `name`, whatever the case of
    /// the ASCII letters in either name.
    pub fn header(&self, name: &String) -> (r: Option<String>)
        ensures
            r == first_header(self.headers@, name@),
    {
        let mut i: usize = 0;
        while i < self.headers.len()
            invariant
                i <= self.headers@.len(),
                first_header(self.headers@, name@) == first_header_from(
                    self.headers@,
                    name@,
                    i as int,
                ),
            decreases self.headers@.len() - i,
        {
            if eq_ignoring_ascii_case(self.headers[i].0.as_str(), name.as_str()) {
                return Some(self.headers[i].1.clone());
            }
            i = i + 1;
        }
        None
    }

    /// The value of the first query parameter named `name`.
    pub fn query_param(&self, name: &String) -> (r: Option<String>)
        ensures
            r == first_value(self.query@, name@),
    {
        find_first(&self.query, name)
    }

    /// The value of the first body field named `name`; `None` also where the
    /// body could not be parsed.
    pub fn body_field(&self, name: &String) -> (r: Option<String>)
        ensures
            r == match self.body {
                Some(fields) => first_value(fields@, name@),
                None => None,
            },
    {
        match &self.body {
            Some(fields) => find_first(fields, name),
            None => None,
        }
    }
}

} // verus!
