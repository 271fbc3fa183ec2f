//! HTTP request methods, held by name.
use vstd::prelude::*;
use vstd::string::StringExecFns;

verus! {

/// An HTTP method. Methods are compared by their exact, case-sensitive name,
/// so extension methods are represented as well as the standard ones.
#[derive(Clone, Debug)]
pub struct Method {
    name: String,
}

impl View for Method {
    type V = Seq<char>;

    closed spec fn view(&self) -> Seq<char> {
        self.name@
    }
}

impl Method {
    /// A method with the given name, such as `"POST"`.
    pub fn new(name: &str) -> (r: Method)
        ensures
            r@ == name@,
    {
        Method { name: String::from_str(name) }
    }

    pub fn get() -> (r: Method)
        ensures
            r@ == "GET"@,
    {
        Method::new("GET")
    }

    pub fn head() -> (r: Method)
        ensures
            r@ == "HEAD"@,
    {
        Method::new("HEAD")
    }

    pub fn options() -> (r: Method)
        ensures
            r@ == "OPTIONS"@,
    {
        Method::new("OPTIONS")
    }

    pub fn post() -> (r: Method)
        ensures
            r@ == "POST"@,
    {
        Method::new("POST")
    }

    pub fn put() -> (r: Method)
        ensures
            r@ == "PUT"@,
    {
        Method::new("PUT")
    }

    pub fn patch() -> (r: Method)
        ensures
            r@ == "PATCH"@,
    {
        Method::new("PATCH")
    }

    pub fn delete() -> (r: Method)
        ensures
            r@ == "DELETE"@,
    {
        Method::new("DELETE")
    }

    /// The method's name.
    pub fn as_str(&self) -> (r: &str)
        ensures
            r@ == self@,
    {
        self.name.as_str()
    }

    /// Whether both methods have the same name.
    pub fn same_as(&self, other: &Method) -> (r: bool)
        ensures
            r == (self@ == other@),
    {
        self.name == other.name
    }
}

} // verus!
