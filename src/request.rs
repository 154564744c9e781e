//! The read-only view of one request that every extractor of a chain reads.
use vstd::prelude::*;

verus! {

/// What a request view holds, as mathematical values.
pub struct RequestModel {
    pub method: Seq<char>,
    pub path: Seq<char>,
    pub headers: Seq<(Seq<char>, Seq<char>)>,
    pub body: Seq<u8>,
}

/// A request's metadata (method, path, headers) and its fully buffered body.
/// Its fields are private: once built, nothing changes it.
pub struct RequestView {
    method: String,
    path: String,
    headers: Vec<(String, String)>,
    body: Vec<u8>,
}

impl View for RequestView {
    type V = RequestModel;

    closed spec fn view(&self) -> RequestModel {
        RequestModel {
            method: self.method@,
            path: self.path@,
            headers: self.headers@.map_values(|h: (String, String)| (h.0@, h.1@)),
            body: self.body@,
        }
    }
}

impl RequestView {
    pub fn new(method: String, path: String, headers: Vec<(String, String)>, body: Vec<u8>) -> (r:
        RequestView)
        ensures
            r@.method == method@,
            r@.path == path@,
            r@.headers == headers@.map_values(|h: (String, String)| (h.0@, h.1@)),
            r@.body == body@,
    {
        RequestView { method, path, headers, body }
    }

    pub fn method(&self) -> (r: &str)
        ensures
            r@ == self@.method,
    {
        self.method.as_str()
    }

    pub fn path(&self) -> (r: &str)
        ensures
            r@ == self@.path,
    {
        self.path.as_str()
    }

    pub fn headers(&self) -> (r: &Vec<(String, String)>)
        ensures
            r@.map_values(|h: (String, String)| (h.0@, h.1@)) == self@.headers,
    {
        &self.headers
    }

    pub fn body(&self) -> (r: &Vec<u8>)
        ensures
            r@ == self@.body,
    {
        &self.body
    }
}

} // verus!
