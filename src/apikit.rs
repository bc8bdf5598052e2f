//! A generic HTTP request description, built step by step.
use vstd::prelude::*;
use crate::text::text_eq;

verus! {

#[derive(Clone, Copy, Debug, PartialEq, Eq, Structural)]
pub enum HttpMethod {
    GET,
    POST,
}

/// An HTTP request: its URL, headers with distinct names, optional body and
/// method.
#[derive(Clone, Debug)]
pub struct ApiRequest {
    pub url: String,
    pub headers: Vec<(String, String)>,
    pub body: Option<String>,
    pub method: HttpMethod,
}

pub open spec fn header_views(h: Seq<(String, String)>) -> Seq<(Seq<char>, Seq<char>)> {
    h.map_values(|p: (String, String)| (p.0@, p.1@))
}

/// No two headers share a name.
pub open spec fn distinct_names(h: Seq<(Seq<char>, Seq<char>)>) -> bool {
    forall|i: int, j: int| 0 <= i < j < h.len() ==> h[i].0 != h[j].0
}

/// `h` with header `k` set to `v`: the value of an existing header of that
/// name is replaced in place; otherwise the header is added at the end.
pub open spec fn with_header(h: Seq<(Seq<char>, Seq<char>)>, k: Seq<char>, v: Seq<char>) -> Seq<
    (Seq<char>, Seq<char>),
> {
    if exists|i: int| 0 <= i < h.len() && h[i].0 == k {
        h.update(choose|i: int| 0 <= i < h.len() && h[i].0 == k, (k, v))
    } else {
        h.push((k, v))
    }
}

impl ApiRequest {
    /// A POST request to `url` with no headers and no body.
    pub fn new(url: &str) -> (r: Self)
        ensures
            r.url@ == url@,
            r.headers@.len() == 0,
            r.body is None,
            r.method == HttpMethod::POST,
    {
        ApiRequest { url: String::from_str(url), headers: Vec::new(), body: None, method: HttpMethod::POST }
    }

    /// The request with header `key` set to `value`.
    pub fn set_header(self, key: &str, value: &str) -> (r: Self)
        requires
            distinct_names(header_views(self.headers@)),
        ensures
            header_views(r.headers@) == with_header(header_views(self.headers@), key@, value@),
            distinct_names(header_views(r.headers@)),
            r.url == self.url,
            r.body == self.body,
            r.method == self.method,
    {
        let ghost h = header_views(self.headers@);
        let mut req = self;
        let mut i: usize = 0;
        while i < req.headers.len()
            invariant
                i <= req.headers@.len(),
                h == header_views(req.headers@),
                h == header_views(self.headers@),
                req.url == self.url,
                req.body == self.body,
                req.method == self.method,
                distinct_names(h),
                forall|j: int| 0 <= j < i ==> h[j].0 != key@,
            decreases req.headers@.len() - i,
        {
            if text_eq(req.headers[i].0.as_str(), key) {
                proof {
                    assert(h[i as int].0 == req.headers@[i as int].0@);
                    assert(h[i as int].0 == key@);
                    assert(exists|j: int| 0 <= j < h.len() && h[j].0 == key@);
                }
                let entry = (String::from_str(key), String::from_str(value));
                req.headers.set(i, entry);
                proof {
                    let c = choose|j: int| 0 <= j < h.len() && h[j].0 == key@;
                    assert(c == i) by {
                        if c != i {
                            if c < i {
                                assert(h[c].0 != key@);
                            } else {
                                assert(h[i as int].0 != h[c].0);
                            }
                        }
                    }
                    assert(header_views(req.headers@) =~= h.update(i as int, (key@, value@)));
                    assert(with_header(h, key@, value@) == h.update(c, (key@, value@)));
                }
                return req;
            }
            i = i + 1;
        }
        req.headers.push((String::from_str(key), String::from_str(value)));
        proof {
            assert(header_views(req.headers@) =~= h.push((key@, value@)));
        }
        req
    }

    /// The request with `body` as its body.
    pub fn set_body(self, body: &str) -> (r: Self)
        ensures
            r.body matches Some(b) && b@ == body@,
            r.url == self.url,
            r.headers == self.headers,
            r.method == self.method,
    {
        let mut req = self;
        req.body = Some(String::from_str(body));
        req
    }

    /// The request with `method` as its method.
    pub fn set_method(self, method: HttpMethod) -> (r: Self)
        ensures
            r.method == method,
            r.url == self.url,
            r.headers == self.headers,
            r.body == self.body,
    {
        let mut req = self;
        req.method = method;
        req
    }
}

} // verus!
