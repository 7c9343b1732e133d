//! Basic HTTP message vocabulary: request method, protocol version,
//! status code, request target and header collection.

use vstd::prelude::*;

verus! {

/// HTTP request method.
#[derive(Clone, Copy, PartialEq, Eq, Structural, Debug)]
pub enum Method {
    Get,
    Head,
    Post,
    Put,
    Delete,
    Connect,
    Options,
    Trace,
    Patch,
}

/// HTTP protocol version.
#[derive(Clone, Copy, PartialEq, Eq, Structural, Debug)]
pub enum Version {
    Http10,
    Http11,
    Http2,
    Http3,
}

/// HTTP response status code, always in the range `100..=999`.
#[derive(Clone, Copy, PartialEq, Eq, Structural, Debug)]
pub struct StatusCode {
    pub code: u16,
}

impl StatusCode {
    /// A status code is well formed when it has exactly three decimal digits.
    pub open spec fn wf(self) -> bool {
        100 <= self.code <= 999
    }

    /// Build a status code from its numeric value.
    pub fn new(code: u16) -> (r: StatusCode)
        requires
            100 <= code <= 999,
        ensures
            r.code == code,
            r.wf(),
    {
        StatusCode { code }
    }

    /// The numeric value of the status code.
    pub fn as_u16(&self) -> (r: u16)
        ensures
            r == self.code,
    {
        self.code
    }
}

/// Request target: the path component and the optional query component.
#[derive(Debug)]
pub struct Uri {
    pub path: String,
    pub query: Option<String>,
}

impl Uri {
    /// The path is kept short enough, in encoded bytes, for the
    /// pattern matcher's 16-bit offsets.
    pub open spec fn wf(self) -> bool {
        vstd::utf8::encode_utf8(self.path@).len() <= 65535
    }

    /// Build a request target from a path and an optional query string.
    pub fn new(path: String, query: Option<String>) -> (r: Uri)
        requires
            vstd::utf8::encode_utf8(path@).len() <= 65535,
        ensures
            r.path == path,
            r.query == query,
            r.wf(),
    {
        Uri { path, query }
    }

    /// The path component.
    pub fn path(&self) -> (r: &str)
        ensures
            r@ == self.path@,
    {
        self.path.as_str()
    }

    /// The target as character sequences: path and optional query.
    pub open spec fn view(self) -> (Seq<char>, Option<Seq<char>>) {
        (
            self.path@,
            match self.query {
                Some(q) => Some(q@),
                Option::None => Option::None,
            },
        )
    }

    /// Copy the target.
    pub fn duplicate(&self) -> (r: Uri)
        ensures
            r.view() == self.view(),
    {
        Uri {
            path: self.path.clone(),
            query: match &self.query {
                Some(q) => Some(q.clone()),
                Option::None => Option::None,
            },
        }
    }
}

/// Ordered collection of header name/value pairs.
///
/// Names are compared exactly; callers are expected to normalise case
/// before insertion, as the transport layer does.
#[derive(Debug)]
pub struct HeaderMap {
    pub items: Vec<(String, String)>,
}

impl HeaderMap {
    /// The headers as a sequence of (name, value) character sequences,
    /// in insertion order.
    pub open spec fn view(self) -> Seq<(Seq<char>, Seq<char>)> {
        self.items@.map_values(|p: (String, String)| (p.0@, p.1@))
    }

    /// Whether some header with the given name is present.
    pub open spec fn spec_contains(self, name: Seq<char>) -> bool {
        exists|i: int| 0 <= i < self.view().len() && self.view()[i].0 == name
    }

    /// Create an empty header collection.
    pub fn new() -> (r: HeaderMap)
        ensures
            r.view() == Seq::<(Seq<char>, Seq<char>)>::empty(),
    {
        let r = HeaderMap { items: Vec::new() };
        proof {
            assert(r.view() =~= Seq::<(Seq<char>, Seq<char>)>::empty());
        }
        r
    }

    /// Number of headers.
    pub fn len(&self) -> (r: usize)
        ensures
            r == self.view().len(),
    {
        self.items.len()
    }

    /// Whether no header is present.
    pub fn is_empty(&self) -> (r: bool)
        ensures
            r == (self.view().len() == 0),
    {
        self.items.len() == 0
    }

    /// Append a header, keeping any earlier header of the same name.
    pub fn append(&mut self, name: String, value: String)
        ensures
            final(self).view() == old(self).view().push((name@, value@)),
    {
        self.items.push((name, value));
        proof {
            assert(final(self).view() =~= old(self).view().push((name@, value@)));
        }
    }

    /// The first value stored under the given name, if any.
    pub fn get(&self, name: &str) -> (r: Option<&String>)
        ensures
            match r {
                Some(v) => exists|i: int|
                    0 <= i < self.view().len() && self.view()[i].0 == name@ && self.view()[i].1
                        == v@ && (forall|j: int| 0 <= j < i ==> self.view()[j].0 != name@),
                None => !self.spec_contains(name@),
            },
    {
        let wanted: String = name.to_owned();
        let mut i: usize = 0;
        while i < self.items.len()
            invariant
                0 <= i <= self.view().len(),
                wanted@ == name@,
                forall|j: int| 0 <= j < i ==> self.view()[j].0 != name@,
            decreases self.items.len() - i,
        {
            if self.items[i].0 == wanted {
                proof {
                    assert(self.view()[i as int].0 == name@ && self.view()[i as int].1
                        == self.items@[i as int].1@);
                }
                return Some(&self.items[i].1);
            }
            i += 1;
        }
        None
    }

    /// Whether some header with the given name is present.
    pub fn contains(&self, name: &str) -> (r: bool)
        ensures
            r == self.spec_contains(name@),
    {
        match self.get(name) {
            Some(_) => true,
            Option::None => false,
        }
    }

    /// Copy the header collection.
    pub fn duplicate(&self) -> (r: HeaderMap)
        ensures
            r.view() == self.view(),
    {
        HeaderMap { items: crate::dup::copy_string_pairs(&self.items) }
    }

    /// The pair stored at the given position, in insertion order.
    pub fn item(&self, i: usize) -> (r: &(String, String))
        requires
            i < self.view().len(),
        ensures
            (r.0@, r.1@) == self.view()[i as int],
    {
        &self.items[i]
    }
}

} // verus!
