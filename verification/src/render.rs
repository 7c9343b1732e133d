//! Diagnostic rendering: structured multi-line dumps of a Web Request
//! and a Web Response, used for debugging and logging, never on a hot
//! path. A response dump reports the body's size, never its content.

use vstd::prelude::*;

use crate::body::{BodySize, MessageBody};
use crate::http::{Method, Version};
use crate::params::PathParams;
use crate::request::RequestHead;
use crate::service::{WebRequest, WebResponse};

verus! {

/// The decimal digit character for one digit value.
pub open spec fn dec_digit(d: int) -> char {
    if d == 0 {
        '0'
    } else if d == 1 {
        '1'
    } else if d == 2 {
        '2'
    } else if d == 3 {
        '3'
    } else if d == 4 {
        '4'
    } else if d == 5 {
        '5'
    } else if d == 6 {
        '6'
    } else if d == 7 {
        '7'
    } else if d == 8 {
        '8'
    } else {
        '9'
    }
}

/// Decimal notation of a number, most significant digit first.
pub open spec fn dec_of(n: nat) -> Seq<char>
    decreases n,
{
    if n < 10 {
        seq![dec_digit(n as int)]
    } else {
        dec_of(n / 10) + seq![dec_digit((n % 10) as int)]
    }
}

/// One decimal digit as text.
fn digit_str(d: u8) -> (r: &'static str)
    requires
        d < 10,
    ensures
        r@ == seq![dec_digit(d as int)],
{
    let r: &'static str = match d {
        0 => "0",
        1 => "1",
        2 => "2",
        3 => "3",
        4 => "4",
        5 => "5",
        6 => "6",
        7 => "7",
        8 => "8",
        _ => "9",
    };
    proof {
        reveal_strlit("0");
        reveal_strlit("1");
        reveal_strlit("2");
        reveal_strlit("3");
        reveal_strlit("4");
        reveal_strlit("5");
        reveal_strlit("6");
        reveal_strlit("7");
        reveal_strlit("8");
        reveal_strlit("9");
        assert(r@ =~= seq![dec_digit(d as int)]);
    }
    r
}

/// Decimal notation of a number.
pub fn u64_dec(n: u64) -> (r: String)
    ensures
        r@ == dec_of(n as nat),
    decreases n,
{
    if n < 10 {
        String::from_str(digit_str(n as u8))
    } else {
        let prefix = u64_dec(n / 10);
        let r = prefix.concat(digit_str((n % 10) as u8));
        proof {
            assert(r@ =~= dec_of(n as nat));
        }
        r
    }
}

/// The display text of a request method.
pub open spec fn method_str_spec(m: Method) -> Seq<char> {
    match m {
        Method::Get => "GET"@,
        Method::Head => "HEAD"@,
        Method::Post => "POST"@,
        Method::Put => "PUT"@,
        Method::Delete => "DELETE"@,
        Method::Connect => "CONNECT"@,
        Method::Options => "OPTIONS"@,
        Method::Trace => "TRACE"@,
        Method::Patch => "PATCH"@,
    }
}

/// The display text of a request method.
pub fn method_str(m: &Method) -> (r: &'static str)
    ensures
        r@ == method_str_spec(*m),
{
    match m {
        Method::Get => "GET",
        Method::Head => "HEAD",
        Method::Post => "POST",
        Method::Put => "PUT",
        Method::Delete => "DELETE",
        Method::Connect => "CONNECT",
        Method::Options => "OPTIONS",
        Method::Trace => "TRACE",
        Method::Patch => "PATCH",
    }
}

/// The display text of a protocol version.
pub open spec fn version_str_spec(v: Version) -> Seq<char> {
    match v {
        Version::Http10 => "HTTP/1.0"@,
        Version::Http11 => "HTTP/1.1"@,
        Version::Http2 => "HTTP/2.0"@,
        Version::Http3 => "HTTP/3.0"@,
    }
}

/// The display text of a protocol version.
pub fn version_str(v: &Version) -> (r: &'static str)
    ensures
        r@ == version_str_spec(*v),
{
    match v {
        Version::Http10 => "HTTP/1.0",
        Version::Http11 => "HTTP/1.1",
        Version::Http2 => "HTTP/2.0",
        Version::Http3 => "HTTP/3.0",
    }
}

/// The header block of a dump: one indented `name: value` line per
/// header, in insertion order.
pub open spec fn headers_dump_spec(hs: Seq<(Seq<char>, Seq<char>)>) -> Seq<char>
    decreases hs.len(),
{
    if hs.len() == 0 {
        Seq::empty()
    } else {
        headers_dump_spec(hs.drop_last()) + "    "@ + hs.last().0 + ": "@ + hs.last().1 + "\n"@
    }
}

/// Render the header block.
fn headers_dump(hs: &crate::http::HeaderMap) -> (r: String)
    ensures
        r@ == headers_dump_spec(hs.view()),
{
    let mut out: String = String::new();
    let count: usize = hs.len();
    let mut i: usize = 0;
    while i < count
        invariant
            0 <= i <= count,
            count == hs.view().len(),
            out@ == headers_dump_spec(hs.view().subrange(0, i as int)),
        decreases count - i,
    {
        let ghost pre = hs.view().subrange(0, i as int);
        let ghost pre1 = hs.view().subrange(0, i + 1 as int);
        let item = hs.item(i);
        out.append("    ");
        out.append(item.0.as_str());
        out.append(": ");
        out.append(item.1.as_str());
        out.append("\n");
        proof {
            assert(pre1.drop_last() =~= pre);
            assert(pre1.last() == hs.view()[i as int]);
            assert(out@ =~= headers_dump_spec(pre1));
        }
        i += 1;
    }
    proof {
        assert(hs.view().subrange(0, hs.view().len() as int) =~= hs.view());
    }
    out
}

/// The parameter list of a dump: `name=value` pairs separated by one
/// space, in capture order.
pub open spec fn params_dump_spec(ps: Seq<(Seq<char>, Seq<char>)>) -> Seq<char>
    decreases ps.len(),
{
    if ps.len() == 0 {
        Seq::empty()
    } else {
        params_dump_spec(ps.drop_last()) + ps.last().0 + "="@ + ps.last().1 + " "@
    }
}

/// Render the parameter list.
fn params_dump(ps: &PathParams) -> (r: String)
    ensures
        r@ == params_dump_spec(ps.view()),
{
    let mut out: String = String::new();
    let count: usize = ps.len();
    let mut i: usize = 0;
    while i < count
        invariant
            0 <= i <= count,
            count == ps.view().len(),
            out@ == params_dump_spec(ps.view().subrange(0, i as int)),
        decreases count - i,
    {
        let ghost pre = ps.view().subrange(0, i as int);
        let ghost pre1 = ps.view().subrange(0, i + 1 as int);
        let item = &ps.items[i];
        out.append(item.0.as_str());
        out.append("=");
        out.append(item.1.as_str());
        out.append(" ");
        proof {
            assert(pre1.drop_last() =~= pre);
            assert(pre1.last() == ps.view()[i as int]);
            assert(out@ =~= params_dump_spec(pre1));
        }
        i += 1;
    }
    proof {
        assert(ps.view().subrange(0, ps.view().len() as int) =~= ps.view());
    }
    out
}

/// The whole dump of a request: version, method and path on the first
/// line, then the non-empty query string, then the non-empty
/// parameter set, then the full header block.
pub open spec fn request_dump_spec(head: RequestHead, params: PathParams) -> Seq<char> {
    "\nWebRequest "@ + version_str_spec(head.version) + " "@ + method_str_spec(head.method) + ":"@
        + head.uri.path@ + "\n"@ + (match head.uri.query {
        Some(q) => if q@.len() > 0 {
            "  query: ?"@ + q@ + "\n"@
        } else {
            Seq::empty()
        },
        Option::None => Seq::empty(),
    }) + (if params.view().len() > 0 {
        "  params: "@ + params_dump_spec(params.view()) + "\n"@
    } else {
        Seq::empty()
    }) + "  headers:\n"@ + headers_dump_spec(head.headers.view())
}

impl WebRequest {
    /// Structured multi-line dump of the request, for debugging and
    /// logging.
    pub fn render(&self) -> (r: String)
        ensures
            r@ == request_dump_spec(self.inner().spec_head(), self.inner().spec_params()),
    {
        let head = self.head();
        let mut out: String = String::from_str("\nWebRequest ");
        out.append(version_str(&head.version));
        out.append(" ");
        out.append(method_str(&head.method));
        out.append(":");
        out.append(head.uri.path.as_str());
        out.append("\n");
        match &head.uri.query {
            Some(q) => {
                if q.as_str().unicode_len() > 0 {
                    out.append("  query: ?");
                    out.append(q.as_str());
                    out.append("\n");
                }
            },
            Option::None => {},
        }
        let params = self.match_info();
        if params.len() > 0 {
            out.append("  params: ");
            let rendered = params_dump(params);
            out.append(rendered.as_str());
            out.append("\n");
        }
        out.append("  headers:\n");
        let rendered = headers_dump(&head.headers);
        out.append(rendered.as_str());
        proof {
            assert(out@ =~= request_dump_spec(self.inner().spec_head(), self.inner().spec_params()));
        }
        out
    }
}

/// The display text of a reported body size.
pub open spec fn body_size_dump_spec(s: BodySize) -> Seq<char> {
    match s {
        BodySize::Absent => "absent"@,
        BodySize::Zero => "0"@,
        BodySize::Sized(n) => dec_of(n as nat),
    }
}

/// The whole dump of a response: version, status and reason on the
/// first line, then the full header block, then the body's size.
pub open spec fn response_dump_spec<B: MessageBody>(resp: WebResponse<B>) -> Seq<char> {
    "\nWebResponse "@ + version_str_spec(resp.response.head.version) + " "@ + dec_of(
        resp.response.head.status.code as nat,
    ) + " "@ + (match resp.response.head.reason {
        Some(s) => s@,
        Option::None => Seq::empty(),
    }) + "\n"@ + "  headers:\n"@ + headers_dump_spec(resp.response.head.headers.view())
        + "  body: "@ + body_size_dump_spec(resp.response.body.size_spec()) + "\n"@
}

impl<B: MessageBody> WebResponse<B> {
    /// Structured multi-line dump of the response, for debugging and
    /// logging; reports the body's size, never its content.
    pub fn render(&self) -> (r: String)
        ensures
            r@ == response_dump_spec(*self),
    {
        let mut out: String = String::from_str("\nWebResponse ");
        out.append(version_str(&self.response.head.version));
        out.append(" ");
        let status = u64_dec(self.response.head.status.code as u64);
        out.append(status.as_str());
        out.append(" ");
        match &self.response.head.reason {
            Some(s) => out.append(s.as_str()),
            Option::None => {},
        }
        out.append("\n");
        out.append("  headers:\n");
        let rendered = headers_dump(&self.response.head.headers);
        out.append(rendered.as_str());
        out.append("  body: ");
        let size = self.response.body.size();
        match size {
            BodySize::Absent => out.append("absent"),
            BodySize::Zero => out.append("0"),
            BodySize::Sized(n) => {
                let rendered = u64_dec(n);
                out.append(rendered.as_str());
            },
        }
        out.append("\n");
        proof {
            assert(out@ =~= response_dump_spec(*self));
        }
        out
    }
}

} // verus!
