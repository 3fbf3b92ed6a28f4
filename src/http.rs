use vstd::prelude::*;
use vstd::string::StringSliceAdditionalSpecFns;
use vstd::utf8::encode_utf8;

verus! {

/// How one request line is answered.
#[derive(Debug, Clone, Copy, PartialEq, Eq)]
pub struct Route {
    pub status_line: &'static str,
    pub filename: &'static str,
    /// The request asks for a deliberately slow answer.
    pub slow: bool,
}

pub open spec fn root_request() -> Seq<char> {
    "GET / HTTP/1.1"@
}

pub open spec fn sleep_request() -> Seq<char> {
    "GET /sleep HTTP/1.1"@
}

/// The status line, page and pace that answer `line`: the two known request
/// lines get the greeting page, anything else the not-found page.
pub open spec fn route_spec(line: Seq<char>) -> (Seq<char>, Seq<char>, bool) {
    if line == root_request() {
        ("HTTP/1.1 200 OK"@, "html/hello.html"@, false)
    } else if line == sleep_request() {
        ("HTTP/1.1 200 OK"@, "html/hello.html"@, true)
    } else {
        ("HTTP/1.1 404 NOT FOUND"@, "html/404.html"@, false)
    }
}

/// Chooses the answer to a request line by exact match.
pub fn route(request_line: &str) -> (r: Route)
    ensures
        (r.status_line@, r.filename@, r.slow) == route_spec(request_line@),
{
    proof {
        reveal_strlit("GET / HTTP/1.1");
        reveal_strlit("GET /sleep HTTP/1.1");
        reveal_strlit("HTTP/1.1 200 OK");
        reveal_strlit("HTTP/1.1 404 NOT FOUND");
        reveal_strlit("html/hello.html");
        reveal_strlit("html/404.html");
    }
    let line = request_line.to_owned();
    if line == "GET / HTTP/1.1".to_owned() {
        Route { status_line: "HTTP/1.1 200 OK", filename: "html/hello.html", slow: false }
    } else if line == "GET /sleep HTTP/1.1".to_owned() {
        Route { status_line: "HTTP/1.1 200 OK", filename: "html/hello.html", slow: true }
    } else {
        Route { status_line: "HTTP/1.1 404 NOT FOUND", filename: "html/404.html", slow: false }
    }
}

/// The decimal digits of `n` as ASCII bytes, most significant first.
pub open spec fn decimal(n: nat) -> Seq<u8>
    decreases n,
{
    if n < 10 {
        seq![(48 + n) as u8]
    } else {
        decimal(n / 10).push((48 + n % 10) as u8)
    }
}

/// The bytes of an answer: the status line, a `Content-Length` header that
/// gives the body's length in bytes, a blank line, then the body.
pub open spec fn response_spec(status_line: Seq<u8>, contents: Seq<u8>) -> Seq<u8> {
    status_line + encode_utf8("\r\nContent-Length: "@) + decimal(contents.len()) + encode_utf8(
        "\r\n\r\n"@,
    ) + contents
}

fn push_all(out: &mut Vec<u8>, b: &[u8])
    ensures
        final(out)@ == old(out)@ + b@,
{
    let mut i: usize = 0;
    while i < b.len()
        invariant
            i <= b@.len(),
            out@ == old(out)@ + b@.subrange(0, i as int),
        decreases b@.len() - i,
    {
        out.push(b[i]);
        i = i + 1;
        assert(b@.subrange(0, i as int) =~= b@.subrange(0, i - 1 as int).push(b@[i - 1]));
    }
    assert(b@.subrange(0, b@.len() as int) =~= b@);
}

fn push_decimal(out: &mut Vec<u8>, n: usize)
    ensures
        final(out)@ == old(out)@ + decimal(n as nat),
    decreases n,
{
    if n < 10 {
        out.push(48 + n as u8);
        assert(old(out)@ + decimal(n as nat) =~= old(out)@.push((48 + n) as u8));
    } else {
        push_decimal(out, n / 10);
        out.push(48 + (n % 10) as u8);
        assert(old(out)@ + decimal(n as nat) =~= (old(out)@ + decimal((n / 10) as nat)).push(
            (48 + n % 10) as u8,
        ));
    }
}

/// Formats the answer with `status_line` and body `contents`.
pub fn response(status_line: &str, contents: &str) -> (r: Vec<u8>)
    ensures
        r@ == response_spec(status_line.spec_bytes(), contents.spec_bytes()),
{
    let body = contents.as_bytes();
    let mut out: Vec<u8> = Vec::new();
    push_all(&mut out, status_line.as_bytes());
    push_all(&mut out, "\r\nContent-Length: ".as_bytes());
    push_decimal(&mut out, body.len());
    push_all(&mut out, "\r\n\r\n".as_bytes());
    push_all(&mut out, body);
    out
}

} // verus!
