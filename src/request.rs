use vstd::prelude::*;

verus! {

/// How one connection is served, chosen from its request line.
#[derive(PartialEq, Eq, Structural, Clone, Copy, Debug)]
pub enum Route {
    /// `GET /`: the index page, at once.
    Index,
    /// `GET /sleep`: the index page, after a fixed delay.
    Slow,
    /// Anything else: the not-found page.
    NotFound,
}

/// Seconds that a `GET /sleep` request waits before it is answered.
pub const SLOW_DELAY_SECS: u64 = 5;

/// The bytes of a text made of ASCII characters.
pub open spec fn ascii_bytes(s: Seq<char>) -> Seq<u8> {
    Seq::new(s.len(), |i: int| s[i] as u8)
}

pub open spec fn starts_with(buf: Seq<u8>, p: Seq<u8>) -> bool {
    p.len() <= buf.len() && buf.subrange(0, p.len() as int) == p
}

pub open spec fn index_line() -> Seq<u8> {
    ascii_bytes("GET / HTTP/1.1\r\n"@)
}

pub open spec fn slow_line() -> Seq<u8> {
    ascii_bytes("GET /sleep HTTP/1.1\r\n"@)
}

/// The route of a request whose first bytes are `buf`.
pub open spec fn route_of(buf: Seq<u8>) -> Route {
    if starts_with(buf, index_line()) {
        Route::Index
    } else if starts_with(buf, slow_line()) {
        Route::Slow
    } else {
        Route::NotFound
    }
}

fn has_prefix(buf: &[u8], p: &[u8]) -> (r: bool)
    ensures
        r == starts_with(buf@, p@),
{
    if p.len() > buf.len() {
        return false;
    }
    let mut i: usize = 0;
    while i < p.len()
        invariant
            p@.len() <= buf@.len(),
            i <= p@.len(),
            forall|k: int| 0 <= k < i ==> buf@[k] == p@[k],
        decreases p@.len() - i,
    {
        if buf[i] != p[i] {
            assert(buf@.subrange(0, p@.len() as int)[i as int] != p@[i as int]);
            return false;
        }
        i = i + 1;
    }
    assert(buf@.subrange(0, p@.len() as int) =~= p@);
    true
}

/// Picks the route for a request from the bytes read off the connection.
pub fn route_request(buf: &[u8]) -> (r: Route)
    ensures
        r == route_of(buf@),
{
    let index = "GET / HTTP/1.1\r\n";
    let slow = "GET /sleep HTTP/1.1\r\n";
    proof {
        reveal_strlit("GET / HTTP/1.1\r\n");
        reveal_strlit("GET /sleep HTTP/1.1\r\n");
        vstd::string::is_ascii_spec_bytes(index);
        vstd::string::is_ascii_spec_bytes(slow);
    }
    if has_prefix(buf, index.as_bytes()) {
        Route::Index
    } else if has_prefix(buf, slow.as_bytes()) {
        Route::Slow
    } else {
        Route::NotFound
    }
}

impl Route {
    /// The status line that answers a request on this route.
    pub fn status_line(&self) -> (r: &'static str)
        ensures
            r@ == (if *self == Route::NotFound {
                "HTTP/1.1 404 NOT FOUND"@
            } else {
                "HTTP/1.1 200 OK"@
            }),
    {
        match self {
            Route::NotFound => "HTTP/1.1 404 NOT FOUND",
            _ => "HTTP/1.1 200 OK",
        }
    }

    /// The name of the document served on this route.
    pub fn file_name(&self) -> (r: &'static str)
        ensures
            r@ == (if *self == Route::NotFound {
                "404.html"@
            } else {
                "hello.html"@
            }),
    {
        match self {
            Route::NotFound => "404.html",
            _ => "hello.html",
        }
    }

    /// Seconds to wait before answering.
    pub fn delay_secs(&self) -> (r: u64)
        ensures
            r == (if *self == Route::Slow {
                SLOW_DELAY_SECS
            } else {
                0
            }),
    {
        match self {
            Route::Slow => SLOW_DELAY_SECS,
            _ => 0,
        }
    }
}

/// The decimal digits of `n`, most significant first, as ASCII bytes.
pub open spec fn decimal(n: nat) -> Seq<u8>
    decreases n,
{
    if n < 10 {
        seq![(48 + n) as u8]
    } else {
        decimal(n / 10).push((48 + n % 10) as u8)
    }
}

pub open spec fn header_sep() -> Seq<u8> {
    ascii_bytes("\r\nContent-Length: "@)
}

pub open spec fn blank_line() -> Seq<u8> {
    ascii_bytes("\r\n\r\n"@)
}

/// A response: the status line, a `Content-Length` header giving the body's
/// size in bytes, an empty line, then the body.
pub open spec fn response(status: Seq<u8>, body: Seq<u8>) -> Seq<u8> {
    status + header_sep() + decimal(body.len()) + blank_line() + body
}

fn append(out: &mut Vec<u8>, b: &[u8])
    ensures
        final(out)@ == old(out)@ + b@,
{
    let mut i: usize = 0;
    while i < b.len()
        invariant
            i <= b@.len(),
            out@ == old(out)@ + b@.subrange(0, i as int),
        decreases b@.len() - i,
    {
        out.push(b[i]);
        i = i + 1;
        assert(b@.subrange(0, i as int) =~= b@.subrange(0, i - 1).push(b@[i - 1]));
    }
    assert(b@.subrange(0, b@.len() as int) =~= b@);
}

/// The decimal digits of `n`.
pub fn decimal_bytes(n: usize) -> (r: Vec<u8>)
    ensures
        r@ == decimal(n as nat),
    decreases n,
{
    if n < 10 {
        let d: u8 = n as u8;
        let mut v: Vec<u8> = Vec::new();
        v.push(48 + d);
        proof {
            assert(v@ =~= decimal(n as nat));
        }
        v
    } else {
        let mut v = decimal_bytes(n / 10);
        let d: u8 = (n % 10) as u8;
        v.push(48 + d);
        v
    }
}

/// Frames a response to send back on the connection.
pub fn format_response(status: &[u8], body: &[u8]) -> (r: Vec<u8>)
    ensures
        r@ == response(status@, body@),
{
    let sep = "\r\nContent-Length: ";
    let blank = "\r\n\r\n";
    proof {
        reveal_strlit("\r\nContent-Length: ");
        reveal_strlit("\r\n\r\n");
        vstd::string::is_ascii_spec_bytes(sep);
        vstd::string::is_ascii_spec_bytes(blank);
    }
    let mut out: Vec<u8> = Vec::new();
    append(&mut out, status);
    append(&mut out, sep.as_bytes());
    let len = decimal_bytes(body.len());
    append(&mut out, len.as_slice());
    append(&mut out, blank.as_bytes());
    append(&mut out, body);
    proof {
        assert(out@ =~= response(status@, body@));
    }
    out
}

} // verus!
