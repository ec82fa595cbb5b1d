//! Request routing and response framing for the file server that feeds the
//! pool: one request line in, one of two pages out.

use vstd::prelude::*;
use vstd::string::*;

verus! {

/// The page that answers a request.
#[derive(Clone, Copy, PartialEq, Eq, Structural, Debug)]
pub enum Route {
    /// The index page, for a `GET` of the root.
    Index,
    /// The error page, for everything else.
    NotFound,
}

/// The one request line that is answered with the index page.
pub open spec fn index_request() -> Seq<char> {
    "GET / HTTP/1.1"@
}

/// The decimal digit `d` as a character.
pub open spec fn digit(d: nat) -> char
    recommends
        d < 10,
{
    if d == 0 {
        '0'
    } else if d == 1 {
        '1'
    } else if d == 2 {
        '2'
    } else if d == 3 {
        '3'
    } else if d == 4 {
        '4'
    } else if d == 5 {
        '5'
    } else if d == 6 {
        '6'
    } else if d == 7 {
        '7'
    } else if d == 8 {
        '8'
    } else {
        '9'
    }
}

/// The number `n` written in decimal, without leading zeros.
pub open spec fn decimal(n: nat) -> Seq<char>
    decreases n,
{
    if n < 10 {
        seq![digit(n)]
    } else {
        decimal(n / 10).push(digit(n % 10))
    }
}

/// A response: the status line, the length of the body in bytes as the only
/// header, an empty line, and the body.
pub open spec fn response_text(status_line: Seq<char>, length: nat, body: Seq<char>) -> Seq<char> {
    status_line + "\r\nContent-Length: "@ + decimal(length) + "\r\n\r\n"@ + body
}

impl Route {
    /// The status line of the response.
    pub open spec fn spec_status_line(self) -> Seq<char> {
        match self {
            Route::Index => "HTTP/1.1 200 OK"@,
            Route::NotFound => "HTTP/1.1 404 NOT FOUND"@,
        }
    }

    /// The path of the file that holds the page.
    pub open spec fn spec_filename(self) -> Seq<char> {
        match self {
            Route::Index => "static/index.html"@,
            Route::NotFound => "static/404.html"@,
        }
    }

    /// The status line of the response.
    pub fn status_line(&self) -> (line: &'static str)
        ensures
            line@ == self.spec_status_line(),
    {
        match self {
            Route::Index => "HTTP/1.1 200 OK",
            Route::NotFound => "HTTP/1.1 404 NOT FOUND",
        }
    }

    /// The path of the file that holds the page.
    pub fn filename(&self) -> (path: &'static str)
        ensures
            path@ == self.spec_filename(),
    {
        match self {
            Route::Index => "static/index.html",
            Route::NotFound => "static/404.html",
        }
    }

    /// The whole response for this page, given the contents of its file.
    pub fn respond(&self, contents: &str) -> (out: String)
        ensures
            out@ == response_text(self.spec_status_line(), contents.len() as nat, contents@),
    {
        response(self.status_line(), contents)
    }
}

fn same_bytes(a: &[u8], b: &[u8]) -> (same: bool)
    ensures
        same <==> a@ == b@,
{
    if a.len() != b.len() {
        return false;
    }
    let mut i: usize = 0;
    while i < a.len()
        invariant
            a.len() == b.len(),
            i <= a.len(),
            forall|k: int| 0 <= k < i ==> a[k] == b[k],
        decreases a.len() - i,
    {
        if a[i] != b[i] {
            return false;
        }
        i = i + 1;
    }
    assert(a@ =~= b@);
    true
}

/// Chooses the page for a request line: the index page for exactly
/// `GET / HTTP/1.1`, the error page for any other line.
pub fn route(request_line: &str) -> (route: Route)
    ensures
        route == if request_line@ == index_request() {
            Route::Index
        } else {
            Route::NotFound
        },
{
    let expected = "GET / HTTP/1.1";
    proof {
        vstd::utf8::encode_utf8_decode_utf8(request_line@);
        vstd::utf8::encode_utf8_decode_utf8(expected@);
    }
    if same_bytes(request_line.as_bytes(), expected.as_bytes()) {
        Route::Index
    } else {
        Route::NotFound
    }
}

fn digit_str(d: usize) -> (text: &'static str)
    requires
        d < 10,
    ensures
        text@ == seq![digit(d as nat)],
{
    let text = match d {
        0 => "0",
        1 => "1",
        2 => "2",
        3 => "3",
        4 => "4",
        5 => "5",
        6 => "6",
        7 => "7",
        8 => "8",
        _ => "9",
    };
    proof {
        reveal_strlit("0");
        reveal_strlit("1");
        reveal_strlit("2");
        reveal_strlit("3");
        reveal_strlit("4");
        reveal_strlit("5");
        reveal_strlit("6");
        reveal_strlit("7");
        reveal_strlit("8");
        reveal_strlit("9");
        assert(text@ =~= seq![digit(d as nat)]);
    }
    text
}

fn append_decimal(out: &mut String, n: usize)
    ensures
        final(out)@ == old(out)@ + decimal(n as nat),
    decreases n,
{
    if n >= 10 {
        append_decimal(out, n / 10);
    }
    out.append(digit_str(n % 10));
    proof {
        if n >= 10 {
            assert(out@ =~= old(out)@ + decimal(n as nat));
        }
    }
}

/// Frames a response: `status_line`, then the length of `contents` in bytes
/// under the header `Content-Length`, an empty line, and `contents`.
pub fn response(status_line: &str, contents: &str) -> (out: String)
    ensures
        out@ == response_text(status_line@, contents.len() as nat, contents@),
{
    let mut out = String::from_str(status_line);
    out.append("\r\nContent-Length: ");
    append_decimal(&mut out, contents.len());
    out.append("\r\n\r\n");
    out.append(contents);
    out
}

} // verus!
