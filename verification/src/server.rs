//! What a small web server answers, before anything is read or written.

use vstd::prelude::*;
use vstd::string::*;
use crate::text::{decimal, push_decimal};

verus! {

/// What is to be sent back for a request.
pub struct Route {
    /// The status line, after the protocol version.
    pub status: &'static str,
    /// The file whose contents make the body.
    pub filename: &'static str,
    /// How many seconds to wait before answering.
    pub delay_secs: u64,
}

/// The request line that asks for the front page.
pub open spec fn get_line() -> Seq<u8> {
    "GET / HTTP/1.1\r\n".spec_bytes()
}

/// The request line that asks for the front page, slowly.
pub open spec fn sleep_line() -> Seq<u8> {
    "GET /sleep HTTP/1.1\r\n".spec_bytes()
}

/// Whether `buffer` begins with `prefix`.
pub fn starts_with(buffer: &[u8], prefix: &[u8]) -> (begins: bool)
    ensures
        begins == prefix@.is_prefix_of(buffer@),
{
    if prefix.len() > buffer.len() {
        return false;
    }
    let mut i: usize = 0;
    while i < prefix.len()
        invariant
            i <= prefix@.len(),
            prefix@.len() <= buffer@.len(),
            forall|k: int| 0 <= k < i ==> prefix@[k] == buffer@[k],
        decreases prefix@.len() - i,
    {
        if prefix[i] != buffer[i] {
            return false;
        }
        i = i + 1;
    }
    assert(prefix@ =~= buffer@.subrange(0, prefix@.len() as int));
    true
}

/// Decides what a request gets: the front page, the front page after five
/// seconds, or the page that says that nothing was found.
pub fn route(request: &[u8]) -> (route: Route)
    ensures
        get_line().is_prefix_of(request@) ==> route.status@ == "200 OK"@ && route.filename@
            == "index.html"@ && route.delay_secs == 0,
        !get_line().is_prefix_of(request@) && sleep_line().is_prefix_of(request@) ==> route.status@
            == "200 OK"@ && route.filename@ == "index.html"@ && route.delay_secs == 5,
        !get_line().is_prefix_of(request@) && !sleep_line().is_prefix_of(request@)
            ==> route.status@ == "404 NOT FOUND"@ && route.filename@ == "404.html"@
            && route.delay_secs == 0,
{
    if starts_with(request, "GET / HTTP/1.1\r\n".as_bytes()) {
        Route { status: "200 OK", filename: "index.html", delay_secs: 0 }
    } else if starts_with(request, "GET /sleep HTTP/1.1\r\n".as_bytes()) {
        Route { status: "200 OK", filename: "index.html", delay_secs: 5 }
    } else {
        Route { status: "404 NOT FOUND", filename: "404.html", delay_secs: 0 }
    }
}

/// The response as it goes on the wire.
pub open spec fn response_text(status: Seq<char>, contents: &str) -> Seq<char> {
    "HTTP/1.1 "@ + status + "\r\nContent-Length: "@ + decimal(contents.spec_bytes().len())
        + "\r\n\r\n"@ + contents@
}

/// Puts a response together: the status line, the length of the body in
/// bytes, an empty line, the body.
pub fn response(status: &str, contents: &str) -> (text: String)
    ensures
        text@ == response_text(status@, contents),
{
    let mut text = String::from_str("HTTP/1.1 ");
    text.append(status);
    text.append("\r\nContent-Length: ");
    push_decimal(&mut text, contents.as_bytes().len() as u64);
    text.append("\r\n\r\n");
    text.append(contents);
    text
}

} // verus!
