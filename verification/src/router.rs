//! Routing: from one request line to a (status line, payload, delay) decision.
//!
//! Matching is exact string equality, case-sensitive, with no normalization.
//! Exactly two request lines are recognized; every other line, the empty line
//! included, resolves to the not-found pair.

use vstd::prelude::*;

verus! {

/// The decision taken for one request line: which fixed page is served,
/// and whether the artificial delay precedes it.
#[derive(Clone, Copy, Debug, PartialEq, Eq, Structural)]
pub enum Route {
    /// `"GET / HTTP/1.1"`: the hello page, served immediately.
    Hello,
    /// `"GET /sleep HTTP/1.1"`: the hello page, after a five-second delay.
    DelayedHello,
    /// Any other request line: the not-found page.
    NotFound,
}

/// The route selected for a request line.
pub open spec fn spec_route(request: Seq<char>) -> Route {
    if request == "GET / HTTP/1.1"@ {
        Route::Hello
    } else if request == "GET /sleep HTTP/1.1"@ {
        Route::DelayedHello
    } else {
        Route::NotFound
    }
}

impl Route {
    /// The status line of the response for this route.
    pub open spec fn spec_status_line(self) -> Seq<char> {
        match self {
            Route::NotFound => "HTTP/1.1 404 NOT FOUND"@,
            _ => "HTTP/1.1 200 OK"@,
        }
    }

    /// The name of the payload resource served for this route.
    pub open spec fn spec_file_name(self) -> Seq<char> {
        match self {
            Route::NotFound => "404.html"@,
            _ => "hello.html"@,
        }
    }

    /// The artificial delay, in seconds, that precedes the response.
    pub open spec fn spec_delay_secs(self) -> u64 {
        match self {
            Route::DelayedHello => 5,
            _ => 0,
        }
    }

    /// The status line of the response for this route.
    pub fn status_line(&self) -> (r: &'static str)
        ensures
            r@ == self.spec_status_line(),
    {
        match self {
            Route::NotFound => "HTTP/1.1 404 NOT FOUND",
            _ => "HTTP/1.1 200 OK",
        }
    }

    /// The name of the payload resource served for this route.
    pub fn file_name(&self) -> (r: &'static str)
        ensures
            r@ == self.spec_file_name(),
    {
        match self {
            Route::NotFound => "404.html",
            _ => "hello.html",
        }
    }

    /// The artificial delay, in seconds, that precedes the response.
    pub fn delay_secs(&self) -> (r: u64)
        ensures
            r == self.spec_delay_secs(),
    {
        match self {
            Route::DelayedHello => 5,
            _ => 0,
        }
    }
}

/// Selects the route for a request line, by exact string equality.
pub fn route(request: &str) -> (r: Route)
    ensures
        r == spec_route(request@),
{
    let line: String = request.to_owned();
    if line == "GET / HTTP/1.1".to_owned() {
        Route::Hello
    } else if line == "GET /sleep HTTP/1.1".to_owned() {
        Route::DelayedHello
    } else {
        Route::NotFound
    }
}

/// Law: each recognized request line selects its documented (status, payload)
/// pair, and every unrecognized request line, the empty one included, selects
/// the not-found pair.
pub proof fn lemma_route_pairs(request: Seq<char>)
    ensures
        request == "GET / HTTP/1.1"@ ==> spec_route(request) == Route::Hello,
        request == "GET /sleep HTTP/1.1"@ ==> spec_route(request) == Route::DelayedHello,
        request != "GET / HTTP/1.1"@ && request != "GET /sleep HTTP/1.1"@ ==> spec_route(request)
            == Route::NotFound,
        spec_route(request).spec_status_line() == (if spec_route(request) is NotFound {
            "HTTP/1.1 404 NOT FOUND"@
        } else {
            "HTTP/1.1 200 OK"@
        }),
        spec_route(request).spec_file_name() == (if spec_route(request) is NotFound {
            "404.html"@
        } else {
            "hello.html"@
        }),
{
    reveal_strlit("GET / HTTP/1.1");
    reveal_strlit("GET /sleep HTTP/1.1");
    assert("GET / HTTP/1.1"@.len() == 14);
    assert("GET /sleep HTTP/1.1"@.len() == 19);
}

} // verus!
