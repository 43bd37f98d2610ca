use vstd::prelude::*;
use crate::uri::{pairs_view, ERROR_PAGE_PATH};

verus! {

/// Path to which the identity provider sends the browser back.
pub const LOGIN_CALLBACK_PATH: &'static str = "/user/login_with_provider_callback";

/// Status returned when the content service cannot be reached in time.
pub const BAD_GATEWAY: u16 = 502;

/// Who answers a request.
#[derive(Clone, Copy, Debug, PartialEq, Eq, Structural)]
pub enum Route {
    LoginCallback,
    ErrorInfo,
    Forward,
}

/// Who answers a request for `path`: the two local routes, and the content
/// service for every other path.
pub open spec fn route_spec(path: Seq<char>) -> Route {
    if path == LOGIN_CALLBACK_PATH@ {
        Route::LoginCallback
    } else if path == ERROR_PAGE_PATH@ {
        Route::ErrorInfo
    } else {
        Route::Forward
    }
}

fn same_text(a: &str, b: &str) -> (r: bool)
    ensures
        r == (a@ == b@),
{
    String::from_str(a) == String::from_str(b)
}

/// Who answers a request for `path`.
pub fn route_of(path: &str) -> (r: Route)
    ensures
        r == route_spec(path@),
{
    if same_text(path, LOGIN_CALLBACK_PATH) {
        Route::LoginCallback
    } else if same_text(path, ERROR_PAGE_PATH) {
        Route::ErrorInfo
    } else {
        Route::Forward
    }
}

/// The address a forwarded request goes to: the content service's `base`
/// followed by the request's path and query, unchanged.
pub fn upstream_uri(base: &str, path_and_query: &str) -> (r: String)
    ensures
        r@ == base@ + path_and_query@,
{
    let mut s = String::from_str(base);
    s.append(path_and_query);
    s
}

/// Whether a request header with the (lowercase) `name` is passed on to the
/// content service: all are but `host`, which names the gateway itself.
pub fn forwarded_header(name: &str) -> (r: bool)
    ensures
        r == (name@ != "host"@),
{
    !same_text(name, "host")
}

/// The status the client receives: the content service's own, or
/// `BAD_GATEWAY` when it gave none.
pub fn relay_status(upstream: Option<u16>) -> (r: u16)
    ensures
        r == match upstream {
            Some(s) => s,
            None => BAD_GATEWAY,
        },
{
    match upstream {
        Some(s) => s,
        None => BAD_GATEWAY,
    }
}

/// A request as it reaches the gateway or leaves it for the content service.
pub struct HttpRequest {
    pub method: String,
    /// The path and query, or, once forwarded, the full upstream address.
    pub target: String,
    pub headers: Vec<(String, String)>,
    pub body: Vec<u8>,
}

/// A response of the content service, or of the gateway in its place.
pub struct HttpResponse {
    pub status: u16,
    pub headers: Vec<(String, String)>,
    pub body: Vec<u8>,
}

/// The headers of `hs` that are passed on, in their order.
pub open spec fn kept_headers(hs: Seq<(Seq<char>, Seq<char>)>) -> Seq<(Seq<char>, Seq<char>)>
    decreases hs.len(),
{
    if hs.len() == 0 {
        seq![]
    } else {
        let rest = kept_headers(hs.drop_last());
        if hs.last().0 == "host"@ {
            rest
        } else {
            rest.push(hs.last())
        }
    }
}

/// The request sent to the content service at `base` for `req`: the same
/// method and body, the same headers but `host`, addressed to `base` followed
/// by the original path and query.
pub fn forward_request(base: &str, req: HttpRequest) -> (r: HttpRequest)
    ensures
        r.method == req.method,
        r.target@ == base@ + req.target@,
        pairs_view(r.headers@) == kept_headers(pairs_view(req.headers@)),
        r.body == req.body,
{
    let ghost hv = pairs_view(req.headers@);
    let mut kept: Vec<(String, String)> = Vec::new();
    let n = req.headers.len();
    let mut i: usize = 0;
    while i < n
        invariant
            n == req.headers@.len(),
            hv == pairs_view(req.headers@),
            i <= n,
            pairs_view(kept@) == kept_headers(hv.take(i as int)),
        decreases n - i,
    {
        let name = &req.headers[i].0;
        let value = &req.headers[i].1;
        assert(hv.take(i + 1).drop_last() =~= hv.take(i as int));
        assert(hv.take(i + 1).last() == (name@, value@));
        if forwarded_header(name.as_str()) {
            let ghost before = kept@;
            kept.push((name.clone(), value.clone()));
            assert(pairs_view(kept@) =~= pairs_view(before).push((name@, value@)));
        }
        i = i + 1;
    }
    assert(hv.take(n as int) =~= hv);
    HttpRequest {
        method: req.method,
        target: upstream_uri(base, req.target.as_str()),
        headers: kept,
        body: req.body,
    }
}

/// The response handed back to the client: the content service's response
/// as it came, or an empty `BAD_GATEWAY` response when none came.
pub fn relay(upstream: Option<HttpResponse>) -> (r: HttpResponse)
    ensures
        match upstream {
            Some(u) => r == u,
            None => r.status == BAD_GATEWAY && r.headers@.len() == 0 && r.body@.len() == 0,
        },
{
    match upstream {
        Some(u) => u,
        None => HttpResponse { status: BAD_GATEWAY, headers: Vec::new(), body: Vec::new() },
    }
}

/// Every path but the two local ones goes to the content service.
pub proof fn lemma_other_paths_are_forwarded(path: Seq<char>)
    requires
        path != LOGIN_CALLBACK_PATH@,
        path != ERROR_PAGE_PATH@,
    ensures
        route_spec(path) == Route::Forward,
{
}

} // verus!
