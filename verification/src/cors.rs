//! Cross-origin resource sharing: which requests are answered on the spot as
//! preflight requests, and which headers a response is given.

use crate::headers::{
    bytes_of, header_count, header_values, plain_name, plain_value, set_header, AMPLE_ROOM,
};
use crate::text::same_text;
use crate::text::strip_prefix;
use http::{HeaderMap, HeaderValue};
use vstd::prelude::*;

verus! {

/// The status of the answer to a preflight request.
pub const PREFLIGHT_STATUS: u16 = 200;

/// One response header to set, replacing what the response held under the
/// same name.
#[derive(Clone, Copy, Debug, PartialEq, Eq)]
pub struct Header {
    pub name: &'static str,
    pub value: &'static str,
}

impl View for Header {
    type V = (Seq<char>, Seq<char>);

    open spec fn view(&self) -> (Seq<char>, Seq<char>) {
        (self.name@, self.value@)
    }
}

/// Whether a request with this method and path is a preflight request that
/// the middleware answers itself.
pub open spec fn preflight(method: Seq<char>, path: Seq<char>) -> bool {
    method == "OPTIONS"@ && "/api/v1/"@.is_prefix_of(path)
}

/// The headers given to every response that the inner service produced.
pub open spec fn response_header_list() -> Seq<(Seq<char>, Seq<char>)> {
    seq![
        ("access-control-allow-origin"@, "*"@),
        ("access-control-allow-methods"@, "POST, GET, OPTIONS, PATCH, DELETE"@),
        ("access-control-allow-headers"@, "content-type"@),
    ]
}

/// The headers of the answer to a preflight request.
pub open spec fn preflight_header_list() -> Seq<(Seq<char>, Seq<char>)> {
    seq![
        ("access-control-allow-origin"@, "*"@),
        ("access-control-allow-methods"@, "POST, GET, OPTIONS, PATCH, DELETE"@),
        ("access-control-allow-headers"@, "*"@),
        ("access-control-max-age"@, "86400"@),
    ]
}

impl Header {
    /// Whether the header can be set as it is: a name of lower-case letters,
    /// digits and hyphens, a value of printable ASCII.
    pub open spec fn wf(&self) -> bool {
        plain_name(self.name@) && plain_value(self.value@)
    }
}

/// What a header map holds once the headers of `list` have been set on it,
/// first to last: each replaces what the map held under its name.
pub open spec fn with_headers(
    held: Map<Seq<char>, Seq<Seq<u8>>>,
    list: Seq<(Seq<char>, Seq<char>)>,
) -> Map<Seq<char>, Seq<Seq<u8>>>
    decreases list.len(),
{
    if list.len() == 0 {
        held
    } else {
        with_headers(held, list.drop_last()).insert(list.last().0, seq![bytes_of(list.last().1)])
    }
}

/// The views of `headers`, in order.
pub open spec fn header_views(headers: Seq<Header>) -> Seq<(Seq<char>, Seq<char>)> {
    Seq::new(headers.len(), |i: int| headers[i]@)
}

/// Whether the middleware answers this request itself: an `OPTIONS` request
/// to a path under `/api/v1/`.
pub fn is_preflight(method: &str, path: &str) -> (answer: bool)
    ensures
        answer == preflight(method@, path@),
{
    same_text(method, "OPTIONS") && strip_prefix(path, "/api/v1/").is_some()
}

/// The headers to set on a response of the inner service.
pub fn response_headers() -> (headers: Vec<Header>)
    ensures
        header_views(headers@) == response_header_list(),
        forall|i: int| 0 <= i < headers.len() ==> (#[trigger] headers[i]).wf(),
{
    proof {
        reveal_strlit("access-control-allow-origin");
        reveal_strlit("*");
        reveal_strlit("access-control-allow-methods");
        reveal_strlit("POST, GET, OPTIONS, PATCH, DELETE");
        reveal_strlit("access-control-allow-headers");
        reveal_strlit("content-type");
    }
    let mut headers: Vec<Header> = Vec::new();
    headers.push(Header { name: "access-control-allow-origin", value: "*" });
    headers.push(
        Header { name: "access-control-allow-methods", value: "POST, GET, OPTIONS, PATCH, DELETE" },
    );
    headers.push(Header { name: "access-control-allow-headers", value: "content-type" });
    headers
}

/// The headers of the answer to a preflight request, which has the status
/// `PREFLIGHT_STATUS` and no body.
pub fn preflight_headers() -> (headers: Vec<Header>)
    ensures
        header_views(headers@) == preflight_header_list(),
        forall|i: int| 0 <= i < headers.len() ==> (#[trigger] headers[i]).wf(),
{
    proof {
        reveal_strlit("access-control-allow-origin");
        reveal_strlit("*");
        reveal_strlit("access-control-allow-methods");
        reveal_strlit("POST, GET, OPTIONS, PATCH, DELETE");
        reveal_strlit("access-control-allow-headers");
        reveal_strlit("access-control-max-age");
        reveal_strlit("86400");
    }
    let mut headers: Vec<Header> = Vec::new();
    headers.push(Header { name: "access-control-allow-origin", value: "*" });
    headers.push(
        Header { name: "access-control-allow-methods", value: "POST, GET, OPTIONS, PATCH, DELETE" },
    );
    headers.push(Header { name: "access-control-allow-headers", value: "*" });
    headers.push(Header { name: "access-control-max-age", value: "86400" });
    headers
}

/// Sets the headers of `list` on `target`, first to last, and stops at the
/// first that the map refuses. The result says whether all of them were
/// set. They all are where the map has ample room for them; where one is
/// refused, those before it are set and the map is otherwise as it was.
fn set_all(target: &mut HeaderMap<HeaderValue>, list: &Vec<Header>) -> (set: bool)
    requires
        forall|i: int| 0 <= i < list.len() ==> (#[trigger] list[i]).wf(),
    ensures
        header_count(*old(target)) + list.len() <= AMPLE_ROOM ==> set,
        set ==> header_values(*final(target)) == with_headers(
            header_values(*old(target)),
            header_views(list@),
        ),
        set ==> header_count(*final(target)) <= header_count(*old(target)) + list.len(),
        !set ==> exists|k: int|
            0 <= k < list.len() && header_values(*final(target)) == with_headers(
                header_values(*old(target)),
                #[trigger] header_views(list@).take(k),
            ),
{
    let ghost before = header_values(*target);
    let ghost names = header_count(*target);
    let mut i: usize = 0;
    while i < list.len()
        invariant
            i <= list.len(),
            forall|k: int| 0 <= k < list.len() ==> (#[trigger] list[k]).wf(),
            before == header_values(*old(target)),
            names == header_count(*old(target)),
            header_values(*target) == with_headers(before, header_views(list@).take(i as int)),
            header_count(*target) <= names + i,
        decreases list.len() - i,
    {
        let header = list[i];
        if !set_header(target, header.name, header.value) {
            assert(header_values(*target) == with_headers(
                before,
                header_views(list@).take(i as int),
            ));
            return false;
        }
        proof {
            let views = header_views(list@);
            assert(views.take(i + 1).drop_last() =~= views.take(i as int));
            assert(views.take(i + 1).last() == header@);
        }
        i = i + 1;
    }
    proof {
        assert(header_views(list@).take(list.len() as int) =~= header_views(list@));
    }
    true
}

/// Sets the CORS headers on the headers of a response that the inner
/// service produced, each in place of what the response held under its
/// name. The result says whether all of them were set. They all are where
/// the map has ample room for three more names; where the map refuses one,
/// those before it are set and the rest is left out.
pub fn set_response_headers(target: &mut HeaderMap<HeaderValue>) -> (set: bool)
    ensures
        header_count(*old(target)) + 3 <= AMPLE_ROOM ==> set,
        set ==> header_values(*final(target)) == with_headers(
            header_values(*old(target)),
            response_header_list(),
        ),
        !set ==> exists|k: int|
            0 <= k < 3 && header_values(*final(target)) == with_headers(
                header_values(*old(target)),
                #[trigger] response_header_list().take(k),
            ),
{
    let list = response_headers();
    assert(header_views(list@).len() == 3);
    set_all(target, &list)
}

/// Sets the headers of the answer to a preflight request, each in place of
/// what the answer held under its name. The result says whether all of them
/// were set. They all are where the map has ample room for four more names;
/// where the map refuses one, those before it are set and the rest is left
/// out.
pub fn set_preflight_headers(target: &mut HeaderMap<HeaderValue>) -> (set: bool)
    ensures
        header_count(*old(target)) + 4 <= AMPLE_ROOM ==> set,
        set ==> header_values(*final(target)) == with_headers(
            header_values(*old(target)),
            preflight_header_list(),
        ),
        !set ==> exists|k: int|
            0 <= k < 4 && header_values(*final(target)) == with_headers(
                header_values(*old(target)),
                #[trigger] preflight_header_list().take(k),
            ),
{
    let list = preflight_headers();
    assert(header_views(list@).len() == 4);
    set_all(target, &list)
}

/// The layer that wraps a service in `Cors`.
#[derive(Clone, Copy, Debug)]
pub struct CorsLayer;

impl CorsLayer {
    /// Wraps `service`.
    pub fn layer<S>(&self, service: S) -> (cors: Cors<S>)
        ensures
            cors.wrapped() == service,
    {
        Cors::new(service)
    }
}

/// A service wrapped so that its responses carry the CORS headers and
/// preflight requests are answered without reaching it.
#[derive(Clone, Debug)]
pub struct Cors<S> {
    inner: S,
}

impl<S> Cors<S> {
    /// The service inside.
    pub closed spec fn wrapped(&self) -> S {
        self.inner
    }

    /// Wraps `inner`.
    pub fn new(inner: S) -> (cors: Self)
        ensures
            cors.wrapped() == inner,
    {
        Cors { inner }
    }

    /// Gives the service back.
    pub fn into_inner(self) -> (inner: S)
        ensures
            inner == self.wrapped(),
    {
        self.inner
    }
}

} // verus!
