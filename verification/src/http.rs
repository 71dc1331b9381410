//! The HTTP surface: the route table and the full request-to-response
//! mapping. The routes are `/` (a fixed HTML page), `/health` (plain `OK`),
//! and `/pkg/...` (static-asset passthrough), each for the read methods GET
//! and HEAD only — another method on a routed path is answered with status
//! 405 — and every other path is answered with status 404.
//!
//! The server's I/O stays outside the library: a caller reads the request,
//! looks a static asset up on disk when the route asks for one, and hands
//! both here as plain values.

use vstd::prelude::*;
use crate::html::well_formed_html;
use crate::pages::Page;

verus! {

/// The path of the root endpoint.
pub open spec fn root_path() -> Seq<char> {
    seq!['/']
}

/// The path of the health endpoint.
pub open spec fn health_path() -> Seq<char> {
    seq!['/', 'h', 'e', 'a', 'l', 't', 'h']
}

/// The prefix under which static assets are mounted.
pub open spec fn asset_prefix() -> Seq<char> {
    seq!['/', 'p', 'k', 'g', '/']
}

/// The GET method.
pub open spec fn get_method() -> Seq<char> {
    seq!['G', 'E', 'T']
}

/// The HEAD method.
pub open spec fn head_method() -> Seq<char> {
    seq!['H', 'E', 'A', 'D']
}

/// A read method: the routed paths are registered for GET, which serves
/// HEAD as well; every other method is rejected there.
pub open spec fn is_read_method(m: Seq<char>) -> bool {
    m == get_method() || m == head_method()
}

/// The route a request path falls under.
#[derive(PartialEq, Eq, Structural, Clone, Copy, Debug)]
pub enum Route {
    Root,
    Health,
    Asset,
    NotFound,
}

/// A path under the static-asset mount: the mount prefix followed by
/// anything, possibly nothing.
pub open spec fn is_asset_path(p: Seq<char>) -> bool {
    p.len() >= asset_prefix().len() && p.subrange(0, asset_prefix().len() as int)
        == asset_prefix()
}

/// The route table: `/` and `/health` exactly, the asset mount by prefix,
/// everything else is unrouted.
pub open spec fn spec_route(p: Seq<char>) -> Route {
    if p == root_path() {
        Route::Root
    } else if p == health_path() {
        Route::Health
    } else if is_asset_path(p) {
        Route::Asset
    } else {
        Route::NotFound
    }
}

/// An HTTP request, reduced to what the routes can depend on: the method,
/// the path and the request headers.
pub struct Request {
    pub method: String,
    pub path: String,
    pub headers: Vec<(String, String)>,
}

/// The mathematical image of a request.
pub struct RequestModel {
    pub method: Seq<char>,
    pub path: Seq<char>,
    pub headers: Seq<(Seq<char>, Seq<char>)>,
}

impl View for Request {
    type V = RequestModel;

    open spec fn view(&self) -> RequestModel {
        RequestModel {
            method: self.method@,
            path: self.path@,
            headers: self.headers@.map_values(|h: (String, String)| (h.0@, h.1@)),
        }
    }
}

/// A response body together with its content type.
pub enum Content {
    Html(String),
    Plain(String),
    Bytes(Vec<u8>),
    Empty,
}

/// The mathematical image of a response body.
pub enum ContentModel {
    Html(Seq<char>),
    Plain(Seq<char>),
    Bytes(Seq<u8>),
    Empty,
}

impl View for Content {
    type V = ContentModel;

    open spec fn view(&self) -> ContentModel {
        match self {
            Content::Html(s) => ContentModel::Html(s@),
            Content::Plain(s) => ContentModel::Plain(s@),
            Content::Bytes(b) => ContentModel::Bytes(b@),
            Content::Empty => ContentModel::Empty,
        }
    }
}

/// An HTTP response: a status code and a body.
pub struct Response {
    pub status: u16,
    pub content: Content,
}

/// The mathematical image of a response.
pub struct ResponseModel {
    pub status: u16,
    pub content: ContentModel,
}

impl View for Response {
    type V = ResponseModel;

    open spec fn view(&self) -> ResponseModel {
        ResponseModel { status: self.status, content: self.content@ }
    }
}

/// The body of the health endpoint's reply.
pub open spec fn ok_body() -> Seq<char> {
    seq!['O', 'K']
}

/// The view of an optional asset lookup result.
pub open spec fn bytes_view(o: Option<Vec<u8>>) -> Option<Seq<u8>> {
    match o {
        Some(b) => Some(b@),
        None => None,
    }
}

/// The whole server, as a function: what is answered to a request, given the
/// outcome of the asset lookup and the page served at the root. The health
/// reply and the asset passthrough are fixed; nothing but the method and the
/// path is read from the request. A non-read method on a routed path is
/// answered 405; an unrouted path 404, whatever the method.
pub open spec fn spec_handle(
    req: RequestModel,
    asset: Option<Seq<u8>>,
    page: Seq<char>,
) -> ResponseModel {
    match spec_route(req.path) {
        Route::Root => if is_read_method(req.method) {
            ResponseModel { status: 200, content: ContentModel::Html(page) }
        } else {
            ResponseModel { status: 405, content: ContentModel::Empty }
        },
        Route::Health => if is_read_method(req.method) {
            ResponseModel { status: 200, content: ContentModel::Plain(ok_body()) }
        } else {
            ResponseModel { status: 405, content: ContentModel::Empty }
        },
        Route::Asset => if is_read_method(req.method) {
            match asset {
                Some(b) => ResponseModel { status: 200, content: ContentModel::Bytes(b) },
                None => ResponseModel { status: 404, content: ContentModel::Empty },
            }
        } else {
            ResponseModel { status: 405, content: ContentModel::Empty }
        },
        Route::NotFound => ResponseModel { status: 404, content: ContentModel::Empty },
    }
}

/// Compares two string slices character by character.
fn str_eq(a: &str, b: &str) -> (r: bool)
    ensures
        r == (a@ == b@),
{
    let na = a.unicode_len();
    let nb = b.unicode_len();
    if na != nb {
        return false;
    }
    let mut i: usize = 0;
    while i < na
        invariant
            na == a@.len(),
            na == b@.len(),
            i <= na,
            forall|j: int| 0 <= j < i ==> a@[j] == b@[j],
        decreases na - i,
    {
        if a.get_char(i) != b.get_char(i) {
            return false;
        }
        i = i + 1;
    }
    proof {
        assert(a@ =~= b@);
    }
    true
}

/// Does `s` begin with `p`?
fn has_prefix(s: &str, p: &str) -> (r: bool)
    ensures
        r == (p@.len() <= s@.len() && s@.subrange(0, p@.len() as int) == p@),
{
    let ns = s.unicode_len();
    let np = p.unicode_len();
    if np > ns {
        return false;
    }
    let mut i: usize = 0;
    while i < np
        invariant
            ns == s@.len(),
            np == p@.len(),
            np <= ns,
            i <= np,
            forall|j: int| 0 <= j < i ==> s@[j] == p@[j],
        decreases np - i,
    {
        if s.get_char(i) != p.get_char(i) {
            proof {
                if s@.subrange(0, np as int) == p@ {
                    assert(s@.subrange(0, np as int)[i as int] == p@[i as int]);
                }
            }
            return false;
        }
        i = i + 1;
    }
    proof {
        assert(s@.subrange(0, np as int) =~= p@);
    }
    true
}

/// Classifies a request path under the route table.
pub fn route_of(path: &str) -> (r: Route)
    ensures
        r == spec_route(path@),
{
    proof {
        reveal_strlit("/");
        reveal_strlit("/health");
        reveal_strlit("/pkg/");
        assert("/"@ =~= root_path());
        assert("/health"@ =~= health_path());
        assert("/pkg/"@ =~= asset_prefix());
    }
    if str_eq(path, "/") {
        Route::Root
    } else if str_eq(path, "/health") {
        Route::Health
    } else if has_prefix(path, "/pkg/") {
        Route::Asset
    } else {
        Route::NotFound
    }
}

/// The part of an asset path below the mount prefix: the key under which the
/// asset is looked up on disk.
pub fn asset_suffix(path: &str) -> (r: String)
    requires
        spec_route(path@) == Route::Asset,
    ensures
        r@ == path@.subrange(asset_prefix().len() as int, path@.len() as int),
{
    let n = path.unicode_len();
    let tail = path.substring_char(5, n);
    tail.to_owned()
}

/// A `..` path component beginning at position `j`: the two dots reach
/// from a component boundary to a component boundary.
pub open spec fn dotdot_component_at(s: Seq<char>, j: int) -> bool {
    &&& 0 <= j && j + 2 <= s.len()
    &&& s[j] == '.' && s[j + 1] == '.'
    &&& (j == 0 || s[j - 1] == '/')
    &&& (j + 2 == s.len() || s[j + 2] == '/')
}

/// The key, split on `/`, has a component that is exactly `..`.
pub open spec fn has_dotdot_component(s: Seq<char>) -> bool {
    exists|j: int| dotdot_component_at(s, j)
}

/// Decides whether an asset key is free of `..` components, so that a file
/// lookup the key is joined into cannot climb out of the mount directory.
/// A name that merely holds adjacent dots, such as `a..b`, is clean.
pub fn asset_key_is_clean(s: &str) -> (r: bool)
    ensures
        r == !has_dotdot_component(s@),
{
    let n = s.unicode_len();
    if n < 2 {
        proof {
            assert(forall|j: int| !dotdot_component_at(s@, j));
        }
        return true;
    }
    let mut j: usize = 0;
    while j < n - 1
        invariant
            n == s@.len(),
            2 <= n,
            j <= n - 1,
            forall|k: int| 0 <= k < j ==> !dotdot_component_at(s@, k),
        decreases n - j,
    {
        if s.get_char(j) == '.' && s.get_char(j + 1) == '.' {
            let pre_ok = j == 0 || s.get_char(j - 1) == '/';
            let post_ok = j + 2 == n || s.get_char(j + 2) == '/';
            if pre_ok && post_ok {
                proof {
                    assert(dotdot_component_at(s@, j as int));
                }
                return false;
            }
        }
        j = j + 1;
    }
    proof {
        assert(forall|k: int| dotdot_component_at(s@, k) ==> 0 <= k && k + 2 <= n);
    }
    true
}

/// Does `s` end with `suffix`?
pub open spec fn spec_has_suffix(s: Seq<char>, suffix: Seq<char>) -> bool {
    suffix.len() <= s.len() && s.subrange(s.len() - suffix.len(), s.len() as int) == suffix
}

/// The content type the asset mount serves a key under, chosen by file
/// extension as the original's static file service chose it; an unknown
/// extension falls back to the generic byte type.
pub open spec fn spec_content_type(key: Seq<char>) -> Seq<char> {
    if spec_has_suffix(key, ".js"@) {
        "text/javascript"@
    } else if spec_has_suffix(key, ".mjs"@) {
        "application/javascript"@
    } else if spec_has_suffix(key, ".wasm"@) {
        "application/wasm"@
    } else if spec_has_suffix(key, ".html"@) {
        "text/html"@
    } else if spec_has_suffix(key, ".css"@) {
        "text/css"@
    } else if spec_has_suffix(key, ".json"@) {
        "application/json"@
    } else {
        "application/octet-stream"@
    }
}

/// Does `s` end with `suffix`, character by character?
fn has_suffix(s: &str, suffix: &str) -> (r: bool)
    ensures
        r == spec_has_suffix(s@, suffix@),
{
    let ns = s.unicode_len();
    let nf = suffix.unicode_len();
    if nf > ns {
        return false;
    }
    let off = ns - nf;
    let mut i: usize = 0;
    while i < nf
        invariant
            ns == s@.len(),
            nf == suffix@.len(),
            nf <= ns,
            off == ns - nf,
            i <= nf,
            forall|j: int| 0 <= j < i ==> s@[off as int + j] == suffix@[j],
        decreases nf - i,
    {
        if s.get_char(off + i) != suffix.get_char(i) {
            proof {
                if s@.subrange(ns - nf, ns as int) == suffix@ {
                    assert(s@.subrange(ns - nf, ns as int)[i as int] == suffix@[i as int]);
                }
            }
            return false;
        }
        i = i + 1;
    }
    proof {
        assert(s@.subrange(ns - nf, ns as int) =~= suffix@);
    }
    true
}

/// The content type for an asset key, by its file extension.
pub fn asset_content_type(key: &str) -> (r: String)
    ensures
        r@ == spec_content_type(key@),
{
    if has_suffix(key, ".js") {
        "text/javascript".to_owned()
    } else if has_suffix(key, ".mjs") {
        "application/javascript".to_owned()
    } else if has_suffix(key, ".wasm") {
        "application/wasm".to_owned()
    } else if has_suffix(key, ".html") {
        "text/html".to_owned()
    } else if has_suffix(key, ".css") {
        "text/css".to_owned()
    } else if has_suffix(key, ".json") {
        "application/json".to_owned()
    } else {
        "application/octet-stream".to_owned()
    }
}

/// The root endpoint's reply: status 200 and the page, as HTML.
pub fn respond_root(page: &Page) -> (r: Response)
    ensures
        r@ == (ResponseModel { status: 200, content: ContentModel::Html(page.spec_str()) }),
{
    Response { status: 200, content: Content::Html(page.html_str().clone()) }
}

/// The health endpoint's reply: status 200 and the plain body `OK`.
pub fn respond_health() -> (r: Response)
    ensures
        r@ == (ResponseModel { status: 200, content: ContentModel::Plain(ok_body()) }),
{
    proof {
        reveal_strlit("OK");
        assert("OK"@ =~= ok_body());
    }
    Response { status: 200, content: Content::Plain("OK".to_owned()) }
}

/// The asset mount's reply: the looked-up bytes unmodified with status 200
/// when the asset exists, status 404 when it does not.
pub fn respond_asset(file: Option<Vec<u8>>) -> (r: Response)
    ensures
        file matches Some(b) ==> r@ == (ResponseModel {
            status: 200,
            content: ContentModel::Bytes(b@),
        }),
        file is None ==> r@ == (ResponseModel { status: 404, content: ContentModel::Empty }),
{
    match file {
        Some(b) => Response { status: 200, content: Content::Bytes(b) },
        None => Response { status: 404, content: Content::Empty },
    }
}

/// The reply to an unrouted path: status 404 and no body.
pub fn respond_not_found() -> (r: Response)
    ensures
        r@ == (ResponseModel { status: 404, content: ContentModel::Empty }),
{
    Response { status: 404, content: Content::Empty }
}

/// The reply to a non-read method on a routed path: status 405 and no body.
pub fn respond_method_not_allowed() -> (r: Response)
    ensures
        r@ == (ResponseModel { status: 405, content: ContentModel::Empty }),
{
    Response { status: 405, content: Content::Empty }
}

/// Answers one request: routes the path, rejects non-read methods on the
/// routed paths, and builds the reply. `asset` is the outcome of the
/// caller's asset lookup, read only on the asset route; `page` is the
/// document served at the root.
pub fn handle_request(req: &Request, asset: Option<Vec<u8>>, page: &Page) -> (r: Response)
    ensures
        r@ == spec_handle(req@, bytes_view(asset), page.spec_str()),
        page.wf() && spec_route(req@.path) == Route::Root && is_read_method(req@.method) ==> (
        r@.content matches ContentModel::Html(body) && well_formed_html(body)),
{
    proof {
        reveal_strlit("GET");
        reveal_strlit("HEAD");
        assert("GET"@ =~= get_method());
        assert("HEAD"@ =~= head_method());
    }
    let read = str_eq(req.method.as_str(), "GET") || str_eq(req.method.as_str(), "HEAD");
    match route_of(req.path.as_str()) {
        Route::Root => if read {
            respond_root(page)
        } else {
            respond_method_not_allowed()
        },
        Route::Health => if read {
            respond_health()
        } else {
            respond_method_not_allowed()
        },
        Route::Asset => if read {
            respond_asset(asset)
        } else {
            respond_method_not_allowed()
        },
        Route::NotFound => respond_not_found(),
    }
}

/// The health endpoint's reply is the same whatever else the request holds:
/// for every read-method request whose path is the health path — whatever
/// its headers — and every asset lookup outcome and every page, the reply is
/// status 200 with the plain body `OK`.
pub proof fn lemma_health_uniform(req: RequestModel, asset: Option<Seq<u8>>, page: Seq<char>)
    requires
        spec_route(req.path) == Route::Health,
        is_read_method(req.method),
    ensures
        spec_handle(req, asset, page) == (ResponseModel {
            status: 200,
            content: ContentModel::Plain(ok_body()),
        }),
{
}

/// A read-method request under the static-asset mount is answered with the
/// looked-up bytes unmodified and status 200 when the asset exists, and
/// with status 404 when it does not.
pub proof fn lemma_asset_passthrough(req: RequestModel, asset: Option<Seq<u8>>, page: Seq<char>)
    requires
        spec_route(req.path) == Route::Asset,
        is_read_method(req.method),
    ensures
        asset matches Some(b) ==> spec_handle(req, asset, page) == (ResponseModel {
            status: 200,
            content: ContentModel::Bytes(b),
        }),
        asset is None ==> spec_handle(req, asset, page) == (ResponseModel {
            status: 404,
            content: ContentModel::Empty,
        }),
{
}

/// The root endpoint replies to every read-method request with status 200
/// and an HTML body, and the body is the served page itself: when that page
/// is well-formed markup, so is what every such request receives.
pub proof fn lemma_root_well_formed(req: RequestModel, asset: Option<Seq<u8>>, page: Seq<char>)
    requires
        spec_route(req.path) == Route::Root,
        is_read_method(req.method),
        well_formed_html(page),
    ensures
        spec_handle(req, asset, page) == (ResponseModel {
            status: 200,
            content: ContentModel::Html(page),
        }),
        spec_handle(req, asset, page).content matches ContentModel::Html(body)
            && well_formed_html(body),
{
}

/// The routed paths are served for the read methods GET and HEAD only: a
/// request with any other method whose path is routed is answered status
/// 405 with no body, whatever else it holds; an unrouted path is answered
/// status 404 whatever the method.
pub proof fn lemma_method_guard(req: RequestModel, asset: Option<Seq<u8>>, page: Seq<char>)
    requires
        !is_read_method(req.method),
    ensures
        spec_route(req.path) != Route::NotFound ==> spec_handle(req, asset, page) == (
        ResponseModel { status: 405, content: ContentModel::Empty }),
        spec_route(req.path) == Route::NotFound ==> spec_handle(req, asset, page) == (
        ResponseModel { status: 404, content: ContentModel::Empty }),
{
}

} // verus!
