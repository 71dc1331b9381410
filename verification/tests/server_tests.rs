use slint_test::http::asset_suffix;
use slint_test::http::handle_request;
use slint_test::http::respond_asset;
use slint_test::http::respond_health;
use slint_test::http::respond_not_found;
use slint_test::http::respond_root;
use slint_test::http::route_of;
use slint_test::http::Content;
use slint_test::http::Request;
use slint_test::http::Route;
use slint_test::pages::Page;

#[test]
fn health_is_ok() {
    let r = respond_health();
    assert_eq!(r.status, 200);
    match r.content {
        Content::Plain(s) => assert_eq!(s, "OK"),
        _ => panic!("health body must be plain text"),
    }
}

#[test]
fn health_ignores_headers() {
    let page = Page::native();
    let bare = Request { method: "GET".to_string(), path: "/health".to_string(), headers: vec![] };
    let loaded = Request {
        method: "HEAD".to_string(),
        path: "/health".to_string(),
        headers: vec![
            ("accept".to_string(), "application/json".to_string()),
            ("x-odd".to_string(), "anything at all".to_string()),
            ("user-agent".to_string(), "probe/0".to_string()),
        ],
    };
    let r1 = handle_request(&bare, None, &page);
    let r2 = handle_request(&loaded, Some(vec![9, 9, 9]), &page);
    assert_eq!(r1.status, 200);
    assert_eq!(r2.status, 200);
    match (r1.content, r2.content) {
        (Content::Plain(a), Content::Plain(b)) => {
            assert_eq!(a, "OK");
            assert_eq!(b, "OK");
        },
        _ => panic!("health body must be plain text"),
    }
}

#[test]
fn root_serves_the_page() {
    let page = Page::native();
    let req = Request { method: "GET".to_string(), path: "/".to_string(), headers: vec![] };
    let r = handle_request(&req, None, &page);
    assert_eq!(r.status, 200);
    match r.content {
        Content::Html(body) => assert_eq!(&body, page.html_str()),
        _ => panic!("root body must be HTML"),
    }
}

#[test]
fn root_response_is_html() {
    let page = Page::wasm_host();
    let r = respond_root(&page);
    assert_eq!(r.status, 200);
    assert!(matches!(r.content, Content::Html(_)));
}

#[test]
fn asset_found_returns_bytes_unmodified() {
    let bytes = vec![0u8, 1, 2, 254, 255, 42];
    let r = respond_asset(Some(bytes.clone()));
    assert_eq!(r.status, 200);
    match r.content {
        Content::Bytes(b) => assert_eq!(b, bytes),
        _ => panic!("asset body must be raw bytes"),
    }
}

#[test]
fn asset_missing_returns_404() {
    let r = respond_asset(None);
    assert_eq!(r.status, 404);
    assert!(matches!(r.content, Content::Empty));
}

#[test]
fn asset_route_through_handler() {
    let page = Page::wasm_host();
    let req = Request { method: "GET".to_string(), path: "/pkg/slint_test_bg.wasm".to_string(), headers: vec![] };
    let payload = vec![0u8, 97, 115, 109];
    let found = handle_request(&req, Some(payload.clone()), &page);
    assert_eq!(found.status, 200);
    match found.content {
        Content::Bytes(b) => assert_eq!(b, payload),
        _ => panic!("asset body must be raw bytes"),
    }
    let missing = handle_request(&req, None, &page);
    assert_eq!(missing.status, 404);
}

#[test]
fn unknown_path_returns_404() {
    let page = Page::native();
    let req = Request { method: "POST".to_string(), path: "/nope".to_string(), headers: vec![] };
    let r = handle_request(&req, None, &page);
    assert_eq!(r.status, 404);
    assert!(matches!(r.content, Content::Empty));
}

#[test]
fn not_found_reply_is_empty_404() {
    let r = respond_not_found();
    assert_eq!(r.status, 404);
    assert!(matches!(r.content, Content::Empty));
}

#[test]
fn route_classification() {
    assert_eq!(route_of("/"), Route::Root);
    assert_eq!(route_of("/health"), Route::Health);
    assert_eq!(route_of("/pkg/app.js"), Route::Asset);
    assert_eq!(route_of("/pkg/"), Route::Asset);
    assert_eq!(route_of("/pkg"), Route::NotFound);
    assert_eq!(route_of("/healthz"), Route::NotFound);
    assert_eq!(route_of(""), Route::NotFound);
    assert_eq!(route_of("/index.html"), Route::NotFound);
}

#[test]
fn asset_suffix_strips_the_mount() {
    assert_eq!(asset_suffix("/pkg/slint_test.js"), "slint_test.js");
    assert_eq!(asset_suffix("/pkg/sub/dir/file.bin"), "sub/dir/file.bin");
    assert_eq!(asset_suffix("/pkg/"), "");
}

#[test]
fn asset_key_cleanliness() {
    assert!(slint_test::http::asset_key_is_clean("slint_test.js"));
    assert!(slint_test::http::asset_key_is_clean("sub/dir/file.bin"));
    assert!(slint_test::http::asset_key_is_clean(""));
    assert!(slint_test::http::asset_key_is_clean("a..b"));
    assert!(slint_test::http::asset_key_is_clean("a..b.js"));
    assert!(!slint_test::http::asset_key_is_clean(".."));
    assert!(!slint_test::http::asset_key_is_clean("../secret"));
    assert!(!slint_test::http::asset_key_is_clean("a/../b"));
    assert!(!slint_test::http::asset_key_is_clean("a/.."));
}

#[test]
fn non_read_methods_are_rejected_on_routed_paths() {
    let page = Page::native();
    for path in ["/", "/health", "/pkg/app.js"] {
        let req = Request {
            method: "POST".to_string(),
            path: path.to_string(),
            headers: vec![],
        };
        let r = handle_request(&req, Some(vec![1, 2, 3]), &page);
        assert_eq!(r.status, 405);
        assert!(matches!(r.content, Content::Empty));
    }
    let req = Request { method: "DELETE".to_string(), path: "/health".to_string(), headers: vec![] };
    let r = handle_request(&req, None, &page);
    assert_eq!(r.status, 405);
}

#[test]
fn head_is_served_like_get() {
    let page = Page::native();
    let req = Request { method: "HEAD".to_string(), path: "/".to_string(), headers: vec![] };
    let r = handle_request(&req, None, &page);
    assert_eq!(r.status, 200);
    assert!(matches!(r.content, Content::Html(_)));
}

#[test]
fn asset_content_types_by_extension() {
    assert_eq!(slint_test::http::asset_content_type("slint_test.js"), "text/javascript");
    assert_eq!(slint_test::http::asset_content_type("loader.mjs"), "application/javascript");
    assert_eq!(slint_test::http::asset_content_type("slint_test_bg.wasm"), "application/wasm");
    assert_eq!(slint_test::http::asset_content_type("index.html"), "text/html");
    assert_eq!(slint_test::http::asset_content_type("style.css"), "text/css");
    assert_eq!(slint_test::http::asset_content_type("bundle.json"), "application/json");
    assert_eq!(slint_test::http::asset_content_type("data.bin"), "application/octet-stream");
    assert_eq!(slint_test::http::asset_content_type("js"), "application/octet-stream");
}
