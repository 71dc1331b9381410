use slint_test::html::brackets_balanced_check;
use slint_test::pages::Page;
use slint_test::window_size;

#[test]
fn native_page_has_document_shape() {
    let page = Page::native();
    let html = page.html_str();
    assert!(html.starts_with("<!DOCTYPE html><html>"));
    assert!(html.ends_with("</html>"));
    assert_eq!(html.matches("<div").count(), html.matches("</div>").count());
    assert_eq!(html.matches("<ul>").count(), html.matches("</ul>").count());
    assert_eq!(html.matches("<li>").count(), html.matches("</li>").count());
}

#[test]
fn native_page_describes_the_application() {
    let page = Page::native();
    let html = page.html_str();
    assert!(html.contains("<title>Slint Test Server</title>"));
    assert!(html.contains("Running on port 3000"));
    assert!(html.contains("Buttons with click handlers"));
    assert!(html.contains("Progress indicators"));
    assert!(html.contains("class=\"container\""));
}

#[test]
fn wasm_host_page_embeds_the_loader() {
    let page = Page::wasm_host();
    let html = page.html_str();
    assert!(html.starts_with("<!DOCTYPE html><html>"));
    assert!(html.ends_with("</html>"));
    assert!(html.contains("<script type=\"module\">"));
    assert!(html.contains("/pkg/slint_test.js"));
    assert!(html.contains("<canvas id=\"canvas\">"));
    assert!(html.contains("<meta charset=\"UTF-8\">"));
}

#[test]
fn wasm_host_page_escapes_text() {
    let page = Page::wasm_host();
    let html = page.html_str();
    assert!(html.contains("Axum &amp; WebAssembly"));
    assert!(!html.contains("Axum & WebAssembly"));
}

#[test]
fn pages_are_the_same_on_every_call() {
    assert_eq!(Page::native().html_str(), Page::native().html_str());
    assert_eq!(Page::wasm_host().html_str(), Page::wasm_host().html_str());
    assert_ne!(Page::native().html_str(), Page::wasm_host().html_str());
}

#[test]
fn native_page_holds_no_script() {
    let page = Page::native();
    let html = page.html_str();
    assert!(!html.contains("<script"));
    assert!(!html.contains("/pkg/"));
}

#[test]
fn pages_have_balanced_brackets() {
    assert!(brackets_balanced_check(Page::native().html_str()));
    assert!(brackets_balanced_check(Page::wasm_host().html_str()));
}

#[test]
fn bracket_checker_rejects_broken_markup() {
    assert!(brackets_balanced_check(""));
    assert!(brackets_balanced_check("a<b>c"));
    assert!(!brackets_balanced_check("<div"));
    assert!(!brackets_balanced_check("x>y"));
    assert!(!brackets_balanced_check("<<p>>"));
    assert!(brackets_balanced_check("<p></p>"));
}

#[test]
fn window_size_prefers_the_viewport() {
    assert_eq!(window_size(Some(800), Some(600)), (800, 600));
}

#[test]
fn window_size_falls_back_to_defaults() {
    assert_eq!(window_size(None, None), (1920, 1080));
    assert_eq!(window_size(Some(1024), None), (1024, 1080));
    assert_eq!(window_size(None, Some(768)), (1920, 768));
}
