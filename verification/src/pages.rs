//! The two fixed documents the root endpoint can serve: the status page of
//! the native build, and the hosting page of the WebAssembly build, which
//! embeds a script that loads the module and a canvas for it to draw on.
//!
//! Each document's full text is stated as a spec-level markup expression
//! (`native_page_md`, `wasm_page_md`), and the builders are proved to return
//! exactly that text; well-formedness follows from building the documents as
//! element trees and serialising them.

use vstd::prelude::*;
use crate::html::attr;
use crate::html::attr_md;
use crate::html::cons;
use crate::html::doctype;
use crate::html::elem;
use crate::html::elem_md;
use crate::html::escape;
use crate::html::html_name;
use crate::html::nil;
use crate::html::no_attrs;
use crate::html::render_document;
use crate::html::render_node;
use crate::html::render_nodes;
use crate::html::tag_md;
use crate::html::tag_text_md;
use crate::html::text;
use crate::html::well_formed_html;
use crate::html::wf_document;
use crate::html::wf_name;
use crate::html::wf_node;
use crate::html::wf_nodes;
use crate::html::Node;
use crate::html::NodeList;

verus! {

/// A serialised HTML document. The only constructors are the two page
/// builders below, so every value of this type holds the well-formed text
/// of one of the two documents.
pub struct Page {
    html: String,
}

impl Page {
    /// The characters of the page.
    pub closed spec fn spec_str(self) -> Seq<char> {
        self.html@
    }

    /// The page is well-formed markup.
    pub open spec fn wf(self) -> bool {
        well_formed_html(self.spec_str())
    }

    /// The serialised page.
    pub fn html_str(&self) -> (r: &String)
        ensures
            r@ == self.spec_str(),
    {
        &self.html
    }
}

/// The markup of a list item made of one `strong` span and a plain tail.
pub open spec fn li_pair_md(lead: Seq<char>, tail: Seq<char>) -> Seq<char> {
    tag_md("li"@, tag_text_md("strong"@, lead) + escape(tail))
}

/// The markup of a `div` carrying a `class` attribute.
pub open spec fn class_div_md(class_value: Seq<char>, inner: Seq<char>) -> Seq<char> {
    elem_md("div"@, attr_md("class"@, class_value), inner)
}

/// The style sheet of the native build's status page.
pub open spec fn native_css() -> Seq<char> {
    "body { font-family: Arial, sans-serif; max-width: 800px; margin: 50px auto; padding: 20px; background: linear-gradient(135deg, #667eea 0%, #764ba2 100%); color: white; } .container { background: rgba(255, 255, 255, 0.1); padding: 30px; border-radius: 10px; backdrop-filter: blur(10px); } h1 { margin-top: 0; } .status { background: rgba(46, 204, 113, 0.3); padding: 15px; border-radius: 5px; margin: 20px 0; } ul { line-height: 1.8; }"@
}

/// The head of the native status page: its title and style sheet.
#[verifier::opaque]
pub open spec fn native_head_md() -> Seq<char> {
    tag_md(
        "head"@,
        tag_text_md("title"@, "Slint Test Server"@) + tag_text_md("style"@, native_css()),
    )
}

/// The list of frameworks the application combines.
#[verifier::opaque]
pub open spec fn native_frameworks_md() -> Seq<char> {
    li_pair_md("Slint UI"@, " - A native desktop UI framework"@) + li_pair_md(
        "Axum"@,
        " - A modern web server framework"@,
    ) + li_pair_md("Tokio"@, " - An asynchronous runtime"@)
}

/// The list of UI components the desktop window offers.
#[verifier::opaque]
pub open spec fn native_components_md() -> Seq<char> {
    tag_text_md("li"@, "Buttons with click handlers"@) + tag_text_md(
        "li"@,
        "Text input fields (LineEdit)"@,
    ) + tag_text_md("li"@, "CheckBoxes with state binding"@) + tag_text_md(
        "li"@,
        "Sliders with value display"@,
    ) + tag_text_md("li"@, "SpinBox for numeric input"@) + tag_text_md(
        "li"@,
        "ComboBox with multiple options"@,
    ) + tag_text_md("li"@, "Colored rectangles and visual elements"@) + tag_text_md(
        "li"@,
        "TabWidget for component organization"@,
    ) + tag_text_md("li"@, "Progress indicators"@)
}

/// The body container of the native status page: the heading, the running
/// status naming port 3000, and the two descriptive lists. It holds no
/// script element and references no asset.
#[verifier::opaque]
pub open spec fn native_container_md() -> Seq<char> {
    class_div_md(
        "container"@,
        tag_text_md("h1"@, "Slint Test Web Server"@) + class_div_md(
            "status"@,
            tag_text_md("strong"@, "Server Status:"@) + escape(" Running on port 3000"@),
        ) + tag_text_md("h2"@, "About This Application"@) + tag_text_md(
            "p"@,
            "This is a Rust application that combines:"@,
        ) + tag_md("ul"@, native_frameworks_md()) + tag_text_md("h2"@, "UI Components"@)
            + tag_text_md("p"@, "The Slint desktop UI includes various components for testing:"@)
            + tag_md("ul"@, native_components_md()) + tag_text_md(
            "p"@,
            "Check the desktop window to interact with all components!"@,
        ),
    )
}

/// The root element of the native status page: one head, one body.
#[verifier::opaque]
pub open spec fn native_root_md() -> Seq<char> {
    tag_md("html"@, native_head_md() + tag_md("body"@, native_container_md()))
}

/// The full text of the native build's status page.
#[verifier::opaque]
pub open spec fn native_page_md() -> Seq<char> {
    doctype() + native_root_md()
}

/// The style sheet of the WebAssembly hosting page.
pub open spec fn wasm_css() -> Seq<char> {
    "body { font-family: Arial, sans-serif; margin: 0; padding: 0; background: linear-gradient(135deg, #667eea 0%, #764ba2 100%); min-height: 100vh; display: flex; flex-direction: column; } .header { background: rgba(255, 255, 255, 0.1); padding: 20px; text-align: center; color: white; backdrop-filter: blur(10px); } .header h1 { margin: 0 0 10px 0; font-size: 32px; } .header p { margin: 5px 0; opacity: 0.9; } .app-container { flex: 1; display: flex; justify-content: center; align-items: center; padding: 20px; } #slint-app { background: white; border-radius: 10px; box-shadow: 0 10px 40px rgba(0,0,0,0.3); overflow: hidden; } .info { background: rgba(255, 255, 255, 0.1); color: white; padding: 15px; text-align: center; backdrop-filter: blur(10px); }"@
}

/// The loader script of the hosting page: it imports the module's
/// initialiser from the asset mount and invokes it.
pub open spec fn wasm_loader_js() -> Seq<char> {
    "import init from '/pkg/slint_test.js'; async function run() { await init(); } run().catch(console.error);"@
}

/// The head of the hosting page: charset, title and style sheet.
#[verifier::opaque]
pub open spec fn wasm_head_md() -> Seq<char> {
    tag_md(
        "head"@,
        elem_md("meta"@, attr_md("charset"@, "UTF-8"@), Seq::<char>::empty()) + tag_text_md(
            "title"@,
            "Slint Test Application"@,
        ) + tag_text_md("style"@, wasm_css()),
    )
}

/// The body of the hosting page: a header, the canvas the module is mounted
/// on inside the application container, an info strip, and the loader
/// script element.
#[verifier::opaque]
pub open spec fn wasm_body_md() -> Seq<char> {
    tag_md(
        "body"@,
        class_div_md(
            "header"@,
            tag_text_md("h1"@, "Slint Test Application"@) + tag_text_md(
                "p"@,
                "Interactive Browser-Based UI Components"@,
            ),
        ) + class_div_md(
            "app-container"@,
            elem_md(
                "div"@,
                attr_md("id"@, "slint-app"@),
                elem_md("canvas"@, attr_md("id"@, "canvas"@), Seq::<char>::empty()),
            ),
        ) + class_div_md(
            "info"@,
            tag_text_md("p"@, "Web Server Running | Built with Slint, Rust, Axum & WebAssembly"@),
        ) + elem_md("script"@, attr_md("type"@, "module"@), escape(wasm_loader_js())),
    )
}

/// The root element of the hosting page: one head, one body.
#[verifier::opaque]
pub open spec fn wasm_root_md() -> Seq<char> {
    tag_md("html"@, wasm_head_md() + wasm_body_md())
}

/// The full text of the WebAssembly hosting page.
#[verifier::opaque]
pub open spec fn wasm_page_md() -> Seq<char> {
    doctype() + wasm_root_md()
}

/// Every tag and attribute name the two pages use is a valid name.
proof fn lemma_names_ok()
    ensures
        wf_name("html"@),
        wf_name("head"@),
        wf_name("meta"@),
        wf_name("title"@),
        wf_name("style"@),
        wf_name("body"@),
        wf_name("div"@),
        wf_name("h1"@),
        wf_name("h2"@),
        wf_name("p"@),
        wf_name("strong"@),
        wf_name("ul"@),
        wf_name("li"@),
        wf_name("script"@),
        wf_name("canvas"@),
        wf_name("class"@),
        wf_name("id"@),
        wf_name("charset"@),
        wf_name("type"@),
{
    reveal_strlit("html");
    reveal_strlit("head");
    reveal_strlit("meta");
    reveal_strlit("title");
    reveal_strlit("style");
    reveal_strlit("body");
    reveal_strlit("div");
    reveal_strlit("h1");
    reveal_strlit("h2");
    reveal_strlit("p");
    reveal_strlit("strong");
    reveal_strlit("ul");
    reveal_strlit("li");
    reveal_strlit("script");
    reveal_strlit("canvas");
    reveal_strlit("class");
    reveal_strlit("id");
    reveal_strlit("charset");
    reveal_strlit("type");
}

/// An element with no attributes.
fn tag(name: &str, kids: NodeList) -> (n: Node)
    requires
        wf_name(name@),
        wf_nodes(kids),
    ensures
        wf_node(n),
        render_node(n) == tag_md(name@, render_nodes(kids)),
{
    elem(name, no_attrs(), kids)
}

/// An element with no attributes holding one text child.
fn tag_text(name: &str, s: &str) -> (n: Node)
    requires
        wf_name(name@),
    ensures
        wf_node(n),
        render_node(n) == tag_text_md(name@, s@),
{
    let kids = cons(text(s), nil());
    let n = elem(name, no_attrs(), kids);
    proof {
        assert(render_nodes(kids) =~= escape(s@));
    }
    n
}

/// A `div` carrying a `class` attribute.
fn class_div(class_value: &str, kids: NodeList) -> (n: Node)
    requires
        wf_nodes(kids),
    ensures
        wf_node(n),
        render_node(n) == class_div_md(class_value@, render_nodes(kids)),
{
    proof {
        lemma_names_ok();
    }
    let attrs = attr("class", class_value, no_attrs());
    let n = elem("div", attrs, kids);
    proof {
        assert(crate::html::render_attrs(attrs) =~= attr_md("class"@, class_value@));
    }
    n
}

/// A list item made of one `strong` span followed by plain text.
fn li_pair(lead: &str, tail: &str) -> (n: Node)
    ensures
        wf_node(n),
        render_node(n) == li_pair_md(lead@, tail@),
{
    proof {
        lemma_names_ok();
    }
    let kids = cons(tag_text("strong", lead), cons(text(tail), nil()));
    let n = elem("li", no_attrs(), kids);
    proof {
        assert(render_nodes(kids) =~= tag_text_md("strong"@, lead@) + escape(tail@));
    }
    n
}

/// A plain-text list item.
fn li_text(s: &str) -> (n: Node)
    ensures
        wf_node(n),
        render_node(n) == tag_text_md("li"@, s@),
{
    proof {
        lemma_names_ok();
    }
    tag_text("li", s)
}

/// The framework list of the native status page.
fn native_frameworks() -> (l: NodeList)
    ensures
        wf_nodes(l),
        render_nodes(l) == native_frameworks_md(),
{
    let frameworks = cons(
        li_pair("Slint UI", " - A native desktop UI framework"),
        cons(
            li_pair("Axum", " - A modern web server framework"),
            cons(li_pair("Tokio", " - An asynchronous runtime"), nil()),
        ),
    );
    proof {
        reveal(native_frameworks_md);
        assert(render_nodes(frameworks) =~= native_frameworks_md());
    }
    frameworks
}

/// The component list of the native status page.
fn native_components() -> (l: NodeList)
    ensures
        wf_nodes(l),
        render_nodes(l) == native_components_md(),
{
    let components = cons(
        li_text("Buttons with click handlers"),
        cons(
            li_text("Text input fields (LineEdit)"),
            cons(
                li_text("CheckBoxes with state binding"),
                cons(
                    li_text("Sliders with value display"),
                    cons(
                        li_text("SpinBox for numeric input"),
                        cons(
                            li_text("ComboBox with multiple options"),
                            cons(
                                li_text("Colored rectangles and visual elements"),
                                cons(
                                    li_text("TabWidget for component organization"),
                                    cons(li_text("Progress indicators"), nil()),
                                ),
                            ),
                        ),
                    ),
                ),
            ),
        ),
    );
    proof {
        reveal(native_components_md);
        assert(render_nodes(components) =~= native_components_md());
    }
    components
}

/// The body container of the native status page.
#[verifier::rlimit(80)]
fn native_container() -> (n: Node)
    ensures
        wf_node(n),
        render_node(n) == native_container_md(),
{
    proof {
        lemma_names_ok();
    }
    let status_kids = cons(
        tag_text("strong", "Server Status:"),
        cons(text(" Running on port 3000"), nil()),
    );
    proof {
        assert(render_nodes(status_kids) =~= tag_text_md("strong"@, "Server Status:"@) + escape(
            " Running on port 3000"@,
        ));
    }
    let status = class_div("status", status_kids);
    let container_kids = cons(
        tag_text("h1", "Slint Test Web Server"),
        cons(
            status,
            cons(
                tag_text("h2", "About This Application"),
                cons(
                    tag_text("p", "This is a Rust application that combines:"),
                    cons(
                        tag("ul", native_frameworks()),
                        cons(
                            tag_text("h2", "UI Components"),
                            cons(
                                tag_text(
                                    "p",
                                    "The Slint desktop UI includes various components for testing:",
                                ),
                                cons(
                                    tag("ul", native_components()),
                                    cons(
                                        tag_text(
                                            "p",
                                            "Check the desktop window to interact with all components!",
                                        ),
                                        nil(),
                                    ),
                                ),
                            ),
                        ),
                    ),
                ),
            ),
        ),
    );
    let container = class_div("container", container_kids);
    proof {
        reveal(native_container_md);
        assert(render_nodes(container_kids) =~= tag_text_md("h1"@, "Slint Test Web Server"@)
            + class_div_md(
            "status"@,
            tag_text_md("strong"@, "Server Status:"@) + escape(" Running on port 3000"@),
        ) + tag_text_md("h2"@, "About This Application"@) + tag_text_md(
            "p"@,
            "This is a Rust application that combines:"@,
        ) + tag_md("ul"@, native_frameworks_md()) + tag_text_md("h2"@, "UI Components"@)
            + tag_text_md("p"@, "The Slint desktop UI includes various components for testing:"@)
            + tag_md("ul"@, native_components_md()) + tag_text_md(
            "p"@,
            "Check the desktop window to interact with all components!"@,
        ));
        assert(render_node(container) == native_container_md());
    }
    container
}

/// The head of the native status page.
fn native_head() -> (n: Node)
    ensures
        wf_node(n),
        render_node(n) == native_head_md(),
{
    proof {
        lemma_names_ok();
    }
    let head_kids = cons(
        tag_text("title", "Slint Test Server"),
        cons(
            tag_text(
                "style",
                "body { font-family: Arial, sans-serif; max-width: 800px; margin: 50px auto; padding: 20px; background: linear-gradient(135deg, #667eea 0%, #764ba2 100%); color: white; } .container { background: rgba(255, 255, 255, 0.1); padding: 30px; border-radius: 10px; backdrop-filter: blur(10px); } h1 { margin-top: 0; } .status { background: rgba(46, 204, 113, 0.3); padding: 15px; border-radius: 5px; margin: 20px 0; } ul { line-height: 1.8; }",
            ),
            nil(),
        ),
    );
    let head = tag("head", head_kids);
    proof {
        reveal(native_head_md);
        assert(render_nodes(head_kids) =~= tag_text_md("title"@, "Slint Test Server"@)
            + tag_text_md("style"@, native_css()));
    }
    head
}

/// The document tree of the native build's status page.
fn native_root() -> (n: Node)
    ensures
        wf_document(n),
        render_node(n) == native_root_md(),
{
    proof {
        lemma_names_ok();
    }
    let head = native_head();
    let body_kids = cons(native_container(), nil());
    let page_body = tag("body", body_kids);
    proof {
        assert(render_nodes(body_kids) =~= native_container_md());
    }
    let root_kids = cons(head, cons(page_body, nil()));
    let root = elem("html", no_attrs(), root_kids);
    proof {
        reveal(native_root_md);
        reveal_strlit("html");
        assert("html"@ =~= html_name());
        assert(render_nodes(root_kids) =~= native_head_md() + tag_md(
            "body"@,
            native_container_md(),
        ));
        assert(render_node(root) == native_root_md());
    }
    root
}

/// The document tree of the page that hosts the WebAssembly build: a header,
/// a canvas for the module to draw on, and the script that loads it.
#[verifier::rlimit(80)]
fn wasm_host_root() -> (n: Node)
    ensures
        wf_document(n),
        render_node(n) == wasm_root_md(),
{
    proof {
        lemma_names_ok();
    }
    let meta_attrs = attr("charset", "UTF-8", no_attrs());
    let meta = elem("meta", meta_attrs, nil());
    proof {
        assert(crate::html::render_attrs(meta_attrs) =~= attr_md("charset"@, "UTF-8"@));
    }
    let head_kids = cons(
        meta,
        cons(
            tag_text("title", "Slint Test Application"),
            cons(
                tag_text(
                    "style",
                    "body { font-family: Arial, sans-serif; margin: 0; padding: 0; background: linear-gradient(135deg, #667eea 0%, #764ba2 100%); min-height: 100vh; display: flex; flex-direction: column; } .header { background: rgba(255, 255, 255, 0.1); padding: 20px; text-align: center; color: white; backdrop-filter: blur(10px); } .header h1 { margin: 0 0 10px 0; font-size: 32px; } .header p { margin: 5px 0; opacity: 0.9; } .app-container { flex: 1; display: flex; justify-content: center; align-items: center; padding: 20px; } #slint-app { background: white; border-radius: 10px; box-shadow: 0 10px 40px rgba(0,0,0,0.3); overflow: hidden; } .info { background: rgba(255, 255, 255, 0.1); color: white; padding: 15px; text-align: center; backdrop-filter: blur(10px); }",
                ),
                nil(),
            ),
        ),
    );
    let head = tag("head", head_kids);
    proof {
        assert(render_node(meta) == elem_md(
            "meta"@,
            attr_md("charset"@, "UTF-8"@),
            Seq::<char>::empty(),
        ));
        reveal(wasm_head_md);
        assert(render_nodes(head_kids) =~= elem_md(
            "meta"@,
            attr_md("charset"@, "UTF-8"@),
            Seq::<char>::empty(),
        ) + tag_text_md("title"@, "Slint Test Application"@) + tag_text_md("style"@, wasm_css()));
        assert(render_node(head) == wasm_head_md());
    }
    let header_kids = cons(
        tag_text("h1", "Slint Test Application"),
        cons(tag_text("p", "Interactive Browser-Based UI Components"), nil()),
    );
    let header = class_div("header", header_kids);
    proof {
        assert(render_nodes(header_kids) =~= tag_text_md("h1"@, "Slint Test Application"@)
            + tag_text_md("p"@, "Interactive Browser-Based UI Components"@));
    }
    let canvas_attrs = attr("id", "canvas", no_attrs());
    let canvas = elem("canvas", canvas_attrs, nil());
    proof {
        assert(crate::html::render_attrs(canvas_attrs) =~= attr_md("id"@, "canvas"@));
        assert(render_node(canvas) == elem_md(
            "canvas"@,
            attr_md("id"@, "canvas"@),
            Seq::<char>::empty(),
        ));
    }
    let canvas_kids = cons(canvas, nil());
    let slint_app_attrs = attr("id", "slint-app", no_attrs());
    let slint_app = elem("div", slint_app_attrs, canvas_kids);
    proof {
        assert(crate::html::render_attrs(slint_app_attrs) =~= attr_md("id"@, "slint-app"@));
        assert(render_nodes(canvas_kids) =~= elem_md(
            "canvas"@,
            attr_md("id"@, "canvas"@),
            Seq::<char>::empty(),
        ));
    }
    let app_kids = cons(slint_app, nil());
    let app_container = class_div("app-container", app_kids);
    proof {
        assert(render_nodes(app_kids) =~= elem_md(
            "div"@,
            attr_md("id"@, "slint-app"@),
            elem_md("canvas"@, attr_md("id"@, "canvas"@), Seq::<char>::empty()),
        ));
    }
    let info_kids = cons(
        tag_text("p", "Web Server Running | Built with Slint, Rust, Axum & WebAssembly"),
        nil(),
    );
    let info = class_div("info", info_kids);
    proof {
        assert(render_nodes(info_kids) =~= tag_text_md(
            "p"@,
            "Web Server Running | Built with Slint, Rust, Axum & WebAssembly"@,
        ));
    }
    let loader_kids = cons(
        text(
            "import init from '/pkg/slint_test.js'; async function run() { await init(); } run().catch(console.error);",
        ),
        nil(),
    );
    let loader_attrs = attr("type", "module", no_attrs());
    let loader = elem("script", loader_attrs, loader_kids);
    proof {
        assert(crate::html::render_attrs(loader_attrs) =~= attr_md("type"@, "module"@));
        assert(render_nodes(loader_kids) =~= escape(wasm_loader_js()));
        assert(render_node(loader) == elem_md(
            "script"@,
            attr_md("type"@, "module"@),
            escape(wasm_loader_js()),
        ));
    }
    let body_kids = cons(header, cons(app_container, cons(info, cons(loader, nil()))));
    let page_body = tag("body", body_kids);
    proof {
        reveal(wasm_body_md);
        assert(render_nodes(body_kids) =~= class_div_md(
            "header"@,
            tag_text_md("h1"@, "Slint Test Application"@) + tag_text_md(
                "p"@,
                "Interactive Browser-Based UI Components"@,
            ),
        ) + class_div_md(
            "app-container"@,
            elem_md(
                "div"@,
                attr_md("id"@, "slint-app"@),
                elem_md("canvas"@, attr_md("id"@, "canvas"@), Seq::<char>::empty()),
            ),
        ) + class_div_md(
            "info"@,
            tag_text_md("p"@, "Web Server Running | Built with Slint, Rust, Axum & WebAssembly"@),
        ) + elem_md("script"@, attr_md("type"@, "module"@), escape(wasm_loader_js())));
        assert(render_node(page_body) == wasm_body_md());
    }
    let root_kids = cons(head, cons(page_body, nil()));
    let root = elem("html", no_attrs(), root_kids);
    proof {
        reveal(wasm_root_md);
        reveal_strlit("html");
        assert("html"@ =~= html_name());
        assert(render_nodes(root_kids) =~= wasm_head_md() + wasm_body_md());
        assert(render_node(root) == wasm_root_md());
    }
    root
}

impl Page {
    /// The status page the native build serves at the root: exactly the text
    /// of `native_page_md`, the same on every call — a styled description of
    /// the application that names port 3000 and holds no script element.
    pub fn native() -> (p: Page)
        ensures
            p.wf(),
            p.spec_str() == native_page_md(),
    {
        let root = native_root();
        let s = render_document(&root);
        proof {
            reveal(native_page_md);
        }
        Page { html: s }
    }

    /// The page the WebAssembly build's server serves at the root: exactly
    /// the text of `wasm_page_md`, the same on every call — it embeds the
    /// script element that loads the module from the asset mount and the
    /// canvas it is mounted on.
    pub fn wasm_host() -> (p: Page)
        ensures
            p.wf(),
            p.spec_str() == wasm_page_md(),
    {
        let root = wasm_host_root();
        let s = render_document(&root);
        proof {
            reveal(wasm_page_md);
        }
        Page { html: s }
    }
}

} // verus!
