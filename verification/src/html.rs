//! A small model of HTML documents: an element tree with attributes and text,
//! a renderer that serialises a tree to markup, and a definition of
//! syntactically well-formed markup as exactly the renderings of such trees.
//!
//! Text and attribute values are escaped during rendering, so any string may
//! appear in them; tag and attribute names are restricted to lower-case
//! letters, digits and hyphens, which keeps every rendering properly nested
//! and unambiguous.

use vstd::prelude::*;

verus! {

/// A character allowed in a tag or attribute name.
pub open spec fn is_name_char(c: char) -> bool {
    ('a' <= c && c <= 'z') || ('0' <= c && c <= '9') || c == '-'
}

/// A valid tag or attribute name: nonempty, made of name characters only.
pub open spec fn wf_name(s: Seq<char>) -> bool {
    s.len() > 0 && forall|i: int| 0 <= i < s.len() ==> is_name_char(#[trigger] s[i])
}

/// An attribute list: each entry is a name and a value.
pub enum AttrList {
    ANil,
    ACons { name: String, value: String, rest: Box<AttrList> },
}

/// A node of the document tree: raw text, or an element with attributes
/// and children.
pub enum Node {
    Text(String),
    Elem { name: String, attrs: AttrList, kids: NodeList },
}

/// A list of sibling nodes.
pub enum NodeList {
    Nil,
    Cons { first: Box<Node>, rest: Box<NodeList> },
}

/// Every attribute name in the list is a valid name.
pub open spec fn wf_attrs(l: AttrList) -> bool
    decreases l,
{
    match l {
        AttrList::ANil => true,
        AttrList::ACons { name, value: _, rest } => wf_name(name@) && wf_attrs(*rest),
    }
}

/// Every element in the tree has a valid name and valid attributes.
pub open spec fn wf_node(n: Node) -> bool
    decreases n,
{
    match n {
        Node::Text(_) => true,
        Node::Elem { name, attrs, kids } => wf_name(name@) && wf_attrs(attrs) && wf_nodes(kids),
    }
}

/// Every node of the list is well formed.
pub open spec fn wf_nodes(l: NodeList) -> bool
    decreases l,
{
    match l {
        NodeList::Nil => true,
        NodeList::Cons { first, rest } => wf_node(*first) && wf_nodes(*rest),
    }
}

/// The escaping of one character: the four markup characters become
/// entities, every other character stands for itself.
pub open spec fn escape_char(c: char) -> Seq<char> {
    if c == '<' {
        seq!['&', 'l', 't', ';']
    } else if c == '>' {
        seq!['&', 'g', 't', ';']
    } else if c == '&' {
        seq!['&', 'a', 'm', 'p', ';']
    } else if c == '"' {
        seq!['&', 'q', 'u', 'o', 't', ';']
    } else {
        seq![c]
    }
}

/// The escaping of a string, character by character.
pub open spec fn escape(s: Seq<char>) -> Seq<char>
    decreases s.len(),
{
    if s.len() == 0 {
        Seq::<char>::empty()
    } else {
        escape_char(s[0]) + escape(s.drop_first())
    }
}

/// The rendering of an attribute list: ` name="value"` for each entry,
/// values escaped.
pub open spec fn render_attrs(l: AttrList) -> Seq<char>
    decreases l,
{
    match l {
        AttrList::ANil => Seq::<char>::empty(),
        AttrList::ACons { name, value, rest } => seq![' '] + name@ + seq!['=', '"'] + escape(
            value@,
        ) + seq!['"'] + render_attrs(*rest),
    }
}

/// The rendering of a node: escaped text, or an open tag, the children,
/// and the matching close tag.
pub open spec fn render_node(n: Node) -> Seq<char>
    decreases n,
{
    match n {
        Node::Text(t) => escape(t@),
        Node::Elem { name, attrs, kids } => seq!['<'] + name@ + render_attrs(attrs) + seq!['>']
            + render_nodes(kids) + seq!['<', '/'] + name@ + seq!['>'],
    }
}

/// The rendering of a list of siblings, in order.
pub open spec fn render_nodes(l: NodeList) -> Seq<char>
    decreases l,
{
    match l {
        NodeList::Nil => Seq::<char>::empty(),
        NodeList::Cons { first, rest } => render_node(*first) + render_nodes(*rest),
    }
}

/// The markup of one attribute: a space, the name, `="`, the escaped value,
/// and the closing quote.
pub open spec fn attr_md(name: Seq<char>, value: Seq<char>) -> Seq<char> {
    seq![' '] + name + seq!['=', '"'] + escape(value) + seq!['"']
}

/// The markup of an element: the open tag carrying the attributes' markup,
/// the inner markup, and the matching close tag.
pub open spec fn elem_md(name: Seq<char>, attrs_md: Seq<char>, inner: Seq<char>) -> Seq<char> {
    seq!['<'] + name + attrs_md + seq!['>'] + inner + seq!['<', '/'] + name + seq!['>']
}

/// The markup of an element with no attributes.
pub open spec fn tag_md(name: Seq<char>, inner: Seq<char>) -> Seq<char> {
    elem_md(name, Seq::<char>::empty(), inner)
}

/// The markup of an element with no attributes holding one escaped text.
pub open spec fn tag_text_md(name: Seq<char>, s: Seq<char>) -> Seq<char> {
    elem_md(name, Seq::<char>::empty(), escape(s))
}

/// The document type declaration that opens every document.
pub open spec fn doctype() -> Seq<char> {
    seq!['<', '!', 'D', 'O', 'C', 'T', 'Y', 'P', 'E', ' ', 'h', 't', 'm', 'l', '>']
}

/// The name of the root element of a document.
pub open spec fn html_name() -> Seq<char> {
    seq!['h', 't', 'm', 'l']
}

/// A well-formed document tree: a well-formed element whose name is `html`.
pub open spec fn wf_document(root: Node) -> bool {
    wf_node(root) && (root matches Node::Elem { name, attrs: _, kids: _ } && name@ == html_name())
}

/// Syntactically well-formed markup: the document type declaration followed
/// by the rendering of some well-formed document tree. Every such string has
/// properly nested, matching tags.
pub open spec fn well_formed_html(s: Seq<char>) -> bool {
    exists|root: Node| #[trigger] wf_document(root) && s == doctype() + render_node(root)
}

/// A string with no angle bracket in it.
pub open spec fn bracket_free(s: Seq<char>) -> bool {
    forall|i: int| 0 <= i < s.len() ==> (#[trigger] s[i] != '<' && s[i] != '>')
}

/// Scans a string for angle brackets: `inside` says whether a tag is open.
/// The result is the state after the string, or nothing when a bracket is
/// out of place (a `<` inside a tag, a `>` outside one).
pub open spec fn scan(s: Seq<char>, inside: bool) -> Option<bool>
    decreases s.len(),
{
    if s.len() == 0 {
        Some(inside)
    } else if s[0] == '<' {
        if inside {
            None
        } else {
            scan(s.drop_first(), true)
        }
    } else if s[0] == '>' {
        if inside {
            scan(s.drop_first(), false)
        } else {
            None
        }
    } else {
        scan(s.drop_first(), inside)
    }
}

/// Balanced markup punctuation: scanned from outside a tag, the string ends
/// outside a tag, with every `<` closed by a `>` before the next `<`.
pub open spec fn brackets_balanced(s: Seq<char>) -> bool {
    scan(s, false) == Some(false)
}

/// Scanning a concatenation scans the first part, then the second from the
/// state the first part left.
proof fn lemma_scan_concat(a: Seq<char>, b: Seq<char>, inside: bool)
    ensures
        scan(a + b, inside) == (match scan(a, inside) {
            Some(mid) => scan(b, mid),
            None => None::<bool>,
        }),
    decreases a.len(),
{
    if a.len() == 0 {
        assert(a + b =~= b);
    } else {
        assert((a + b)[0] == a[0]);
        assert((a + b).drop_first() =~= a.drop_first() + b);
        lemma_scan_concat(a.drop_first(), b, inside);
        if a[0] == '<' {
            if !inside {
                lemma_scan_concat(a.drop_first(), b, true);
            }
        } else if a[0] == '>' {
            if inside {
                lemma_scan_concat(a.drop_first(), b, false);
            }
        }
    }
}

/// A string without brackets leaves the scanner where it found it.
proof fn lemma_scan_bracket_free(s: Seq<char>, inside: bool)
    requires
        bracket_free(s),
    ensures
        scan(s, inside) == Some(inside),
    decreases s.len(),
{
    if s.len() > 0 {
        assert(bracket_free(s.drop_first())) by {
            assert(forall|i: int|
                0 <= i < s.drop_first().len() ==> s.drop_first()[i] == s[i + 1]);
        }
        lemma_scan_bracket_free(s.drop_first(), inside);
    }
}

/// Escaping leaves no bracket behind: the escaped form of any string is
/// bracket free.
proof fn lemma_escape_bracket_free(s: Seq<char>)
    ensures
        bracket_free(escape(s)),
    decreases s.len(),
{
    if s.len() > 0 {
        lemma_escape_bracket_free(s.drop_first());
        assert(bracket_free(escape_char(s[0])));
        assert(forall|i: int|
            0 <= i < escape(s).len() ==> (#[trigger] escape(s)[i] != '<' && escape(s)[i] != '>'))
            by {
            let head = escape_char(s[0]);
            let tail = escape(s.drop_first());
            assert(escape(s) == head + tail);
            assert(forall|i: int| 0 <= i < head.len() ==> (head + tail)[i] == head[i]);
            assert(forall|i: int|
                head.len() <= i < head.len() + tail.len() ==> (head + tail)[i] == tail[
                    i - head.len()
                ]);
        }
    }
}

/// A valid name is bracket free.
proof fn lemma_name_bracket_free(s: Seq<char>)
    requires
        wf_name(s),
    ensures
        bracket_free(s),
{
}

/// The rendering of a well-formed attribute list is bracket free.
proof fn lemma_attrs_bracket_free(l: AttrList)
    requires
        wf_attrs(l),
    ensures
        bracket_free(render_attrs(l)),
    decreases l,
{
    match l {
        AttrList::ANil => {},
        AttrList::ACons { name, value, rest } => {
            lemma_name_bracket_free(name@);
            lemma_escape_bracket_free(value@);
            lemma_attrs_bracket_free(*rest);
            let whole = render_attrs(l);
            assert(forall|i: int|
                0 <= i < whole.len() ==> (#[trigger] whole[i] != '<' && whole[i] != '>')) by {
                let p1 = seq![' '] + name@ + seq!['=', '"'] + escape(value@) + seq!['"'];
                assert(whole == p1 + render_attrs(*rest));
                assert(forall|i: int|
                    0 <= i < whole.len() ==> whole[i] == if i < p1.len() {
                        p1[i]
                    } else {
                        render_attrs(*rest)[i - p1.len()]
                    });
            }
        },
    }
}

/// The rendering of a well-formed node scans cleanly from outside a tag to
/// outside a tag.
proof fn lemma_render_node_balanced(n: Node)
    requires
        wf_node(n),
    ensures
        scan(render_node(n), false) == Some(false),
    decreases n,
{
    match n {
        Node::Text(t) => {
            lemma_escape_bracket_free(t@);
            lemma_scan_bracket_free(escape(t@), false);
        },
        Node::Elem { name, attrs, kids } => {
            lemma_name_bracket_free(name@);
            lemma_attrs_bracket_free(attrs);
            lemma_render_nodes_balanced(kids);
            let s1 = seq!['<'];
            let s2 = seq!['>'];
            let s3 = seq!['<', '/'];
            let a1 = s1 + name@;
            let a2 = a1 + render_attrs(attrs);
            let a3 = a2 + s2;
            let a4 = a3 + render_nodes(kids);
            let a5 = a4 + s3;
            let a6 = a5 + name@;
            let whole = a6 + s2;
            assert(render_node(n) == whole);
            assert(s1.drop_first() =~= Seq::<char>::empty());
            assert(scan(Seq::<char>::empty(), true) == Some(true));
            assert(scan(s1, false) == Some(true));
            lemma_scan_concat(s1, name@, false);
            lemma_scan_bracket_free(name@, true);
            assert(scan(a1, false) == Some(true));
            lemma_scan_concat(a1, render_attrs(attrs), false);
            lemma_scan_bracket_free(render_attrs(attrs), true);
            assert(scan(a2, false) == Some(true));
            assert(s2.drop_first() =~= Seq::<char>::empty());
            assert(scan(Seq::<char>::empty(), false) == Some(false));
            assert(scan(s2, true) == Some(false));
            lemma_scan_concat(a2, s2, false);
            assert(scan(a3, false) == Some(false));
            lemma_scan_concat(a3, render_nodes(kids), false);
            assert(scan(a4, false) == Some(false));
            assert(s3.drop_first() =~= seq!['/']);
            assert(seq!['/'].drop_first() =~= Seq::<char>::empty());
            assert(scan(seq!['/'], true) == Some(true));
            assert(scan(s3, false) == Some(true));
            lemma_scan_concat(a4, s3, false);
            assert(scan(a5, false) == Some(true));
            lemma_scan_concat(a5, name@, false);
            assert(scan(a6, false) == Some(true));
            lemma_scan_concat(a6, s2, false);
            assert(scan(whole, false) == Some(false));
        },
    }
}

/// The rendering of a list of well-formed nodes scans cleanly as well.
proof fn lemma_render_nodes_balanced(l: NodeList)
    requires
        wf_nodes(l),
    ensures
        scan(render_nodes(l), false) == Some(false),
    decreases l,
{
    match l {
        NodeList::Nil => {},
        NodeList::Cons { first, rest } => {
            lemma_render_node_balanced(*first);
            lemma_render_nodes_balanced(*rest);
            lemma_scan_concat(render_node(*first), render_nodes(*rest), false);
        },
    }
}

/// The document type declaration scans cleanly.
proof fn lemma_doctype_balanced()
    ensures
        scan(doctype(), false) == Some(false),
{
    let mid = seq!['!', 'D', 'O', 'C', 'T', 'Y', 'P', 'E', ' ', 'h', 't', 'm', 'l'];
    assert(doctype() =~= seq!['<'] + mid + seq!['>']);
    assert(bracket_free(mid));
    assert(seq!['<'].drop_first() =~= Seq::<char>::empty());
    assert(scan(Seq::<char>::empty(), true) == Some(true));
    assert(scan(seq!['<'], false) == Some(true));
    lemma_scan_concat(seq!['<'], mid, false);
    lemma_scan_bracket_free(mid, true);
    assert(scan(seq!['<'] + mid, false) == Some(true));
    assert(seq!['>'].drop_first() =~= Seq::<char>::empty());
    assert(scan(Seq::<char>::empty(), false) == Some(false));
    assert(scan(seq!['>'], true) == Some(false));
    lemma_scan_concat(seq!['<'] + mid, seq!['>'], false);
}

/// Well-formed markup has balanced punctuation: scanned from left to right,
/// every `<` opens a tag that a `>` closes before the next `<`, and the
/// document ends with every tag bracket closed.
pub proof fn lemma_well_formed_brackets(s: Seq<char>)
    requires
        well_formed_html(s),
    ensures
        brackets_balanced(s),
{
    let root = choose|root: Node|
        #[trigger] wf_document(root) && s == doctype() + render_node(root);
    lemma_render_node_balanced(root);
    lemma_doctype_balanced();
    lemma_scan_concat(doctype(), render_node(root), false);
}

/// Decides `brackets_balanced` for a string slice.
pub fn brackets_balanced_check(s: &str) -> (r: bool)
    ensures
        r == brackets_balanced(s@),
{
    let n = s.unicode_len();
    let mut i: usize = 0;
    let mut inside = false;
    proof {
        assert(s@.skip(0) =~= s@);
    }
    while i < n
        invariant
            n == s@.len(),
            i <= n,
            scan(s@, false) == scan(s@.skip(i as int), inside),
        decreases n - i,
    {
        let c = s.get_char(i);
        proof {
            assert(s@.skip(i as int)[0] == s@[i as int]);
            assert(s@.skip(i as int).drop_first() =~= s@.skip(i as int + 1));
        }
        if c == '<' {
            if inside {
                proof {
                    assert(scan(s@.skip(i as int), inside) == None::<bool>);
                }
                return false;
            }
            inside = true;
        } else if c == '>' {
            if !inside {
                proof {
                    assert(scan(s@.skip(i as int), inside) == None::<bool>);
                }
                return false;
            }
            inside = false;
        }
        i = i + 1;
    }
    proof {
        assert(s@.skip(n as int) =~= Seq::<char>::empty());
    }
    !inside
}

/// Escaping a string one character longer escapes the extension after the rest.
proof fn lemma_escape_snoc(s: Seq<char>, c: char)
    ensures
        escape(s.push(c)) == escape(s) + escape_char(c),
    decreases s.len(),
{
    if s.len() == 0 {
        assert(s.push(c)[0] == c);
        assert(s.push(c).drop_first() =~= Seq::<char>::empty());
        assert(escape(Seq::<char>::empty()) == Seq::<char>::empty());
        assert(escape(s.push(c)) == escape_char(c) + escape(s.push(c).drop_first()));
        assert(escape(s.push(c)) =~= escape_char(c));
        assert(escape(s) + escape_char(c) =~= escape_char(c));
    } else {
        lemma_escape_snoc(s.drop_first(), c);
        assert(s.push(c)[0] == s[0]);
        assert(s.push(c).drop_first() =~= s.drop_first().push(c));
        assert(escape_char(s[0]) + (escape(s.drop_first()) + escape_char(c)) =~= (escape_char(s[0])
            + escape(s.drop_first())) + escape_char(c));
    }
}

/// Appends the characters of `s` to `out` unchanged.
fn push_str_chars(out: &mut Vec<char>, s: &str)
    ensures
        final(out)@ == old(out)@ + s@,
{
    let n = s.unicode_len();
    let mut i: usize = 0;
    while i < n
        invariant
            n == s@.len(),
            i <= n,
            out@ == old(out)@ + s@.subrange(0, i as int),
        decreases n - i,
    {
        let c = s.get_char(i);
        out.push(c);
        i = i + 1;
        proof {
            assert(s@.subrange(0, i as int) =~= s@.subrange(0, i as int - 1).push(
                s@[i as int - 1],
            ));
            assert(out@ =~= old(out)@ + s@.subrange(0, i as int));
        }
    }
    proof {
        assert(s@.subrange(0, n as int) =~= s@);
    }
}

/// Appends the escaping of `s` to `out`.
fn push_escaped(out: &mut Vec<char>, s: &str)
    ensures
        final(out)@ == old(out)@ + escape(s@),
{
    let n = s.unicode_len();
    let mut i: usize = 0;
    while i < n
        invariant
            n == s@.len(),
            i <= n,
            out@ == old(out)@ + escape(s@.subrange(0, i as int)),
        decreases n - i,
    {
        let c = s.get_char(i);
        let ghost pre: Seq<char> = out@;
        if c == '<' {
            out.push('&');
            out.push('l');
            out.push('t');
            out.push(';');
            proof {
                assert(out@ =~= pre + escape_char(c));
            }
        } else if c == '>' {
            out.push('&');
            out.push('g');
            out.push('t');
            out.push(';');
            proof {
                assert(out@ =~= pre + escape_char(c));
            }
        } else if c == '&' {
            out.push('&');
            out.push('a');
            out.push('m');
            out.push('p');
            out.push(';');
            proof {
                assert(out@ =~= pre + escape_char(c));
            }
        } else if c == '"' {
            out.push('&');
            out.push('q');
            out.push('u');
            out.push('o');
            out.push('t');
            out.push(';');
            proof {
                assert(out@ =~= pre + escape_char(c));
            }
        } else {
            out.push(c);
            proof {
                assert(out@ =~= pre + escape_char(c));
            }
        }
        proof {
            let sub = s@.subrange(0, i as int);
            lemma_escape_snoc(sub, c);
            assert(sub.push(c) =~= s@.subrange(0, i as int + 1));
            assert(out@ =~= old(out)@ + escape(s@.subrange(0, i as int + 1)));
        }
        i = i + 1;
    }
    proof {
        assert(s@.subrange(0, n as int) =~= s@);
    }
}

/// Appends the rendering of an attribute list to `out`.
fn render_attrs_into(l: &AttrList, out: &mut Vec<char>)
    ensures
        final(out)@ == old(out)@ + render_attrs(*l),
    decreases *l,
{
    match l {
        AttrList::ANil => {
            proof {
                assert(out@ =~= old(out)@ + render_attrs(*l));
            }
        },
        AttrList::ACons { name, value, rest } => {
            out.push(' ');
            push_str_chars(out, name.as_str());
            out.push('=');
            out.push('"');
            push_escaped(out, value.as_str());
            out.push('"');
            render_attrs_into(rest, out);
            proof {
                assert(out@ =~= old(out)@ + render_attrs(*l));
            }
        },
    }
}

/// Appends the rendering of a node to `out`.
fn render_node_into(n: &Node, out: &mut Vec<char>)
    ensures
        final(out)@ == old(out)@ + render_node(*n),
    decreases *n,
{
    match n {
        Node::Text(t) => {
            push_escaped(out, t.as_str());
        },
        Node::Elem { name, attrs, kids } => {
            out.push('<');
            push_str_chars(out, name.as_str());
            render_attrs_into(attrs, out);
            out.push('>');
            render_nodes_into(kids, out);
            out.push('<');
            out.push('/');
            push_str_chars(out, name.as_str());
            out.push('>');
            proof {
                assert(out@ =~= old(out)@ + render_node(*n));
            }
        },
    }
}

/// Appends the rendering of a list of siblings to `out`.
fn render_nodes_into(l: &NodeList, out: &mut Vec<char>)
    ensures
        final(out)@ == old(out)@ + render_nodes(*l),
    decreases *l,
{
    match l {
        NodeList::Nil => {
            proof {
                assert(out@ =~= old(out)@ + render_nodes(*l));
            }
        },
        NodeList::Cons { first, rest } => {
            render_node_into(first, out);
            render_nodes_into(rest, out);
            proof {
                assert(out@ =~= old(out)@ + render_nodes(*l));
            }
        },
    }
}

/// Relies on String's FromIterator<char> implementation: collecting an
/// iterator of characters yields the string made of exactly those
/// characters in order.
#[verifier::external_body]
fn chars_to_string(v: &Vec<char>) -> (r: String)
    ensures
        r@ == v@,
{
    v.iter().collect()
}

/// Serialises a document tree: the document type declaration followed by the
/// rendering of the root. When the tree is a well-formed document, the result
/// is well-formed markup.
pub fn render_document(root: &Node) -> (r: String)
    ensures
        r@ == doctype() + render_node(*root),
        wf_document(*root) ==> well_formed_html(r@),
{
    let mut out: Vec<char> = Vec::new();
    push_str_chars(&mut out, "<!DOCTYPE html>");
    proof {
        reveal_strlit("<!DOCTYPE html>");
        assert(out@ =~= doctype());
    }
    render_node_into(root, &mut out);
    let r = chars_to_string(&out);
    r
}

/// Builds a text node; any string is allowed, the renderer escapes it.
pub fn text(s: &str) -> (n: Node)
    ensures
        n matches Node::Text(t) && t@ == s@,
        wf_node(n),
        render_node(n) == escape(s@),
{
    Node::Text(s.to_owned())
}

/// Builds an element node from a valid name, attributes and children.
pub fn elem(name: &str, attrs: AttrList, kids: NodeList) -> (n: Node)
    requires
        wf_name(name@),
    ensures
        (n matches Node::Elem { name: nm, attrs: a, kids: k } && nm@ == name@ && a == attrs && k
            == kids),
        wf_attrs(attrs) && wf_nodes(kids) ==> wf_node(n),
        render_node(n) == elem_md(name@, render_attrs(attrs), render_nodes(kids)),
{
    Node::Elem { name: name.to_owned(), attrs, kids }
}

/// The empty sibling list.
pub fn nil() -> (l: NodeList)
    ensures
        l == NodeList::Nil,
        wf_nodes(l),
        render_nodes(l) == Seq::<char>::empty(),
{
    NodeList::Nil
}

/// Puts a node in front of a sibling list.
pub fn cons(n: Node, l: NodeList) -> (r: NodeList)
    ensures
        (r matches NodeList::Cons { first, rest } && *first == n && *rest == l),
        wf_node(n) && wf_nodes(l) ==> wf_nodes(r),
        render_nodes(r) == render_node(n) + render_nodes(l),
{
    NodeList::Cons { first: Box::new(n), rest: Box::new(l) }
}

/// The empty attribute list.
pub fn no_attrs() -> (l: AttrList)
    ensures
        l == AttrList::ANil,
        wf_attrs(l),
        render_attrs(l) == Seq::<char>::empty(),
{
    AttrList::ANil
}

/// Puts an attribute in front of an attribute list; the name must be valid,
/// the value may be any string.
pub fn attr(name: &str, value: &str, rest: AttrList) -> (r: AttrList)
    requires
        wf_name(name@),
    ensures
        (r matches AttrList::ACons { name: nm, value: v, rest: rs } && nm@ == name@ && v@ == value@
            && *rs == rest),
        wf_attrs(rest) ==> wf_attrs(r),
        render_attrs(r) == attr_md(name@, value@) + render_attrs(rest),
{
    AttrList::ACons { name: name.to_owned(), value: value.to_owned(), rest: Box::new(rest) }
}

} // verus!
