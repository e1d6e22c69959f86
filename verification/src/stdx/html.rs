//! HTML documents, parsed and queried with CSS selectors by the `scraper` crate.
use vstd::prelude::*;

verus! {

/// `scraper::Html`, a parsed HTML document.
#[verifier::external_type_specification]
#[verifier::external_body]
pub struct ExHtml(scraper::Html);

/// `scraper::Selector`, a parsed CSS selector.
#[verifier::external_type_specification]
#[verifier::external_body]
pub struct ExSelector(scraper::Selector);

/// `scraper::ElementRef`, an element of a parsed document.
#[verifier::external_type_specification]
#[verifier::external_body]
pub struct ExElementRef<'a>(scraper::ElementRef<'a>);

/// A child node of an element, as plain values.
#[derive(Debug)]
pub enum Node {
    /// A text node.
    Text(String),
    /// An element, with its tag name and all the text inside it.
    Element {
        /// The tag name, e.g. `a`, `button`.
        name: String,
        /// The text of all its descendant text nodes, in order.
        text: String,
    },
    /// Any other node, such as a comment.
    Other,
}

/// An element selected from a document, as plain values.
#[derive(Debug)]
pub struct Element {
    /// Its descendant text nodes, in document order (`ElementRef::text`).
    pub texts: Vec<String>,
    /// Its inner HTML (`ElementRef::inner_html`).
    pub inner_html: String,
    /// Its attributes, as name and value.
    pub attrs: Vec<(String, String)>,
    /// Its child nodes, in order.
    pub children: Vec<Node>,
}

/// A child node, as sequences of characters.
pub enum NodeView {
    /// A text node.
    Text(Seq<char>),
    /// An element with its tag name and text.
    Element {
        /// The tag name.
        name: Seq<char>,
        /// Its text.
        text: Seq<char>,
    },
    /// Any other node.
    Other,
}

/// A selected element, as sequences of characters.
pub struct ElementView {
    /// Its descendant text nodes.
    pub texts: Seq<Seq<char>>,
    /// Its inner HTML.
    pub inner_html: Seq<char>,
    /// Its attributes.
    pub attrs: Seq<(Seq<char>, Seq<char>)>,
    /// Its child nodes.
    pub children: Seq<NodeView>,
}

impl View for Node {
    type V = NodeView;

    open spec fn view(&self) -> NodeView {
        match self {
            Node::Text(t) => NodeView::Text(t@),
            Node::Element { name, text } => NodeView::Element { name: name@, text: text@ },
            Node::Other => NodeView::Other,
        }
    }
}

impl View for Element {
    type V = ElementView;

    open spec fn view(&self) -> ElementView {
        ElementView {
            texts: self.texts@.map_values(|t: String| t@),
            inner_html: self.inner_html@,
            attrs: self.attrs@.map_values(|a: (String, String)| (a.0@, a.1@)),
            children: self.children@.map_values(|n: Node| n@),
        }
    }
}

/// The elements of a list, as sequences of characters.
pub open spec fn elements_view(v: Seq<Element>) -> Seq<ElementView> {
    v.map_values(|e: Element| e@)
}

/// Whether `scraper::Selector::parse` accepts `css`.
pub uninterp spec fn css_valid(css: Seq<char>) -> bool;

/// The elements of the document parsed (`Html::parse_document`) from `html` that the
/// selector parsed from `css` matches, in document order (`Html::select`).
pub uninterp spec fn selected(html: Seq<char>, css: Seq<char>) -> Seq<ElementView>;

/// A parsed document, viewed as the text it was parsed from.
pub struct Document {
    html: scraper::Html,
    source: Ghost<Seq<char>>,
}

impl View for Document {
    type V = Seq<char>;

    closed spec fn view(&self) -> Seq<char> {
        self.source@
    }
}

/// A parsed selector, viewed as the text it was parsed from.
pub struct Css {
    selector: scraper::Selector,
    source: Ghost<Seq<char>>,
}

impl View for Css {
    type V = Seq<char>;

    closed spec fn view(&self) -> Seq<char> {
        self.source@
    }
}

/// Calls `scraper::Html::parse_document`.
#[verifier::external_body]
pub(crate) fn parse_document(html: &str) -> (d: Document)
    ensures
        d@ == html@,
{
    Document { html: scraper::Html::parse_document(html), source: Ghost(html@) }
}

/// Calls `scraper::Selector::parse`; `None` when it reports an error.
#[verifier::external_body]
pub(crate) fn parse_css(css: &str) -> (r: Option<Css>)
    ensures
        r is Some <==> css_valid(css@),
        r matches Some(c) ==> c@ == css@,
{
    match scraper::Selector::parse(css) {
        Ok(selector) => Some(Css { selector, source: Ghost(css@) }),
        Err(_) => None,
    }
}

/// Calls `scraper::Html::select`, reading each matched element as plain values.
#[verifier::external_body]
pub(crate) fn select(doc: &Document, css: &Css) -> (r: Vec<Element>)
    ensures
        elements_view(r@) == selected(doc@, css@),
{
    doc.html.select(&css.selector).map(|e| element_of(e)).collect()
}

/// For each element of the document parsed from `html` that the selector parsed from
/// `outer` matches, in document order, the elements inside it that the selector parsed from
/// `inner` matches, in document order (`ElementRef::select`).
pub uninterp spec fn selected_within(html: Seq<char>, outer: Seq<char>, inner: Seq<char>) -> Seq<Seq<ElementView>>;

/// Groups of elements, as sequences of characters.
pub open spec fn groups_view(v: Seq<Vec<Element>>) -> Seq<Seq<ElementView>> {
    v.map_values(|g: Vec<Element>| elements_view(g@))
}

/// Calls `scraper::ElementRef::select` with `inner` on each element that `Html::select`
/// matches with `outer`, reading each match as plain values. There is one group for each
/// element `outer` matches.
#[verifier::external_body]
pub(crate) fn select_within(doc: &Document, outer: &Css, inner: &Css) -> (r: Vec<Vec<Element>>)
    ensures
        groups_view(r@) == selected_within(doc@, outer@, inner@),
        r@.len() == selected(doc@, outer@).len(),
{
    doc.html.select(&outer.selector).map(|e| e.select(&inner.selector).map(|i| element_of(i)).collect()).collect()
}

/// Reads an element's text nodes, inner HTML, attributes and children (`ElementRef::text`,
/// `inner_html`, `value().attrs()`, `children()`) as plain values.
#[verifier::external_body]
fn element_of(e: scraper::ElementRef<'_>) -> Element {
    Element {
        texts: e.text().map(|t| t.to_owned()).collect(),
        inner_html: e.inner_html(),
        attrs: e.value().attrs().map(|(k, v)| (k.to_owned(), v.to_owned())).collect(),
        children: e.children().map(|n| match n.value() {
            scraper::Node::Text(t) => Node::Text(t.to_string()),
            scraper::Node::Element(el) => Node::Element {
                name: el.name().to_owned(),
                text: scraper::ElementRef::wrap(n).map(|c| c.text().collect()).unwrap_or_default(),
            },
            _ => Node::Other,
        }).collect(),
    }
}

} // verus!
