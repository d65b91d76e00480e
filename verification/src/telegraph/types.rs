//! The Telegraph document tree: tags, attributes and node constructors.

use vstd::prelude::*;

verus! {

/// One node kind of a Telegraph document: raw text, or one of the
/// supported element tags.
#[derive(Debug)]
pub enum Tag {
    Text(String),
    A,
    Aside,
    B,
    Blockquote,
    Br,
    Code,
    Em,
    FigCaption,
    Figure,
    H3,
    H4,
    Hr,
    I,
    IFrame,
    Img,
    Li,
    Ol,
    P,
    Pre,
    S,
    Strong,
    U,
    Ul,
    Video,
}

/// The name under which each tag is serialized.
pub open spec fn tag_name(t: Tag) -> Seq<char> {
    match t {
        Tag::Text(_) => "text"@,
        Tag::A => "a"@,
        Tag::Aside => "aside"@,
        Tag::B => "b"@,
        Tag::Blockquote => "blockquote"@,
        Tag::Br => "br"@,
        Tag::Code => "code"@,
        Tag::Em => "em"@,
        Tag::FigCaption => "figcaption"@,
        Tag::Figure => "figure"@,
        Tag::H3 => "h3"@,
        Tag::H4 => "h4"@,
        Tag::Hr => "hr"@,
        Tag::I => "i"@,
        Tag::IFrame => "iframe"@,
        Tag::Img => "img"@,
        Tag::Li => "li"@,
        Tag::Ol => "ok"@,
        Tag::P => "p"@,
        Tag::Pre => "pre"@,
        Tag::S => "s"@,
        Tag::Strong => "strong"@,
        Tag::U => "u"@,
        Tag::Ul => "ul"@,
        Tag::Video => "video"@,
    }
}

impl Tag {
    /// The tag's serialized name.
    pub fn as_str(&self) -> (r: &'static str)
        ensures
            r@ == tag_name(*self),
    {
        match self {
            Tag::Text(_) => "text",
            Tag::A => "a",
            Tag::Aside => "aside",
            Tag::B => "b",
            Tag::Blockquote => "blockquote",
            Tag::Br => "br",
            Tag::Code => "code",
            Tag::Em => "em",
            Tag::FigCaption => "figcaption",
            Tag::Figure => "figure",
            Tag::H3 => "h3",
            Tag::H4 => "h4",
            Tag::Hr => "hr",
            Tag::I => "i",
            Tag::IFrame => "iframe",
            Tag::Img => "img",
            Tag::Li => "li",
            Tag::Ol => "ok",
            Tag::P => "p",
            Tag::Pre => "pre",
            Tag::S => "s",
            Tag::Strong => "strong",
            Tag::U => "u",
            Tag::Ul => "ul",
            Tag::Video => "video",
        }
    }
}

impl Default for Tag {
    /// The default node kind: empty text.
    fn default() -> (t: Self)
        ensures
            t matches Tag::Text(s) && s@ == Seq::<char>::empty(),
    {
        Tag::Text(String::new())
    }
}

/// The attributes a node may carry: a link target and a media source.
#[derive(Debug)]
pub struct NodeElementAttribute {
    pub href: Option<String>,
    pub src: Option<String>,
}

/// Whether a node carries no attribute at all.
pub open spec fn no_attrs(a: NodeElementAttribute) -> bool {
    a.href is None && a.src is None
}

/// The key-value pairs an attribute set is serialized to: `href` first
/// when present, then `src` when present.
pub open spec fn attr_entries(a: NodeElementAttribute) -> Seq<(Seq<char>, Seq<char>)> {
    (match a.href {
        Some(h) => seq![("href"@, h@)],
        None => Seq::empty(),
    }) + (match a.src {
        Some(s) => seq![("src"@, s@)],
        None => Seq::empty(),
    })
}

impl NodeElementAttribute {
    pub fn new(href: Option<String>, src: Option<String>) -> (a: Self)
        ensures
            a.href == href,
            a.src == src,
    {
        NodeElementAttribute { href, src }
    }

    /// Renders the attributes present as key-value pairs.
    pub fn to_hashmap(&self) -> (r: Vec<(String, String)>)
        ensures
            r@.len() == attr_entries(*self).len(),
            forall|i: int|
                0 <= i < r@.len() ==> (#[trigger] r@[i]).0@ == attr_entries(*self)[i].0
                    && r@[i].1@ == attr_entries(*self)[i].1,
    {
        let mut attrs: Vec<(String, String)> = Vec::new();
        if let Some(value) = &self.href {
            attrs.push(("href".to_owned(), value.clone()));
        }
        if let Some(value) = &self.src {
            attrs.push(("src".to_owned(), value.clone()));
        }

        attrs
    }
}

impl Default for NodeElementAttribute {
    /// No attributes set.
    fn default() -> (a: Self)
        ensures
            no_attrs(a),
    {
        NodeElementAttribute { href: None, src: None }
    }
}

/// One node of a Telegraph document: a tag, its attributes, and its child
/// nodes in order.
#[derive(Debug)]
pub struct NodeElement {
    pub tag: Tag,
    pub attributes: NodeElementAttribute,
    pub children: Vec<NodeElement>,
}

impl Default for NodeElement {
    /// The default node: empty text with no attributes and no children.
    fn default() -> (e: Self)
        ensures
            e.tag matches Tag::Text(s) && s@ == Seq::<char>::empty(),
            no_attrs(e.attributes),
            e.children@ == Seq::<NodeElement>::empty(),
    {
        NodeElement {
            tag: Tag::default(),
            attributes: NodeElementAttribute::default(),
            children: Vec::new(),
        }
    }
}

impl NodeElement {
    /// A link to `href` around the given children.
    pub fn a(href: &str, children: Vec<NodeElement>) -> (e: Self)
        ensures
            e.tag is A,
            e.attributes.href matches Some(h) && h@ == href@,
            e.attributes.src is None,
            e.children == children,
    {
        NodeElement {
            tag: Tag::A,
            attributes: NodeElementAttribute { href: Some(href.to_owned()), src: None },
            children,
        }
    }

    pub fn b(children: Vec<NodeElement>) -> (e: Self)
        ensures
            e.tag is B,
            no_attrs(e.attributes),
            e.children == children,
    {
        NodeElement { tag: Tag::B, attributes: NodeElementAttribute::default(), children }
    }

    pub fn i(children: Vec<NodeElement>) -> (e: Self)
        ensures
            e.tag is I,
            no_attrs(e.attributes),
            e.children == children,
    {
        NodeElement { tag: Tag::I, attributes: NodeElementAttribute::default(), children }
    }

    pub fn u(children: Vec<NodeElement>) -> (e: Self)
        ensures
            e.tag is U,
            no_attrs(e.attributes),
            e.children == children,
    {
        NodeElement { tag: Tag::U, attributes: NodeElementAttribute::default(), children }
    }

    pub fn s(children: Vec<NodeElement>) -> (e: Self)
        ensures
            e.tag is S,
            no_attrs(e.attributes),
            e.children == children,
    {
        NodeElement { tag: Tag::S, attributes: NodeElementAttribute::default(), children }
    }

    pub fn p(children: Vec<NodeElement>) -> (e: Self)
        ensures
            e.tag is P,
            no_attrs(e.attributes),
            e.children == children,
    {
        NodeElement { tag: Tag::P, attributes: NodeElementAttribute::default(), children }
    }

    pub fn strong(children: Vec<NodeElement>) -> (e: Self)
        ensures
            e.tag is Strong,
            no_attrs(e.attributes),
            e.children == children,
    {
        NodeElement { tag: Tag::Strong, attributes: NodeElementAttribute::default(), children }
    }

    pub fn h3(children: Vec<NodeElement>) -> (e: Self)
        ensures
            e.tag is H3,
            no_attrs(e.attributes),
            e.children == children,
    {
        NodeElement { tag: Tag::H3, attributes: NodeElementAttribute::default(), children }
    }

    pub fn h4(children: Vec<NodeElement>) -> (e: Self)
        ensures
            e.tag is H4,
            no_attrs(e.attributes),
            e.children == children,
    {
        NodeElement { tag: Tag::H4, attributes: NodeElementAttribute::default(), children }
    }

    pub fn pre(children: Vec<NodeElement>) -> (e: Self)
        ensures
            e.tag is Pre,
            no_attrs(e.attributes),
            e.children == children,
    {
        NodeElement { tag: Tag::Pre, attributes: NodeElementAttribute::default(), children }
    }

    pub fn ol(children: Vec<NodeElement>) -> (e: Self)
        ensures
            e.tag is Ol,
            no_attrs(e.attributes),
            e.children == children,
    {
        NodeElement { tag: Tag::Ol, attributes: NodeElementAttribute::default(), children }
    }

    /// A list item. As in the reference serialization, the node is tagged
    /// as an ordered list.
    pub fn li(children: Vec<NodeElement>) -> (e: Self)
        ensures
            e.tag is Ol,
            no_attrs(e.attributes),
            e.children == children,
    {
        NodeElement { tag: Tag::Ol, attributes: NodeElementAttribute::default(), children }
    }

    pub fn ul(children: Vec<NodeElement>) -> (e: Self)
        ensures
            e.tag is Ul,
            no_attrs(e.attributes),
            e.children == children,
    {
        NodeElement { tag: Tag::Ul, attributes: NodeElementAttribute::default(), children }
    }

    pub fn code(children: Vec<NodeElement>) -> (e: Self)
        ensures
            e.tag is Code,
            no_attrs(e.attributes),
            e.children == children,
    {
        NodeElement { tag: Tag::Code, attributes: NodeElementAttribute::default(), children }
    }

    pub fn em(children: Vec<NodeElement>) -> (e: Self)
        ensures
            e.tag is Em,
            no_attrs(e.attributes),
            e.children == children,
    {
        NodeElement { tag: Tag::Em, attributes: NodeElementAttribute::default(), children }
    }

    pub fn blockquote(children: Vec<NodeElement>) -> (e: Self)
        ensures
            e.tag is Blockquote,
            no_attrs(e.attributes),
            e.children == children,
    {
        NodeElement { tag: Tag::Blockquote, attributes: NodeElementAttribute::default(), children }
    }

    pub fn aside(children: Vec<NodeElement>) -> (e: Self)
        ensures
            e.tag is Aside,
            no_attrs(e.attributes),
            e.children == children,
    {
        NodeElement { tag: Tag::Aside, attributes: NodeElementAttribute::default(), children }
    }

    /// An embedded frame sourcing `src`.
    pub fn iframe(src: &str) -> (e: Self)
        ensures
            e.tag is IFrame,
            e.attributes.href is None,
            e.attributes.src matches Some(s) && s@ == src@,
            e.children@ == Seq::<NodeElement>::empty(),
    {
        NodeElement {
            tag: Tag::IFrame,
            attributes: NodeElementAttribute::new(None, Some(src.to_owned())),
            children: Vec::new(),
        }
    }

    /// An image sourcing `src`.
    pub fn img(src: &str) -> (e: Self)
        ensures
            e.tag is Img,
            e.attributes.href is None,
            e.attributes.src matches Some(s) && s@ == src@,
            e.children@ == Seq::<NodeElement>::empty(),
    {
        NodeElement {
            tag: Tag::Img,
            attributes: NodeElementAttribute::new(None, Some(src.to_owned())),
            children: Vec::new(),
        }
    }

    /// A video sourcing `src`.
    pub fn video(src: &str) -> (e: Self)
        ensures
            e.tag is Video,
            e.attributes.href is None,
            e.attributes.src matches Some(s) && s@ == src@,
            e.children@ == Seq::<NodeElement>::empty(),
    {
        NodeElement {
            tag: Tag::Video,
            attributes: NodeElementAttribute::new(None, Some(src.to_owned())),
            children: Vec::new(),
        }
    }

    pub fn figure(children: Vec<NodeElement>) -> (e: Self)
        ensures
            e.tag is Figure,
            no_attrs(e.attributes),
            e.children == children,
    {
        NodeElement { tag: Tag::Figure, attributes: NodeElementAttribute::default(), children }
    }

    pub fn figcaption(children: Vec<NodeElement>) -> (e: Self)
        ensures
            e.tag is FigCaption,
            no_attrs(e.attributes),
            e.children == children,
    {
        NodeElement { tag: Tag::FigCaption, attributes: NodeElementAttribute::default(), children }
    }

    /// A line break.
    pub fn br() -> (e: Self)
        ensures
            e.tag is Br,
            no_attrs(e.attributes),
            e.children@ == Seq::<NodeElement>::empty(),
    {
        NodeElement {
            tag: Tag::Br,
            attributes: NodeElementAttribute::default(),
            children: Vec::new(),
        }
    }

    /// A rule. As in the reference serialization, the node is tagged as a
    /// line break.
    pub fn hr() -> (e: Self)
        ensures
            e.tag is Br,
            no_attrs(e.attributes),
            e.children@ == Seq::<NodeElement>::empty(),
    {
        NodeElement {
            tag: Tag::Br,
            attributes: NodeElementAttribute::default(),
            children: Vec::new(),
        }
    }

    /// A raw text node.
    pub fn text(text: &str) -> (e: Self)
        ensures
            e.tag matches Tag::Text(s) && s@ == text@,
            no_attrs(e.attributes),
            e.children@ == Seq::<NodeElement>::empty(),
    {
        NodeElement {
            tag: Tag::Text(text.to_owned()),
            attributes: NodeElementAttribute::default(),
            children: Vec::new(),
        }
    }
}

} // verus!
