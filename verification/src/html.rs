//! A tree of HTML: elements with attributes and children, and raw text.

use vstd::prelude::*;

verus! {

/// The tags of the elements that the backend makes.
#[derive(Debug, Clone, Copy, PartialEq, Eq, Structural)]
pub enum HtmlTag {
    Main,
    Div,
    Link,
    ParagraphText,
    Heading1,
    Heading2,
    Heading3,
    Heading4,
    Heading5,
    Heading6,
    Image,
    UnorderedList,
    OrderedList,
    ListElement,
}

/// An attribute of an element.
#[derive(Debug, Clone, PartialEq, Eq)]
pub struct HtmlAttribute {
    pub name: String,
    pub value: String,
}

/// A node of a tree of HTML: an element, or text that is taken as it is.
#[derive(Debug, PartialEq, Eq)]
pub enum HtmlChild {
    Element { tag: HtmlTag, attributes: Vec<HtmlAttribute>, children: Vec<HtmlChild> },
    Raw(String),
}

/// The mathematical value of [`HtmlChild`]. An attribute is a pair of its
/// name and its value.
pub enum HtmlView {
    Element { tag: HtmlTag, attributes: Seq<(Seq<char>, Seq<char>)>, children: Seq<HtmlView> },
    Raw(Seq<char>),
}

impl View for HtmlAttribute {
    type V = (Seq<char>, Seq<char>);

    open spec fn view(&self) -> (Seq<char>, Seq<char>) {
        (self.name@, self.value@)
    }
}

/// The value of a node, with the values of its children.
pub open spec fn html_view(node: HtmlChild) -> HtmlView
    decreases node,
{
    match node {
        HtmlChild::Raw(text) => HtmlView::Raw(text@),
        HtmlChild::Element { tag, attributes, children } => HtmlView::Element {
            tag,
            attributes: Seq::new(attributes@.len(), |i: int| attributes@[i]@),
            children: Seq::new(
                children@.len(),
                |i: int|
                    if 0 <= i < children@.len() {
                        html_view(children@[i])
                    } else {
                        arbitrary()
                    },
            ),
        },
    }
}

impl View for HtmlChild {
    type V = HtmlView;

    open spec fn view(&self) -> HtmlView {
        html_view(*self)
    }
}

/// The values of a list of nodes.
pub open spec fn html_views(nodes: Seq<HtmlChild>) -> Seq<HtmlView> {
    Seq::new(nodes.len(), |i: int| nodes[i]@)
}

/// The values of a list of attributes.
pub open spec fn attribute_views(attributes: Seq<HtmlAttribute>) -> Seq<(Seq<char>, Seq<char>)> {
    Seq::new(attributes.len(), |i: int| attributes[i]@)
}

impl HtmlChild {
    /// An element with the given tag, attributes and children.
    pub fn element(tag: HtmlTag, attributes: Vec<HtmlAttribute>, children: Vec<HtmlChild>) -> (r:
        HtmlChild)
        ensures
            r@ == (HtmlView::Element {
                tag,
                attributes: attribute_views(attributes@),
                children: html_views(children@),
            }),
    {
        let r = HtmlChild::Element { tag, attributes, children };
        proof {
            let mine = r@->children;
            assert(mine.len() == children@.len());
            assert forall|i: int| 0 <= i < mine.len() implies mine[i] == html_views(
                children@,
            )[i] by {}
            assert(mine =~= html_views(children@));
            assert(r@->attributes =~= attribute_views(attributes@));
        }
        r
    }

    /// Text that is taken as it is.
    pub fn raw(text: String) -> (r: HtmlChild)
        ensures
            r@ == HtmlView::Raw(text@),
    {
        HtmlChild::Raw(text)
    }
}

} // verus!
