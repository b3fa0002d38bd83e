//! The mapping from the object model to the element tree.
//!
//! Each kind of element becomes one node: its tag is fixed, its attributes
//! are always the full list for that tag (an optional attribute that the
//! source leaves out is written as the empty text), and its children are the
//! mapped children in document order.

use crate::node::{attribute_view, lemma_node_view, NodeView, UiNode};
use crate::structure::{
    defs_is_well_formed, g_is_well_formed, image_attributes_complete, path_attributes_complete,
    remap_is_well_formed, symbol_is_well_formed, use_attributes_complete,
};
use crate::svg_types::{
    lemma_g_view, opt_view, Defs, DefsView, GEle, GEleView, GView, Image, ImageView, Path,
    PathView, Svg, SvgEle, SvgEleView, SvgView, Symbol, SymbolEle, SymbolEleView, SymbolView, Use,
    UseView, G,
};
use vstd::prelude::*;

verus! {

/// The text of an optional attribute, the empty text where it is absent.
pub open spec fn text_or_empty(text: Option<Seq<char>>) -> Seq<char> {
    match text {
        Some(s) => s,
        None => Seq::empty(),
    }
}

/// The node that a path becomes.
pub open spec fn path_node(p: PathView) -> NodeView {
    NodeView {
        tag: "path"@,
        attributes: seq![
            ("d"@, p.d),
            ("class"@, text_or_empty(p.class)),
            ("fill"@, text_or_empty(p.fill)),
            ("fillRule"@, text_or_empty(p.fill_rule)),
            ("stroke"@, text_or_empty(p.stroke)),
            ("strokeWidth"@, text_or_empty(p.stroke_width)),
            ("strokeLinecap"@, text_or_empty(p.stroke_linecap)),
            ("strokeLinejoin"@, text_or_empty(p.stroke_linejoin)),
            ("strokeMiterlimit"@, text_or_empty(p.stroke_miterlimit)),
        ],
        children: Seq::empty(),
    }
}

/// The node that a reference becomes.
pub open spec fn use_node(u: UseView) -> NodeView {
    NodeView {
        tag: "use"@,
        attributes: seq![
            ("fill"@, text_or_empty(u.fill)),
            ("x"@, u.x),
            ("fillRule"@, text_or_empty(u.fill_rule)),
            ("href"@, u.href),
            ("transform"@, text_or_empty(u.transform)),
        ],
        children: Seq::empty(),
    }
}

/// The node that an image becomes.
pub open spec fn image_node(i: ImageView) -> NodeView {
    NodeView {
        tag: "image"@,
        attributes: seq![
            ("width"@, i.width),
            ("height"@, i.height),
            ("preserveAspectRatio"@, i.preserve_aspect_ratio),
            ("href"@, i.href),
            ("transform"@, text_or_empty(i.transform)),
        ],
        children: Seq::empty(),
    }
}

/// The node that a group becomes. A group without a child list and a group
/// with an empty one both become a node without children.
pub open spec fn g_node(g: GView) -> NodeView
    decreases g,
{
    NodeView {
        tag: "g"@,
        attributes: seq![
            ("class"@, text_or_empty(g.class)),
            ("transform"@, text_or_empty(g.transform)),
        ],
        children: match g.elements {
            Some(list) => Seq::new(
                list.len(),
                |i: int|
                    if 0 <= i < list.len() {
                        g_ele_node(list[i])
                    } else {
                        arbitrary()
                    },
            ),
            None => Seq::empty(),
        },
    }
}

/// The node that an element of a group becomes.
pub open spec fn g_ele_node(e: GEleView) -> NodeView
    decreases e,
{
    match e {
        GEleView::G(g) => g_node(g),
        GEleView::Use(u) => use_node(u),
        GEleView::Path(p) => path_node(p),
        GEleView::Image(i) => image_node(i),
    }
}

/// The node that the content of a symbol becomes.
pub open spec fn symbol_ele_node(e: SymbolEleView) -> NodeView {
    match e {
        SymbolEleView::Path(p) => path_node(p),
        SymbolEleView::Image(i) => image_node(i),
    }
}

/// The node that a symbol becomes: its one child is its mapped content.
pub open spec fn symbol_node(s: SymbolView) -> NodeView {
    NodeView {
        tag: "symbol"@,
        attributes: seq![("id"@, s.id), ("overflow"@, s.overflow)],
        children: seq![symbol_ele_node(s.element)],
    }
}

/// The node that a definition block becomes.
pub open spec fn defs_node(d: DefsView) -> NodeView {
    NodeView {
        tag: "defs"@,
        attributes: seq![("id"@, d.id)],
        children: d.elements.map_values(|s: SymbolView| symbol_node(s)),
    }
}

/// The node that an element below the root becomes.
pub open spec fn svg_ele_node(e: SvgEleView) -> NodeView {
    match e {
        SvgEleView::Path(p) => path_node(p),
        SvgEleView::G(g) => g_node(g),
        SvgEleView::Defs(d) => defs_node(d),
    }
}

/// The tree that a whole document becomes.
pub open spec fn svg_node(s: SvgView) -> NodeView {
    NodeView {
        tag: "svg"@,
        attributes: seq![
            ("class"@, s.class),
            ("width"@, s.width),
            ("height"@, s.height),
            ("viewBox"@, s.view_box),
        ],
        children: s.elements.map_values(|e: SvgEleView| svg_ele_node(e)),
    }
}

/// A copy of an optional attribute's text, empty where the attribute is absent.
fn text_of(text: &Option<String>) -> (out: String)
    ensures
        out@ == text_or_empty(opt_view(*text)),
{
    match text {
        Some(s) => s.clone(),
        None => String::new(),
    }
}

/// One attribute with the given name and a copy of the given text.
fn attribute_of(name: &str, text: &String) -> (out: (String, String))
    ensures
        attribute_view(out) == (name@, text@),
{
    (name.to_owned(), text.clone())
}

/// One attribute with the given name and the text of an optional attribute.
fn optional_attribute_of(name: &str, text: &Option<String>) -> (out: (String, String))
    ensures
        attribute_view(out) == (name@, text_or_empty(opt_view(*text))),
{
    (name.to_owned(), text_of(text))
}

/// Maps a path to its node.
pub fn from_path(path: &Path) -> (node: UiNode)
    ensures
        node@ == path_node(path@),
        node@.well_formed(),
{
    let mut attributes: Vec<(String, String)> = Vec::new();
    attributes.push(attribute_of("d", &path.d));
    attributes.push(optional_attribute_of("class", &path.class));
    attributes.push(optional_attribute_of("fill", &path.fill));
    attributes.push(optional_attribute_of("fillRule", &path.fill_rule));
    attributes.push(optional_attribute_of("stroke", &path.stroke));
    attributes.push(optional_attribute_of("strokeWidth", &path.stroke_width));
    attributes.push(optional_attribute_of("strokeLinecap", &path.stroke_linecap));
    attributes.push(optional_attribute_of("strokeLinejoin", &path.stroke_linejoin));
    attributes.push(optional_attribute_of("strokeMiterlimit", &path.stroke_miterlimit));
    let node = UiNode { tag: "path".to_owned(), attributes, children: Vec::new() };
    proof {
        lemma_node_view(node);
        assert(node@.attributes =~= path_node(path@).attributes);
        assert(node@.children =~= path_node(path@).children);
        path_attributes_complete(path@);
    }
    node
}

/// Maps a reference to its node.
pub fn from_use(reference: &Use) -> (node: UiNode)
    ensures
        node@ == use_node(reference@),
        node@.well_formed(),
{
    let mut attributes: Vec<(String, String)> = Vec::new();
    attributes.push(optional_attribute_of("fill", &reference.fill));
    attributes.push(attribute_of("x", &reference.x));
    attributes.push(optional_attribute_of("fillRule", &reference.fill_rule));
    attributes.push(attribute_of("href", &reference.href));
    attributes.push(optional_attribute_of("transform", &reference.transform));
    let node = UiNode { tag: "use".to_owned(), attributes, children: Vec::new() };
    proof {
        lemma_node_view(node);
        assert(node@.attributes =~= use_node(reference@).attributes);
        assert(node@.children =~= use_node(reference@).children);
        use_attributes_complete(reference@);
    }
    node
}

/// Maps an image to its node.
pub fn from_image(image: &Image) -> (node: UiNode)
    ensures
        node@ == image_node(image@),
        node@.well_formed(),
{
    let mut attributes: Vec<(String, String)> = Vec::new();
    attributes.push(attribute_of("width", &image.width));
    attributes.push(attribute_of("height", &image.height));
    attributes.push(attribute_of("preserveAspectRatio", &image.preserve_aspect_ratio));
    attributes.push(attribute_of("href", &image.href));
    attributes.push(optional_attribute_of("transform", &image.transform));
    let node = UiNode { tag: "image".to_owned(), attributes, children: Vec::new() };
    proof {
        lemma_node_view(node);
        assert(node@.attributes =~= image_node(image@).attributes);
        assert(node@.children =~= image_node(image@).children);
        image_attributes_complete(image@);
    }
    node
}

/// The node of a group, one level unfolded: its children are the nodes of the
/// group's elements, in their order, and there are none where the group has
/// no child list.
pub proof fn lemma_g_node(g: GView)
    ensures
        g_node(g).tag == "g"@,
        g_node(g).attributes == seq![
            ("class"@, text_or_empty(g.class)),
            ("transform"@, text_or_empty(g.transform)),
        ],
        g_node(g).children == match g.elements {
            Some(list) => list.map_values(|e: GEleView| g_ele_node(e)),
            None => Seq::empty(),
        },
{
    reveal_with_fuel(g_node, 2);
    if let Some(list) = g.elements {
        assert(g_node(g).children =~= list.map_values(|e: GEleView| g_ele_node(e)));
    }
}

/// Maps a group to its node, its elements in their order.
pub fn from_g(group: &G) -> (node: UiNode)
    ensures
        node@ == g_node(group@),
        node@.well_formed(),
    decreases group,
{
    let mut attributes: Vec<(String, String)> = Vec::new();
    attributes.push(optional_attribute_of("class", &group.class));
    attributes.push(optional_attribute_of("transform", &group.transform));
    let mut children: Vec<UiNode> = Vec::new();
    match &group.elements {
        Some(list) => {
            let mut i: usize = 0;
            while i < list.len()
                invariant
                    0 <= i <= list.len(),
                    group.elements == Some(*list),
                    children.len() == i,
                    forall|j: int|
                        0 <= j < i ==> (#[trigger] children@[j])@ == g_ele_node(list@[j]@),
                decreases list.len() - i,
            {
                proof {
                    // the element is smaller than the group that holds it
                    assert(decreases_to!(group => group.elements));
                    assert(decreases_to!(group.elements => group.elements->0));
                    assert(decreases_to!(list => list@));
                    assert(decreases_to!(list@ => list@[i as int]));
                }
                let child = from_g_element(&list[i]);
                children.push(child);
                i += 1;
            }
        },
        None => {},
    }
    let node = UiNode { tag: "g".to_owned(), attributes, children };
    proof {
        lemma_node_view(node);
        lemma_g_view(*group);
        lemma_g_node(group@);
        assert(node@.attributes =~= g_node(group@).attributes);
        assert(node@.children =~= g_node(group@).children);
        g_is_well_formed(group@);
    }
    node
}

/// Maps an element of a group to its node.
pub fn from_g_element(tag: &GEle) -> (node: UiNode)
    ensures
        node@ == g_ele_node(tag@),
        node@.well_formed(),
    decreases tag,
{
    match tag {
        GEle::G(g) => from_g(g),
        GEle::Use(u) => from_use(u),
        GEle::Path(p) => from_path(p),
        GEle::Image(i) => from_image(i),
    }
}

/// Maps the content of a symbol to its node.
pub fn from_symbol_element(tag: &SymbolEle) -> (node: UiNode)
    ensures
        node@ == symbol_ele_node(tag@),
        node@.well_formed(),
{
    match tag {
        SymbolEle::Path(p) => from_path(p),
        SymbolEle::Image(i) => from_image(i),
    }
}

/// Maps a symbol to its node, whose only child is the mapped content.
pub fn from_symbol(tag: &Symbol) -> (node: UiNode)
    ensures
        node@ == symbol_node(tag@),
        node@.well_formed(),
{
    let mut attributes: Vec<(String, String)> = Vec::new();
    attributes.push(attribute_of("id", &tag.id));
    attributes.push(attribute_of("overflow", &tag.overflow));
    let mut children: Vec<UiNode> = Vec::new();
    children.push(from_symbol_element(&tag.element));
    let node = UiNode { tag: "symbol".to_owned(), attributes, children };
    proof {
        lemma_node_view(node);
        assert(node@.attributes =~= symbol_node(tag@).attributes);
        assert(node@.children =~= symbol_node(tag@).children);
        symbol_is_well_formed(tag@);
    }
    node
}

/// Maps a definition block to its node, its symbols in their order.
pub fn from_defs(defs: &Defs) -> (node: UiNode)
    ensures
        node@ == defs_node(defs@),
        node@.well_formed(),
{
    let mut attributes: Vec<(String, String)> = Vec::new();
    attributes.push(attribute_of("id", &defs.id));
    let mut children: Vec<UiNode> = Vec::new();
    let mut i: usize = 0;
    while i < defs.elements.len()
        invariant
            0 <= i <= defs.elements.len(),
            children.len() == i,
            forall|j: int|
                0 <= j < i ==> (#[trigger] children@[j])@ == symbol_node(defs.elements@[j]@),
        decreases defs.elements.len() - i,
    {
        let child = from_symbol(&defs.elements[i]);
        children.push(child);
        i += 1;
    }
    let node = UiNode { tag: "defs".to_owned(), attributes, children };
    proof {
        lemma_node_view(node);
        assert(node@.attributes =~= defs_node(defs@).attributes);
        assert(node@.children =~= defs_node(defs@).children);
        defs_is_well_formed(defs@);
    }
    node
}

/// Maps an element below the root to its node.
pub fn from_svg_element(tag: &SvgEle) -> (node: UiNode)
    ensures
        node@ == svg_ele_node(tag@),
        node@.well_formed(),
{
    match tag {
        SvgEle::Path(p) => from_path(p),
        SvgEle::G(g) => from_g(g),
        SvgEle::Defs(d) => from_defs(d),
    }
}

/// Maps a whole document to its tree: the root node first, below it the
/// mapped elements in document order.
pub fn remap(svg: &Svg) -> (node: UiNode)
    ensures
        node@ == svg_node(svg@),
        node@.well_formed(),
{
    let mut attributes: Vec<(String, String)> = Vec::new();
    attributes.push(attribute_of("class", &svg.class));
    attributes.push(attribute_of("width", &svg.width));
    attributes.push(attribute_of("height", &svg.height));
    attributes.push(attribute_of("viewBox", &svg.view_box));
    let mut children: Vec<UiNode> = Vec::new();
    let mut i: usize = 0;
    while i < svg.elements.len()
        invariant
            0 <= i <= svg.elements.len(),
            children.len() == i,
            forall|j: int|
                0 <= j < i ==> (#[trigger] children@[j])@ == svg_ele_node(svg.elements@[j]@),
        decreases svg.elements.len() - i,
    {
        let child = from_svg_element(&svg.elements[i]);
        children.push(child);
        i += 1;
    }
    let node = UiNode { tag: "svg".to_owned(), attributes, children };
    proof {
        lemma_node_view(node);
        assert(node@.attributes =~= svg_node(svg@).attributes);
        assert(node@.children =~= svg_node(svg@).children);
        remap_is_well_formed(svg@);
    }
    node
}

} // verus!
