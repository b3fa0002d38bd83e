//! What holds of every mapped document: the tree has the shape of its source,
//! every node carries the full attribute list of its tag, and children keep
//! their order.

use crate::node::{lemma_attributes_are_a_map, NodeView};
use crate::remap::{
    defs_node, g_ele_node, g_node, image_node, lemma_g_node, path_node, svg_ele_node, svg_node,
    symbol_ele_node, symbol_node, text_or_empty, use_node,
};
use crate::svg_types::{
    DefsView, GEleView, GView, ImageView, PathView, SvgEleView, SvgView, SymbolEleView,
    SymbolView, UseView,
};
use vstd::prelude::*;

verus! {

/// The shape of a tree: its tags and its nesting, nothing else.
pub struct Shape {
    pub tag: Seq<char>,
    pub children: Seq<Shape>,
}

/// The shape of an element without children.
pub open spec fn leaf(tag: Seq<char>) -> Shape {
    Shape { tag, children: Seq::empty() }
}

/// The shape of a node: the node without its attributes.
pub open spec fn node_shape(n: NodeView) -> Shape
    decreases n,
{
    Shape {
        tag: n.tag,
        children: Seq::new(
            n.children.len(),
            |i: int|
                if 0 <= i < n.children.len() {
                    node_shape(n.children[i])
                } else {
                    arbitrary()
                },
        ),
    }
}

/// The shape of a group in the object model.
pub open spec fn g_shape(g: GView) -> Shape
    decreases g,
{
    Shape {
        tag: "g"@,
        children: match g.elements {
            Some(list) => Seq::new(
                list.len(),
                |i: int|
                    if 0 <= i < list.len() {
                        g_ele_shape(list[i])
                    } else {
                        arbitrary()
                    },
            ),
            None => Seq::empty(),
        },
    }
}

/// The shape of an element of a group.
pub open spec fn g_ele_shape(e: GEleView) -> Shape
    decreases e,
{
    match e {
        GEleView::G(g) => g_shape(g),
        GEleView::Use(_) => leaf("use"@),
        GEleView::Path(_) => leaf("path"@),
        GEleView::Image(_) => leaf("image"@),
    }
}

/// The shape of a symbol: the symbol and, below it, its one content.
pub open spec fn symbol_shape(s: SymbolView) -> Shape {
    Shape {
        tag: "symbol"@,
        children: seq![
            match s.element {
                SymbolEleView::Path(_) => leaf("path"@),
                SymbolEleView::Image(_) => leaf("image"@),
            },
        ],
    }
}

/// The shape of a definition block.
pub open spec fn defs_shape(d: DefsView) -> Shape {
    Shape { tag: "defs"@, children: d.elements.map_values(|s: SymbolView| symbol_shape(s)) }
}

/// The shape of an element below the root.
pub open spec fn svg_ele_shape(e: SvgEleView) -> Shape {
    match e {
        SvgEleView::Path(_) => leaf("path"@),
        SvgEleView::G(g) => g_shape(g),
        SvgEleView::Defs(d) => defs_shape(d),
    }
}

/// The shape of a document in the object model.
pub open spec fn svg_shape(s: SvgView) -> Shape {
    Shape { tag: "svg"@, children: s.elements.map_values(|e: SvgEleView| svg_ele_shape(e)) }
}

/// The number of elements of a shape.
pub open spec fn count(s: Shape) -> nat
    decreases s,
{
    1 + count_all(s.children)
}

/// The number of elements of a list of shapes.
pub open spec fn count_all(list: Seq<Shape>) -> nat
    decreases list,
{
    if list.len() == 0 {
        0
    } else {
        count(list[0]) + count_all(list.drop_first())
    }
}

/// The nesting depth of a shape; an element without children has depth 1.
pub open spec fn depth(s: Shape) -> nat
    decreases s,
{
    1 + depth_all(s.children)
}

/// The greatest depth in a list of shapes, 0 for the empty list.
pub open spec fn depth_all(list: Seq<Shape>) -> nat
    decreases list,
{
    if list.len() == 0 {
        0
    } else {
        let first = depth(list[0]);
        let rest = depth_all(list.drop_first());
        if first >= rest {
            first
        } else {
            rest
        }
    }
}

/// The tags of a shape in document order: an element before its children.
pub open spec fn tags(s: Shape) -> Seq<Seq<char>>
    decreases s,
{
    seq![s.tag] + tags_all(s.children)
}

/// The tags of a list of shapes in document order.
pub open spec fn tags_all(list: Seq<Shape>) -> Seq<Seq<char>>
    decreases list,
{
    if list.len() == 0 {
        Seq::empty()
    } else {
        tags(list[0]) + tags_all(list.drop_first())
    }
}

/// The shape of a node, one level unfolded.
pub proof fn lemma_node_shape(n: NodeView)
    ensures
        node_shape(n).tag == n.tag,
        node_shape(n).children == n.children.map_values(|c: NodeView| node_shape(c)),
{
    reveal_with_fuel(node_shape, 2);
    assert(node_shape(n).children =~= n.children.map_values(|c: NodeView| node_shape(c)));
}

/// The shape of a group, one level unfolded.
pub proof fn lemma_g_shape(g: GView)
    ensures
        g_shape(g).tag == "g"@,
        g_shape(g).children == match g.elements {
            Some(list) => list.map_values(|e: GEleView| g_ele_shape(e)),
            None => Seq::empty(),
        },
{
    reveal_with_fuel(g_shape, 2);
    if let Some(list) = g.elements {
        assert(g_shape(g).children =~= list.map_values(|e: GEleView| g_ele_shape(e)));
    }
}

/// A mapped path is a lone `path` element.
pub proof fn path_keeps_shape(p: PathView)
    ensures
        node_shape(path_node(p)) == leaf("path"@),
{
    lemma_node_shape(path_node(p));
    assert(node_shape(path_node(p)).children =~= Seq::empty());
}

/// A mapped reference is a lone `use` element.
pub proof fn use_keeps_shape(u: UseView)
    ensures
        node_shape(use_node(u)) == leaf("use"@),
{
    lemma_node_shape(use_node(u));
    assert(node_shape(use_node(u)).children =~= Seq::empty());
}

/// A mapped image is a lone `image` element.
pub proof fn image_keeps_shape(i: ImageView)
    ensures
        node_shape(image_node(i)) == leaf("image"@),
{
    lemma_node_shape(image_node(i));
    assert(node_shape(image_node(i)).children =~= Seq::empty());
}

/// A mapped group has the shape of the group, however deep it nests.
pub proof fn g_keeps_shape(g: GView)
    ensures
        node_shape(g_node(g)) == g_shape(g),
    decreases g,
{
    lemma_node_shape(g_node(g));
    lemma_g_node(g);
    lemma_g_shape(g);
    match g.elements {
        Some(list) => {
            assert forall|i: int| 0 <= i < list.len() implies node_shape(g_ele_node(list[i]))
                == g_ele_shape(list[i]) by {
                g_ele_keeps_shape(list[i]);
            }
            assert(node_shape(g_node(g)).children =~= g_shape(g).children);
        },
        None => {
            assert(node_shape(g_node(g)).children =~= g_shape(g).children);
        },
    }
}

/// A mapped element of a group has the shape of the element.
pub proof fn g_ele_keeps_shape(e: GEleView)
    ensures
        node_shape(g_ele_node(e)) == g_ele_shape(e),
    decreases e,
{
    match e {
        GEleView::G(g) => g_keeps_shape(g),
        GEleView::Use(u) => use_keeps_shape(u),
        GEleView::Path(p) => path_keeps_shape(p),
        GEleView::Image(i) => image_keeps_shape(i),
    }
}

/// A mapped symbol has the shape of the symbol.
pub proof fn symbol_keeps_shape(s: SymbolView)
    ensures
        node_shape(symbol_node(s)) == symbol_shape(s),
{
    lemma_node_shape(symbol_node(s));
    match s.element {
        SymbolEleView::Path(p) => path_keeps_shape(p),
        SymbolEleView::Image(i) => image_keeps_shape(i),
    }
    assert(node_shape(symbol_node(s)).children =~= symbol_shape(s).children);
}

/// A mapped definition block has the shape of the block.
pub proof fn defs_keeps_shape(d: DefsView)
    ensures
        node_shape(defs_node(d)) == defs_shape(d),
{
    lemma_node_shape(defs_node(d));
    assert forall|i: int| 0 <= i < d.elements.len() implies node_shape(
        symbol_node(d.elements[i]),
    ) == symbol_shape(d.elements[i]) by {
        symbol_keeps_shape(d.elements[i]);
    }
    assert(node_shape(defs_node(d)).children =~= defs_shape(d).children);
}

/// A mapped element below the root has the shape of the element.
pub proof fn svg_ele_keeps_shape(e: SvgEleView)
    ensures
        node_shape(svg_ele_node(e)) == svg_ele_shape(e),
{
    match e {
        SvgEleView::Path(p) => path_keeps_shape(p),
        SvgEleView::G(g) => g_keeps_shape(g),
        SvgEleView::Defs(d) => defs_keeps_shape(d),
    }
}

/// The mapping keeps the shape of every document: the tree it gives has the
/// tags and the nesting of its source, and so as many elements, the same
/// depth, and the same tags in the same document order.
pub proof fn remap_keeps_shape(s: SvgView)
    ensures
        node_shape(svg_node(s)) == svg_shape(s),
        count(node_shape(svg_node(s))) == count(svg_shape(s)),
        depth(node_shape(svg_node(s))) == depth(svg_shape(s)),
        tags(node_shape(svg_node(s))) == tags(svg_shape(s)),
{
    lemma_node_shape(svg_node(s));
    assert forall|i: int| 0 <= i < s.elements.len() implies node_shape(
        svg_ele_node(s.elements[i]),
    ) == svg_ele_shape(s.elements[i]) by {
        svg_ele_keeps_shape(s.elements[i]);
    }
    assert(node_shape(svg_node(s)).children =~= svg_shape(s).children);
}

/// The attribute names of a `path` node, in their order.
pub open spec fn path_names() -> Seq<Seq<char>> {
    seq![
        "d"@,
        "class"@,
        "fill"@,
        "fillRule"@,
        "stroke"@,
        "strokeWidth"@,
        "strokeLinecap"@,
        "strokeLinejoin"@,
        "strokeMiterlimit"@,
    ]
}

/// The attribute names of a `g` node, in their order.
pub open spec fn g_names() -> Seq<Seq<char>> {
    seq!["class"@, "transform"@]
}

/// The attribute names of a `use` node, in their order.
pub open spec fn use_names() -> Seq<Seq<char>> {
    seq!["fill"@, "x"@, "fillRule"@, "href"@, "transform"@]
}

/// The attribute names of an `image` node, in their order.
pub open spec fn image_names() -> Seq<Seq<char>> {
    seq!["width"@, "height"@, "preserveAspectRatio"@, "href"@, "transform"@]
}

/// The attribute names of a `symbol` node, in their order.
pub open spec fn symbol_names() -> Seq<Seq<char>> {
    seq!["id"@, "overflow"@]
}

/// The attribute names of a `defs` node.
pub open spec fn defs_names() -> Seq<Seq<char>> {
    seq!["id"@]
}

/// The attribute names of the root `svg` node, in their order.
pub open spec fn svg_names() -> Seq<Seq<char>> {
    seq!["class"@, "width"@, "height"@, "viewBox"@]
}

/// What the attribute names are, character by character.
proof fn lemma_names_revealed()
    ensures
        "d"@ == seq!['d'],
        "x"@ == seq!['x'],
        "id"@ == seq!['i', 'd'],
        "fill"@ == seq!['f', 'i', 'l', 'l'],
        "href"@ == seq!['h', 'r', 'e', 'f'],
        "class"@ == seq!['c', 'l', 'a', 's', 's'],
        "width"@ == seq!['w', 'i', 'd', 't', 'h'],
        "height"@.len() == 6,
        "stroke"@.len() == 6,
        "viewBox"@.len() == 7,
        "fillRule"@.len() == 8,
        "overflow"@.len() == 8,
        "transform"@.len() == 9,
        "strokeWidth"@.len() == 11,
        "strokeLinecap"@.len() == 13,
        "strokeLinejoin"@.len() == 14,
        "strokeMiterlimit"@.len() == 16,
        "preserveAspectRatio"@.len() == 19,
{
    reveal_strlit("d");
    reveal_strlit("x");
    reveal_strlit("id");
    reveal_strlit("fill");
    reveal_strlit("href");
    reveal_strlit("class");
    reveal_strlit("width");
    reveal_strlit("height");
    reveal_strlit("stroke");
    reveal_strlit("viewBox");
    reveal_strlit("fillRule");
    reveal_strlit("overflow");
    reveal_strlit("transform");
    reveal_strlit("strokeWidth");
    reveal_strlit("strokeLinecap");
    reveal_strlit("strokeLinejoin");
    reveal_strlit("strokeMiterlimit");
    reveal_strlit("preserveAspectRatio");
    assert("d"@ =~= seq!['d']);
    assert("x"@ =~= seq!['x']);
    assert("id"@ =~= seq!['i', 'd']);
    assert("fill"@ =~= seq!['f', 'i', 'l', 'l']);
    assert("href"@ =~= seq!['h', 'r', 'e', 'f']);
    assert("class"@ =~= seq!['c', 'l', 'a', 's', 's']);
    assert("width"@ =~= seq!['w', 'i', 'd', 't', 'h']);
}

/// Every mapped path carries exactly the nine path attributes, each once and
/// in this order, whatever the source sets: an attribute that the source
/// leaves out has the empty text as its value.
pub proof fn path_attributes_complete(p: PathView)
    ensures
        path_node(p).names() == path_names(),
        path_node(p).names().no_duplicates(),
        path_node(p).name_set() == set![
            "d"@,
            "class"@,
            "fill"@,
            "fillRule"@,
            "stroke"@,
            "strokeWidth"@,
            "strokeLinecap"@,
            "strokeLinejoin"@,
            "strokeMiterlimit"@,
        ],
        forall|name: Seq<char>|
            path_node(p).value_of(name) is Some <==> path_names().contains(name),
        path_node(p).value_of("d"@) == Some(p.d),
        path_node(p).value_of("class"@) == Some(text_or_empty(p.class)),
        path_node(p).value_of("fill"@) == Some(text_or_empty(p.fill)),
        path_node(p).value_of("fillRule"@) == Some(text_or_empty(p.fill_rule)),
        path_node(p).value_of("stroke"@) == Some(text_or_empty(p.stroke)),
        path_node(p).value_of("strokeWidth"@) == Some(text_or_empty(p.stroke_width)),
        path_node(p).value_of("strokeLinecap"@) == Some(text_or_empty(p.stroke_linecap)),
        path_node(p).value_of("strokeLinejoin"@) == Some(text_or_empty(p.stroke_linejoin)),
        path_node(p).value_of("strokeMiterlimit"@) == Some(text_or_empty(p.stroke_miterlimit)),
{
    lemma_names_revealed();
    let n = path_node(p);
    assert(n.names() =~= path_names());
    lemma_attributes_are_a_map(n);
    assert(n.attributes[0].0 == "d"@);
    assert(n.attributes[1].0 == "class"@);
    assert(n.attributes[2].0 == "fill"@);
    assert(n.attributes[3].0 == "fillRule"@);
    assert(n.attributes[4].0 == "stroke"@);
    assert(n.attributes[5].0 == "strokeWidth"@);
    assert(n.attributes[6].0 == "strokeLinecap"@);
    assert(n.attributes[7].0 == "strokeLinejoin"@);
    assert(n.attributes[8].0 == "strokeMiterlimit"@);
    let names = path_names();
    assert(names.contains(names[0]) && names.contains(names[1]) && names.contains(names[2]));
    assert(names.contains(names[3]) && names.contains(names[4]) && names.contains(names[5]));
    assert(names.contains(names[6]) && names.contains(names[7]) && names.contains(names[8]));
    assert(n.name_set() =~= set![
        "d"@,
        "class"@,
        "fill"@,
        "fillRule"@,
        "stroke"@,
        "strokeWidth"@,
        "strokeLinecap"@,
        "strokeLinejoin"@,
        "strokeMiterlimit"@,
    ]);
}

/// Every mapped group carries exactly `class` and `transform`, each the empty
/// text where the source leaves it out.
pub proof fn g_attributes_complete(g: GView)
    ensures
        g_node(g).names() == g_names(),
        g_node(g).names().no_duplicates(),
        forall|name: Seq<char>| g_node(g).value_of(name) is Some <==> g_names().contains(name),
        g_node(g).value_of("class"@) == Some(text_or_empty(g.class)),
        g_node(g).value_of("transform"@) == Some(text_or_empty(g.transform)),
{
    lemma_names_revealed();
    lemma_g_node(g);
    let n = g_node(g);
    assert(n.names() =~= g_names());
    lemma_attributes_are_a_map(n);
    assert(n.attributes[0].0 == "class"@);
    assert(n.attributes[1].0 == "transform"@);
}

/// Every mapped reference carries exactly its five attributes, the optional
/// ones as the empty text where the source leaves them out.
pub proof fn use_attributes_complete(u: UseView)
    ensures
        use_node(u).names() == use_names(),
        use_node(u).names().no_duplicates(),
        forall|name: Seq<char>|
            use_node(u).value_of(name) is Some <==> use_names().contains(name),
        use_node(u).value_of("fill"@) == Some(text_or_empty(u.fill)),
        use_node(u).value_of("x"@) == Some(u.x),
        use_node(u).value_of("fillRule"@) == Some(text_or_empty(u.fill_rule)),
        use_node(u).value_of("href"@) == Some(u.href),
        use_node(u).value_of("transform"@) == Some(text_or_empty(u.transform)),
{
    lemma_names_revealed();
    let n = use_node(u);
    assert(n.names() =~= use_names());
    lemma_attributes_are_a_map(n);
    assert(n.attributes[0].0 == "fill"@);
    assert(n.attributes[1].0 == "x"@);
    assert(n.attributes[2].0 == "fillRule"@);
    assert(n.attributes[3].0 == "href"@);
    assert(n.attributes[4].0 == "transform"@);
}

/// Every mapped image carries exactly its five attributes, `transform` as the
/// empty text where the source leaves it out.
pub proof fn image_attributes_complete(i: ImageView)
    ensures
        image_node(i).names() == image_names(),
        image_node(i).names().no_duplicates(),
        forall|name: Seq<char>|
            image_node(i).value_of(name) is Some <==> image_names().contains(name),
        image_node(i).value_of("width"@) == Some(i.width),
        image_node(i).value_of("height"@) == Some(i.height),
        image_node(i).value_of("preserveAspectRatio"@) == Some(i.preserve_aspect_ratio),
        image_node(i).value_of("href"@) == Some(i.href),
        image_node(i).value_of("transform"@) == Some(text_or_empty(i.transform)),
{
    lemma_names_revealed();
    let n = image_node(i);
    assert(n.names() =~= image_names());
    lemma_attributes_are_a_map(n);
    assert(n.attributes[0].0 == "width"@);
    assert(n.attributes[1].0 == "height"@);
    assert(n.attributes[2].0 == "preserveAspectRatio"@);
    assert(n.attributes[3].0 == "href"@);
    assert(n.attributes[4].0 == "transform"@);
}

/// Every mapped symbol carries exactly `id` and `overflow`.
pub proof fn symbol_attributes_complete(s: SymbolView)
    ensures
        symbol_node(s).names() == symbol_names(),
        symbol_node(s).names().no_duplicates(),
        forall|name: Seq<char>|
            symbol_node(s).value_of(name) is Some <==> symbol_names().contains(name),
        symbol_node(s).value_of("id"@) == Some(s.id),
        symbol_node(s).value_of("overflow"@) == Some(s.overflow),
{
    lemma_names_revealed();
    let n = symbol_node(s);
    assert(n.names() =~= symbol_names());
    lemma_attributes_are_a_map(n);
    assert(n.attributes[0].0 == "id"@);
    assert(n.attributes[1].0 == "overflow"@);
}

/// Every mapped definition block carries exactly `id`.
pub proof fn defs_attributes_complete(d: DefsView)
    ensures
        defs_node(d).names() == defs_names(),
        defs_node(d).names().no_duplicates(),
        forall|name: Seq<char>|
            defs_node(d).value_of(name) is Some <==> defs_names().contains(name),
        defs_node(d).value_of("id"@) == Some(d.id),
{
    let n = defs_node(d);
    assert(n.names() =~= defs_names());
    lemma_attributes_are_a_map(n);
    assert(n.attributes[0].0 == "id"@);
}

/// The root of every mapped document carries exactly `class`, `width`,
/// `height` and `viewBox`, each with the text that the source gives it.
pub proof fn svg_attributes_complete(s: SvgView)
    ensures
        svg_node(s).names() == svg_names(),
        svg_node(s).names().no_duplicates(),
        forall|name: Seq<char>|
            svg_node(s).value_of(name) is Some <==> svg_names().contains(name),
        svg_node(s).value_of("class"@) == Some(s.class),
        svg_node(s).value_of("width"@) == Some(s.width),
        svg_node(s).value_of("height"@) == Some(s.height),
        svg_node(s).value_of("viewBox"@) == Some(s.view_box),
{
    lemma_names_revealed();
    let n = svg_node(s);
    assert(n.names() =~= svg_names());
    lemma_attributes_are_a_map(n);
    assert(n.attributes[0].0 == "class"@);
    assert(n.attributes[1].0 == "width"@);
    assert(n.attributes[2].0 == "height"@);
    assert(n.attributes[3].0 == "viewBox"@);
}

/// A mapped group is well formed, however deep it nests.
pub proof fn g_is_well_formed(g: GView)
    ensures
        g_node(g).well_formed(),
    decreases g,
{
    g_attributes_complete(g);
    lemma_g_node(g);
    if let Some(list) = g.elements {
        assert forall|i: int| 0 <= i < list.len() implies g_ele_node(list[i]).well_formed() by {
            g_ele_is_well_formed(list[i]);
        }
    }
}

/// A mapped element of a group is well formed.
pub proof fn g_ele_is_well_formed(e: GEleView)
    ensures
        g_ele_node(e).well_formed(),
    decreases e,
{
    match e {
        GEleView::G(g) => g_is_well_formed(g),
        GEleView::Use(u) => use_attributes_complete(u),
        GEleView::Path(p) => path_attributes_complete(p),
        GEleView::Image(i) => image_attributes_complete(i),
    }
}

/// A mapped symbol is well formed.
pub proof fn symbol_is_well_formed(s: SymbolView)
    ensures
        symbol_node(s).well_formed(),
{
    symbol_attributes_complete(s);
    match s.element {
        SymbolEleView::Path(p) => {
            path_attributes_complete(p);
            assert(path_node(p).well_formed());
        },
        SymbolEleView::Image(i) => {
            image_attributes_complete(i);
            assert(image_node(i).well_formed());
        },
    }
}

/// A mapped definition block is well formed.
pub proof fn defs_is_well_formed(d: DefsView)
    ensures
        defs_node(d).well_formed(),
{
    defs_attributes_complete(d);
    assert forall|i: int| 0 <= i < d.elements.len() implies symbol_node(
        d.elements[i],
    ).well_formed() by {
        symbol_is_well_formed(d.elements[i]);
    }
}

/// A mapped element below the root is well formed.
pub proof fn svg_ele_is_well_formed(e: SvgEleView)
    ensures
        svg_ele_node(e).well_formed(),
{
    match e {
        SvgEleView::Path(p) => path_attributes_complete(p),
        SvgEleView::G(g) => g_is_well_formed(g),
        SvgEleView::Defs(d) => defs_is_well_formed(d),
    }
}

/// Every mapped document is well formed: no node of it names an attribute
/// twice.
pub proof fn remap_is_well_formed(s: SvgView)
    ensures
        svg_node(s).well_formed(),
{
    svg_attributes_complete(s);
    assert forall|i: int| 0 <= i < s.elements.len() implies svg_ele_node(
        s.elements[i],
    ).well_formed() by {
        svg_ele_is_well_formed(s.elements[i]);
    }
}

/// A path becomes the same node wherever it stands: below the root, in a
/// group or in a symbol.
pub proof fn path_maps_alike(p: PathView)
    ensures
        svg_ele_node(SvgEleView::Path(p)) == path_node(p),
        g_ele_node(GEleView::Path(p)) == path_node(p),
        symbol_ele_node(SymbolEleView::Path(p)) == path_node(p),
{
}

/// A group without a child list and a group with an empty one both become a
/// node without children, and nothing in the two nodes tells the two groups
/// apart: where the groups agree in `class` and `transform`, the nodes are
/// the same.
pub proof fn absent_list_maps_as_empty_list(absent: GView, empty: GView)
    requires
        absent.elements is None,
        empty.elements == Some(Seq::<GEleView>::empty()),
    ensures
        g_node(absent).children.len() == 0,
        g_node(empty).children.len() == 0,
        absent.class == empty.class && absent.transform == empty.transform ==> g_node(absent)
            == g_node(empty),
{
    lemma_g_node(absent);
    lemma_g_node(empty);
    assert(g_node(absent).children =~= g_node(empty).children);
}

/// The children of a mapped group are the mapped elements of the group, as
/// many and in the same order.
pub proof fn g_children_keep_order(g: GView, list: Seq<GEleView>)
    requires
        g.elements == Some(list),
    ensures
        g_node(g).children.len() == list.len(),
        forall|i: int| 0 <= i < list.len() ==> g_node(g).children[i] == g_ele_node(list[i]),
{
    lemma_g_node(g);
}

/// The children of a mapped definition block are the mapped symbols of the
/// block, as many and in the same order.
pub proof fn defs_children_keep_order(d: DefsView)
    ensures
        defs_node(d).children.len() == d.elements.len(),
        forall|i: int|
            0 <= i < d.elements.len() ==> defs_node(d).children[i] == symbol_node(d.elements[i]),
{
}

/// The children of a mapped document's root are the mapped elements of the
/// document, as many and in the same order.
pub proof fn svg_children_keep_order(s: SvgView)
    ensures
        svg_node(s).children.len() == s.elements.len(),
        forall|i: int|
            0 <= i < s.elements.len() ==> svg_node(s).children[i] == svg_ele_node(s.elements[i]),
{
}

/// What the tags are, character by character.
proof fn lemma_tags_revealed()
    ensures
        "g"@ == seq!['g'],
        "svg"@ == seq!['s', 'v', 'g'],
        "use"@ == seq!['u', 's', 'e'],
        "path"@ == seq!['p', 'a', 't', 'h'],
        "defs"@ == seq!['d', 'e', 'f', 's'],
        "image"@ == seq!['i', 'm', 'a', 'g', 'e'],
        "symbol"@ == seq!['s', 'y', 'm', 'b', 'o', 'l'],
{
    reveal_strlit("g");
    reveal_strlit("svg");
    reveal_strlit("use");
    reveal_strlit("path");
    reveal_strlit("defs");
    reveal_strlit("image");
    reveal_strlit("symbol");
    assert("g"@ =~= seq!['g']);
    assert("svg"@ =~= seq!['s', 'v', 'g']);
    assert("use"@ =~= seq!['u', 's', 'e']);
    assert("path"@ =~= seq!['p', 'a', 't', 'h']);
    assert("defs"@ =~= seq!['d', 'e', 'f', 's']);
    assert("image"@ =~= seq!['i', 'm', 'a', 'g', 'e']);
    assert("symbol"@ =~= seq!['s', 'y', 'm', 'b', 'o', 'l']);
}

/// Below the root, the tag of a mapped element tells which kind of element
/// it was: each kind has one tag, and no two kinds share one.
pub proof fn svg_ele_tag_tells_the_kind(e: SvgEleView)
    ensures
        e is Path <==> svg_ele_node(e).tag == "path"@,
        e is G <==> svg_ele_node(e).tag == "g"@,
        e is Defs <==> svg_ele_node(e).tag == "defs"@,
{
    lemma_tags_revealed();
    if let SvgEleView::G(g) = e {
        lemma_g_node(g);
    }
}

/// In a group, the tag of a mapped element tells which kind of element it
/// was: each kind has one tag, and no two kinds share one.
pub proof fn g_ele_tag_tells_the_kind(e: GEleView)
    ensures
        e is G <==> g_ele_node(e).tag == "g"@,
        e is Use <==> g_ele_node(e).tag == "use"@,
        e is Path <==> g_ele_node(e).tag == "path"@,
        e is Image <==> g_ele_node(e).tag == "image"@,
{
    lemma_tags_revealed();
    if let GEleView::G(g) = e {
        lemma_g_node(g);
    }
}

/// A mapped symbol has exactly one child, the mapped content of the symbol:
/// a `path` node exactly where the symbol holds a path, an `image` node
/// exactly where it holds an image.
pub proof fn symbol_has_one_child(s: SymbolView)
    ensures
        symbol_node(s).tag == "symbol"@,
        symbol_node(s).children.len() == 1,
        symbol_node(s).children[0] == symbol_ele_node(s.element),
        s.element is Path <==> symbol_node(s).children[0].tag == "path"@,
        s.element is Image <==> symbol_node(s).children[0].tag == "image"@,
{
    lemma_tags_revealed();
}

} // verus!
