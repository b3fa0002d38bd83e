use typst_2_rsx::node::UiNode;
use typst_2_rsx::remap::{
    from_defs, from_g, from_g_element, from_image, from_path, from_svg_element, from_symbol,
    from_symbol_element, from_use, remap,
};
use typst_2_rsx::svg_types::{
    Class, Defs, Fill, FillRule, GEle, Image, Path, PathEle, Svg, SvgEle, Symbol, SymbolEle, Use,
    D, G,
};

fn text(s: &str) -> String {
    s.to_string()
}

fn attr(name: &str, value: &str) -> (String, String) {
    (name.to_string(), value.to_string())
}

fn bare_path(d: &str) -> Path {
    Path { d: text(d), ..Path::default() }
}

fn full_path() -> Path {
    Path {
        d: text("M10 10 H 90 V 90 H 10 Z"),
        class: Some(text("typst-shape")),
        fill: Some(text("#ffffff")),
        stroke: Some(text("black")),
        fill_rule: Some(text("nonzero")),
        stroke_width: Some(text("2")),
        stroke_linecap: Some(text("butt")),
        stroke_linejoin: Some(text("miter")),
        stroke_miterlimit: Some(text("4")),
    }
}

fn sample_use() -> Use {
    Use {
        fill: Some(text("#000000")),
        x: text("0"),
        fill_rule: None,
        href: text("#g1"),
        transform: None,
    }
}

fn sample_image() -> Image {
    Image {
        width: text("64"),
        height: text("48"),
        preserve_aspect_ratio: text("none"),
        href: text("data:image/png;base64,AAAA"),
        transform: None,
    }
}

fn group(elements: Option<Vec<GEle>>) -> G {
    G { class: None, transform: None, elements }
}

fn sample_document() -> Svg {
    Svg {
        class: text("typst-doc"),
        width: text("595.28"),
        height: text("841.89"),
        view_box: text("0 0 595.28 841.89"),
        elements: vec![
            SvgEle::Path(full_path()),
            SvgEle::G(G {
                class: Some(text("typst-text")),
                transform: Some(text("matrix(1 0 0 -1 0 0)")),
                elements: Some(vec![
                    GEle::Use(sample_use()),
                    GEle::G(group(Some(vec![
                        GEle::Path(bare_path("M0 0")),
                        GEle::G(group(None)),
                    ]))),
                    GEle::Image(sample_image()),
                ]),
            }),
            SvgEle::Defs(Defs {
                id: text("glyph"),
                elements: vec![
                    Symbol {
                        id: text("g1"),
                        overflow: text("visible"),
                        element: SymbolEle::Path(bare_path("M1 1")),
                    },
                    Symbol {
                        id: text("g2"),
                        overflow: text("visible"),
                        element: SymbolEle::Image(sample_image()),
                    },
                ],
            }),
        ],
    }
}

fn node_count(node: &UiNode) -> usize {
    1 + node.children.iter().map(node_count).sum::<usize>()
}

fn node_depth(node: &UiNode) -> usize {
    1 + node.children.iter().map(node_depth).max().unwrap_or(0)
}

fn node_tags(node: &UiNode, out: &mut Vec<String>) {
    out.push(node.tag.clone());
    for child in &node.children {
        node_tags(child, out);
    }
}

fn g_count(g: &G) -> usize {
    1 + g.elements.iter().flatten().map(g_ele_count).sum::<usize>()
}

fn g_ele_count(e: &GEle) -> usize {
    match e {
        GEle::G(g) => g_count(g),
        _ => 1,
    }
}

fn svg_count(svg: &Svg) -> usize {
    1 + svg
        .elements
        .iter()
        .map(|e| match e {
            SvgEle::Path(_) => 1,
            SvgEle::G(g) => g_count(g),
            SvgEle::Defs(d) => 1 + 2 * d.elements.len(),
        })
        .sum::<usize>()
}

fn g_depth(g: &G) -> usize {
    1 + g.elements.iter().flatten().map(g_ele_depth).max().unwrap_or(0)
}

fn g_ele_depth(e: &GEle) -> usize {
    match e {
        GEle::G(g) => g_depth(g),
        _ => 1,
    }
}

fn svg_depth(svg: &Svg) -> usize {
    1 + svg
        .elements
        .iter()
        .map(|e| match e {
            SvgEle::Path(_) => 1,
            SvgEle::G(g) => g_depth(g),
            SvgEle::Defs(d) => {
                if d.elements.is_empty() {
                    1
                } else {
                    3
                }
            }
        })
        .max()
        .unwrap_or(0)
}

#[test]
fn single_path_document_maps_to_svg_with_one_path() {
    let svg = Svg {
        class: text(""),
        width: text("100"),
        height: text("100"),
        view_box: text("0 0 100 100"),
        elements: vec![SvgEle::Path(bare_path("M0 0L10 10"))],
    };
    let expected = UiNode {
        tag: text("svg"),
        attributes: vec![
            attr("class", ""),
            attr("width", "100"),
            attr("height", "100"),
            attr("viewBox", "0 0 100 100"),
        ],
        children: vec![UiNode {
            tag: text("path"),
            attributes: vec![
                attr("d", "M0 0L10 10"),
                attr("class", ""),
                attr("fill", ""),
                attr("fillRule", ""),
                attr("stroke", ""),
                attr("strokeWidth", ""),
                attr("strokeLinecap", ""),
                attr("strokeLinejoin", ""),
                attr("strokeMiterlimit", ""),
            ],
            children: vec![],
        }],
    };
    assert_eq!(remap(&svg), expected);
}

#[test]
fn mapped_tree_has_the_count_and_depth_of_its_source() {
    let svg = sample_document();
    let node = remap(&svg);
    assert_eq!(node_count(&node), svg_count(&svg));
    assert_eq!(node_count(&node), 13);
    assert_eq!(node_depth(&node), svg_depth(&svg));
    assert_eq!(node_depth(&node), 4);
}

#[test]
fn mapped_tree_lists_its_tags_in_document_order() {
    let node = remap(&sample_document());
    let mut tags = Vec::new();
    node_tags(&node, &mut tags);
    assert_eq!(
        tags,
        vec![
            "svg", "path", "g", "use", "g", "path", "g", "image", "defs", "symbol", "path",
            "symbol", "image"
        ]
    );
}

#[test]
fn empty_document_maps_to_a_lone_root() {
    let svg = Svg {
        class: text("c"),
        width: text("1"),
        height: text("2"),
        view_box: text("0 0 1 2"),
        elements: vec![],
    };
    let node = remap(&svg);
    assert_eq!(node.tag, "svg");
    assert!(node.children.is_empty());
    assert_eq!(node_count(&node), 1);
    assert_eq!(node_depth(&node), 1);
}

#[test]
fn path_node_has_exactly_the_nine_path_attributes() {
    let node = from_path(&bare_path("M0 0"));
    let names: Vec<&str> = node.attributes.iter().map(|a| a.0.as_str()).collect();
    assert_eq!(
        names,
        vec![
            "d",
            "class",
            "fill",
            "fillRule",
            "stroke",
            "strokeWidth",
            "strokeLinecap",
            "strokeLinejoin",
            "strokeMiterlimit"
        ]
    );
    assert_eq!(node.attribute("d"), Some(&text("M0 0")));
    for name in &names[1..] {
        assert_eq!(node.attribute(name), Some(&text("")));
    }
    assert!(node.children.is_empty());
    assert_eq!(node.tag, "path");
}

#[test]
fn path_node_relays_every_attribute_that_is_set() {
    let node = from_path(&full_path());
    assert_eq!(
        node.attributes,
        vec![
            attr("d", "M10 10 H 90 V 90 H 10 Z"),
            attr("class", "typst-shape"),
            attr("fill", "#ffffff"),
            attr("fillRule", "nonzero"),
            attr("stroke", "black"),
            attr("strokeWidth", "2"),
            attr("strokeLinecap", "butt"),
            attr("strokeLinejoin", "miter"),
            attr("strokeMiterlimit", "4"),
        ]
    );
}

#[test]
fn present_but_empty_attribute_maps_like_an_absent_one() {
    let mut with_empty = bare_path("M0 0");
    with_empty.fill = Some(text(""));
    assert_eq!(from_path(&with_empty), from_path(&bare_path("M0 0")));
}

#[test]
fn path_maps_alike_at_every_level() {
    let expected = from_path(&full_path());
    assert_eq!(from_svg_element(&SvgEle::Path(full_path())), expected);
    assert_eq!(from_g_element(&GEle::Path(full_path())), expected);
    assert_eq!(from_symbol_element(&SymbolEle::Path(full_path())), expected);
}

#[test]
fn use_node_has_its_five_attributes() {
    let node = from_use(&sample_use());
    assert_eq!(node.tag, "use");
    assert_eq!(
        node.attributes,
        vec![
            attr("fill", "#000000"),
            attr("x", "0"),
            attr("fillRule", ""),
            attr("href", "#g1"),
            attr("transform", ""),
        ]
    );
    assert!(node.children.is_empty());
}

#[test]
fn use_node_keeps_an_unresolved_reference() {
    let mut reference = sample_use();
    reference.href = text("#no-such-symbol");
    reference.transform = Some(text("scale(2)"));
    let node = from_use(&reference);
    assert_eq!(node.attribute("href"), Some(&text("#no-such-symbol")));
    assert_eq!(node.attribute("transform"), Some(&text("scale(2)")));
}

#[test]
fn image_node_has_its_five_attributes() {
    let node = from_image(&sample_image());
    assert_eq!(node.tag, "image");
    assert_eq!(
        node.attributes,
        vec![
            attr("width", "64"),
            attr("height", "48"),
            attr("preserveAspectRatio", "none"),
            attr("href", "data:image/png;base64,AAAA"),
            attr("transform", ""),
        ]
    );
    assert!(node.children.is_empty());
}

#[test]
fn group_without_child_list_and_group_with_empty_list_map_alike() {
    let absent = from_g(&group(None));
    let empty = from_g(&group(Some(vec![])));
    assert!(absent.children.is_empty());
    assert!(empty.children.is_empty());
    assert_eq!(absent, empty);
    assert_eq!(absent.tag, "g");
    assert_eq!(absent.attributes, vec![attr("class", ""), attr("transform", "")]);
}

#[test]
fn group_children_keep_their_order() {
    let g = group(Some(vec![
        GEle::Path(bare_path("A")),
        GEle::Use(sample_use()),
        GEle::Path(bare_path("C")),
    ]));
    let node = from_g(&g);
    assert_eq!(node.children.len(), 3);
    assert_eq!(node.children[0], from_path(&bare_path("A")));
    assert_eq!(node.children[1], from_use(&sample_use()));
    assert_eq!(node.children[2], from_path(&bare_path("C")));
}

#[test]
fn equal_children_are_not_merged() {
    let g = group(Some(vec![
        GEle::Path(bare_path("A")),
        GEle::Path(bare_path("A")),
        GEle::Path(bare_path("A")),
    ]));
    assert_eq!(from_g(&g).children.len(), 3);
}

#[test]
fn group_attributes_are_relayed() {
    let g = G {
        class: Some(text("typst-group")),
        transform: Some(text("translate(1 2)")),
        elements: None,
    };
    let node = from_g_element(&GEle::G(g));
    assert_eq!(
        node.attributes,
        vec![attr("class", "typst-group"), attr("transform", "translate(1 2)")]
    );
}

#[test]
fn deeply_nested_groups_keep_their_depth() {
    let mut g = group(None);
    for _ in 0..50 {
        g = group(Some(vec![GEle::G(g)]));
    }
    let node = from_g(&g);
    assert_eq!(node_depth(&node), 51);
    assert_eq!(node_count(&node), 51);
}

#[test]
fn symbol_with_path_has_one_path_child() {
    let symbol = Symbol {
        id: text("g1"),
        overflow: text("visible"),
        element: SymbolEle::Path(bare_path("M1 1")),
    };
    let node = from_symbol(&symbol);
    assert_eq!(node.tag, "symbol");
    assert_eq!(node.attributes, vec![attr("id", "g1"), attr("overflow", "visible")]);
    assert_eq!(node.children.len(), 1);
    assert_eq!(node.children[0].tag, "path");
    assert_eq!(node.children[0], from_path(&bare_path("M1 1")));
}

#[test]
fn symbol_with_image_has_one_image_child() {
    let symbol = Symbol {
        id: text("g2"),
        overflow: text("hidden"),
        element: SymbolEle::Image(sample_image()),
    };
    let node = from_symbol(&symbol);
    assert_eq!(node.children.len(), 1);
    assert_eq!(node.children[0].tag, "image");
    assert_eq!(node.children[0], from_image(&sample_image()));
}

#[test]
fn defs_children_keep_their_order() {
    let defs = Defs {
        id: text("glyph"),
        elements: vec![
            Symbol {
                id: text("a"),
                overflow: text("visible"),
                element: SymbolEle::Path(bare_path("A")),
            },
            Symbol {
                id: text("b"),
                overflow: text("visible"),
                element: SymbolEle::Path(bare_path("B")),
            },
        ],
    };
    let node = from_defs(&defs);
    assert_eq!(node.tag, "defs");
    assert_eq!(node.attributes, vec![attr("id", "glyph")]);
    assert_eq!(node.children.len(), 2);
    assert_eq!(node.children[0].attribute("id"), Some(&text("a")));
    assert_eq!(node.children[1].attribute("id"), Some(&text("b")));
}

#[test]
fn empty_defs_has_no_children() {
    let node = from_svg_element(&SvgEle::Defs(Defs { id: text("glyph"), elements: vec![] }));
    assert_eq!(node.tag, "defs");
    assert!(node.children.is_empty());
}

#[test]
fn root_children_keep_their_order() {
    let node = remap(&sample_document());
    let tags: Vec<&str> = node.children.iter().map(|c| c.tag.as_str()).collect();
    assert_eq!(tags, vec!["path", "g", "defs"]);
    assert_eq!(
        node.attributes,
        vec![
            attr("class", "typst-doc"),
            attr("width", "595.28"),
            attr("height", "841.89"),
            attr("viewBox", "0 0 595.28 841.89"),
        ]
    );
}

#[test]
fn no_node_names_an_attribute_twice() {
    fn check(node: &UiNode) {
        for (i, a) in node.attributes.iter().enumerate() {
            for b in &node.attributes[i + 1..] {
                assert_ne!(a.0, b.0);
            }
        }
        for child in &node.children {
            check(child);
        }
    }
    check(&remap(&sample_document()));
}

#[test]
fn attribute_lookup_finds_only_what_the_node_lists() {
    let node = from_path(&full_path());
    assert_eq!(node.attribute("stroke"), Some(&text("black")));
    assert_eq!(node.attribute("strokeWidth"), Some(&text("2")));
    assert_eq!(node.attribute("stroke-width"), None);
    assert_eq!(node.attribute("D"), None);
    assert_eq!(node.attribute(""), None);
}

#[test]
fn attribute_lookup_gives_the_first_of_two_equal_names() {
    let node = UiNode {
        tag: text("x"),
        attributes: vec![attr("a", "1"), attr("b", "2"), attr("a", "3")],
        children: vec![],
    };
    assert_eq!(node.attribute("a"), Some(&text("1")));
    assert_eq!(node.attribute("b"), Some(&text("2")));
}

#[test]
fn default_path_is_empty() {
    let path = Path::default();
    assert_eq!(
        path,
        Path {
            d: text(""),
            class: None,
            fill: None,
            stroke: None,
            fill_rule: None,
            stroke_width: None,
            stroke_linecap: None,
            stroke_linejoin: None,
            stroke_miterlimit: None,
        }
    );
}

#[test]
fn content_types_hold_their_text() {
    assert_eq!(Class { content: text("a") }.content, "a");
    assert_eq!(Fill { content: text("red") }.content, "red");
    assert_eq!(FillRule { content: text("evenodd") }.content, "evenodd");
    assert_eq!(D { content: text("M0 0") }.content, "M0 0");
    assert_eq!(PathEle::Fill(text("red")), PathEle::Fill(text("red")));
    assert_ne!(PathEle::Fill(text("red")), PathEle::Class(text("red")));
}
