//! The typed object model of the markup: the root canvas and the closed set
//! of element kinds that may stand below it.
//!
//! Every executable type has a mathematical view in which each piece of text
//! is a sequence of characters and each list of children a sequence of views.

use vstd::prelude::*;

verus! {

/// View of an optional piece of text; absence is kept apart from the empty text.
pub open spec fn opt_view(text: Option<String>) -> Option<Seq<char>> {
    match text {
        Some(s) => Some(s@),
        None => None,
    }
}

/// Model of a `<path>` element.
pub struct PathView {
    pub d: Seq<char>,
    pub class: Option<Seq<char>>,
    pub fill: Option<Seq<char>>,
    pub stroke: Option<Seq<char>>,
    pub fill_rule: Option<Seq<char>>,
    pub stroke_width: Option<Seq<char>>,
    pub stroke_linecap: Option<Seq<char>>,
    pub stroke_linejoin: Option<Seq<char>>,
    pub stroke_miterlimit: Option<Seq<char>>,
}

/// Model of a `<use>` element.
pub struct UseView {
    pub fill: Option<Seq<char>>,
    pub x: Seq<char>,
    pub fill_rule: Option<Seq<char>>,
    pub href: Seq<char>,
    pub transform: Option<Seq<char>>,
}

/// Model of an `<image>` element.
pub struct ImageView {
    pub width: Seq<char>,
    pub height: Seq<char>,
    pub preserve_aspect_ratio: Seq<char>,
    pub href: Seq<char>,
    pub transform: Option<Seq<char>>,
}

/// Model of a `<g>` element. A group without a child list (`None`) and a
/// group with an empty one are different values.
pub struct GView {
    pub class: Option<Seq<char>>,
    pub transform: Option<Seq<char>>,
    pub elements: Option<Seq<GEleView>>,
}

/// Model of what may stand inside a group.
pub enum GEleView {
    G(GView),
    Use(UseView),
    Path(PathView),
    Image(ImageView),
}

/// Model of what a symbol holds: exactly one path or one image.
pub enum SymbolEleView {
    Path(PathView),
    Image(ImageView),
}

/// Model of a `<symbol>` element.
pub struct SymbolView {
    pub id: Seq<char>,
    pub overflow: Seq<char>,
    pub element: SymbolEleView,
}

/// Model of a `<defs>` element.
pub struct DefsView {
    pub id: Seq<char>,
    pub elements: Seq<SymbolView>,
}

/// Model of what may stand directly below the root.
pub enum SvgEleView {
    Path(PathView),
    G(GView),
    Defs(DefsView),
}

/// Model of the root `<svg>` element.
pub struct SvgView {
    pub class: Seq<char>,
    pub width: Seq<char>,
    pub height: Seq<char>,
    pub view_box: Seq<char>,
    pub elements: Seq<SvgEleView>,
}

/// Model of a path attribute written as a child element.
pub enum PathEleView {
    Class(Seq<char>),
    Fill(Seq<char>),
    D(Seq<char>),
    FillRule(Seq<char>),
}

/// The root `<svg>` element. Its dimensions are text that is relayed, never
/// computed with.
#[derive(Debug, PartialEq)]
pub struct Svg {
    pub class: String,
    pub width: String,
    pub height: String,
    pub view_box: String,
    pub elements: Vec<SvgEle>,
}

/// An element directly below the root.
#[derive(Debug, PartialEq)]
pub enum SvgEle {
    Path(Path),
    G(G),
    Defs(Defs),
}

/// A `<path>` element: the path data and its optional styling. It has no
/// children.
#[derive(Debug, PartialEq)]
pub struct Path {
    pub d: String,
    pub class: Option<String>,
    pub fill: Option<String>,
    pub stroke: Option<String>,
    pub fill_rule: Option<String>,
    pub stroke_width: Option<String>,
    pub stroke_linecap: Option<String>,
    pub stroke_linejoin: Option<String>,
    pub stroke_miterlimit: Option<String>,
}

/// A path attribute written as a child element of its own.
#[derive(Debug, PartialEq)]
pub enum PathEle {
    Class(String),
    Fill(String),
    D(String),
    FillRule(String),
}

/// A `<g>` element. `elements` is `None` where the markup gives the group no
/// child list at all.
#[derive(Debug, PartialEq)]
pub struct G {
    pub class: Option<String>,
    pub transform: Option<String>,
    pub elements: Option<Vec<GEle>>,
}

/// An element inside a group.
#[derive(Debug, PartialEq)]
pub enum GEle {
    G(G),
    Use(Use),
    Path(Path),
    Image(Image),
}

/// A `<use>` element: a reference to a symbol, `href` being `#` and the
/// symbol's id. Whether the symbol exists is not this model's concern.
#[derive(Debug, PartialEq)]
pub struct Use {
    pub fill: Option<String>,
    pub x: String,
    pub fill_rule: Option<String>,
    pub href: String,
    pub transform: Option<String>,
}

/// An `<image>` element.
#[derive(Debug, PartialEq)]
pub struct Image {
    pub width: String,
    pub height: String,
    pub preserve_aspect_ratio: String,
    pub href: String,
    pub transform: Option<String>,
}

/// A `<defs>` element: the container of the reusable symbols.
#[derive(Debug, PartialEq)]
pub struct Defs {
    pub id: String,
    pub elements: Vec<Symbol>,
}

/// A `<symbol>` element. It holds one path or one image, never a group and
/// never another symbol.
#[derive(Debug, PartialEq)]
pub struct Symbol {
    pub id: String,
    pub overflow: String,
    pub element: SymbolEle,
}

/// The content of a symbol.
#[derive(Debug, PartialEq)]
pub enum SymbolEle {
    Path(Path),
    Image(Image),
}

/// The text of a `class` attribute written as element content.
#[derive(Debug, PartialEq)]
pub struct Class {
    pub content: String,
}

/// The text of a `fill` attribute written as element content.
#[derive(Debug, PartialEq)]
pub struct Fill {
    pub content: String,
}

/// The text of a `fill-rule` attribute written as element content.
#[derive(Debug, PartialEq)]
pub struct FillRule {
    pub content: String,
}

/// The text of a `d` attribute written as element content.
#[derive(Debug, PartialEq)]
pub struct D {
    pub content: String,
}

impl View for Path {
    type V = PathView;

    open spec fn view(&self) -> PathView {
        PathView {
            d: self.d@,
            class: opt_view(self.class),
            fill: opt_view(self.fill),
            stroke: opt_view(self.stroke),
            fill_rule: opt_view(self.fill_rule),
            stroke_width: opt_view(self.stroke_width),
            stroke_linecap: opt_view(self.stroke_linecap),
            stroke_linejoin: opt_view(self.stroke_linejoin),
            stroke_miterlimit: opt_view(self.stroke_miterlimit),
        }
    }
}

impl View for Use {
    type V = UseView;

    open spec fn view(&self) -> UseView {
        UseView {
            fill: opt_view(self.fill),
            x: self.x@,
            fill_rule: opt_view(self.fill_rule),
            href: self.href@,
            transform: opt_view(self.transform),
        }
    }
}

impl View for Image {
    type V = ImageView;

    open spec fn view(&self) -> ImageView {
        ImageView {
            width: self.width@,
            height: self.height@,
            preserve_aspect_ratio: self.preserve_aspect_ratio@,
            href: self.href@,
            transform: opt_view(self.transform),
        }
    }
}

/// The model of a group. It is a function of its own because a group and its
/// elements contain each other; `G::view` is this function.
pub open spec fn g_view(g: G) -> GView
    decreases g,
{
    GView {
        class: opt_view(g.class),
        transform: opt_view(g.transform),
        elements: match g.elements {
            Some(list) => Some(
                Seq::new(
                    list@.len(),
                    |i: int|
                        if 0 <= i < list@.len() {
                            g_ele_view(list@[i])
                        } else {
                            arbitrary()
                        },
                ),
            ),
            None => None,
        },
    }
}

/// The model of an element of a group; `GEle::view` is this function.
pub open spec fn g_ele_view(e: GEle) -> GEleView
    decreases e,
{
    match e {
        GEle::G(g) => GEleView::G(g_view(g)),
        GEle::Use(u) => GEleView::Use(u@),
        GEle::Path(p) => GEleView::Path(p@),
        GEle::Image(i) => GEleView::Image(i@),
    }
}

impl View for G {
    type V = GView;

    open spec fn view(&self) -> GView {
        g_view(*self)
    }
}

impl View for GEle {
    type V = GEleView;

    open spec fn view(&self) -> GEleView {
        g_ele_view(*self)
    }
}

/// The view of a group, one level unfolded: its child list, where it has one,
/// is the list of its elements' views, in their order.
pub proof fn lemma_g_view(g: G)
    ensures
        g@.class == opt_view(g.class),
        g@.transform == opt_view(g.transform),
        g@.elements == match g.elements {
            Some(list) => Some(list@.map_values(|e: GEle| e@)),
            None => None,
        },
{
    reveal_with_fuel(g_view, 2);
    if let Some(list) = g.elements {
        assert(g@.elements->0 =~= list@.map_values(|e: GEle| e@));
    }
}

impl View for SymbolEle {
    type V = SymbolEleView;

    open spec fn view(&self) -> SymbolEleView {
        match self {
            SymbolEle::Path(p) => SymbolEleView::Path(p@),
            SymbolEle::Image(i) => SymbolEleView::Image(i@),
        }
    }
}

impl View for Symbol {
    type V = SymbolView;

    open spec fn view(&self) -> SymbolView {
        SymbolView { id: self.id@, overflow: self.overflow@, element: self.element@ }
    }
}

impl View for Defs {
    type V = DefsView;

    open spec fn view(&self) -> DefsView {
        DefsView { id: self.id@, elements: self.elements@.map_values(|s: Symbol| s@) }
    }
}

impl View for SvgEle {
    type V = SvgEleView;

    open spec fn view(&self) -> SvgEleView {
        match self {
            SvgEle::Path(p) => SvgEleView::Path(p@),
            SvgEle::G(g) => SvgEleView::G(g@),
            SvgEle::Defs(d) => SvgEleView::Defs(d@),
        }
    }
}

impl View for Svg {
    type V = SvgView;

    open spec fn view(&self) -> SvgView {
        SvgView {
            class: self.class@,
            width: self.width@,
            height: self.height@,
            view_box: self.view_box@,
            elements: self.elements@.map_values(|e: SvgEle| e@),
        }
    }
}

impl View for PathEle {
    type V = PathEleView;

    open spec fn view(&self) -> PathEleView {
        match self {
            PathEle::Class(s) => PathEleView::Class(s@),
            PathEle::Fill(s) => PathEleView::Fill(s@),
            PathEle::D(s) => PathEleView::D(s@),
            PathEle::FillRule(s) => PathEleView::FillRule(s@),
        }
    }
}

impl View for Class {
    type V = Seq<char>;

    open spec fn view(&self) -> Seq<char> {
        self.content@
    }
}

impl View for Fill {
    type V = Seq<char>;

    open spec fn view(&self) -> Seq<char> {
        self.content@
    }
}

impl View for FillRule {
    type V = Seq<char>;

    open spec fn view(&self) -> Seq<char> {
        self.content@
    }
}

impl View for D {
    type V = Seq<char>;

    open spec fn view(&self) -> Seq<char> {
        self.content@
    }
}

impl Default for Path {
    /// The path with empty path data and no styling.
    fn default() -> (path: Path)
        ensures
            path@ == (PathView {
                d: Seq::empty(),
                class: None,
                fill: None,
                stroke: None,
                fill_rule: None,
                stroke_width: None,
                stroke_linecap: None,
                stroke_linejoin: None,
                stroke_miterlimit: None,
            }),
    {
        Path {
            d: String::new(),
            class: None,
            fill: None,
            stroke: None,
            fill_rule: None,
            stroke_width: None,
            stroke_linecap: None,
            stroke_linejoin: None,
            stroke_miterlimit: None,
        }
    }
}

} // verus!
