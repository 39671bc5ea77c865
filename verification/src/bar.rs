//! Placement of a bar on its monitor and of the modules inside it.

use vstd::prelude::*;
use vstd::string::StringExecFns;

verus! {

/// The screen edge a bar is attached to.
#[derive(Clone, Copy, Debug, PartialEq, Eq, Structural)]
pub enum Edge {
    Top,
    Bottom,
}

/// The three sections of a bar.
#[derive(Clone, Copy, Debug, PartialEq, Eq, Structural)]
pub enum BarSection {
    Left,
    Center,
    Right,
}

/// An edge of the monitor that a layer-shell surface can be anchored to.
#[derive(Clone, Copy, Debug, PartialEq, Eq, Structural)]
pub enum Anchor {
    Left,
    Right,
    Top,
    Bottom,
}

/// The layer-shell anchor that corresponds to a bar edge.
pub open spec fn edge_anchor(edge: Edge) -> Anchor {
    match edge {
        Edge::Top => Anchor::Top,
        Edge::Bottom => Anchor::Bottom,
    }
}

/// A bar is anchored to the monitor edge it sits on, and to no edge
/// opposite it: a top bar to the top, a bottom bar to the bottom.
pub proof fn lemma_edge_anchor()
    ensures
        edge_anchor(Edge::Top) == Anchor::Top,
        edge_anchor(Edge::Bottom) == Anchor::Bottom,
        forall|e: Edge| #[trigger] edge_anchor(e) != Anchor::Left && edge_anchor(e) != Anchor::Right,
{
}

/// The anchors a bar window gets, in the order they are set: it spans the
/// monitor from left to right and sticks to its own edge.
pub fn layer_anchors(edge: Edge) -> (anchors: Vec<Anchor>)
    ensures
        anchors@ == seq![Anchor::Left, Anchor::Right, edge_anchor(edge)],
        edge == Edge::Top ==> anchors@ == seq![Anchor::Left, Anchor::Right, Anchor::Top],
        edge == Edge::Bottom ==> anchors@ == seq![Anchor::Left, Anchor::Right, Anchor::Bottom],
{
    let own = match edge {
        Edge::Bottom => Anchor::Bottom,
        Edge::Top => Anchor::Top,
    };
    let mut anchors = Vec::new();
    anchors.push(Anchor::Left);
    anchors.push(Anchor::Right);
    anchors.push(own);
    anchors
}

/// The layer of the compositor's stacking that a surface is placed in.
#[derive(Clone, Copy, Debug, PartialEq, Eq, Structural)]
pub enum Layer {
    Background,
    Bottom,
    Top,
    Overlay,
}

/// How a bar's window is set up as a layer-shell surface.
#[derive(Debug, PartialEq, Eq)]
pub struct LayerSetup {
    pub layer: Layer,
    /// Whether the compositor keeps the area under the bar free of windows.
    pub auto_exclusive_zone: bool,
    /// The monitor edges the surface is anchored to, in the order they are set.
    pub anchors: Vec<Anchor>,
}

/// The layer-shell setup of a bar on `edge`: in the top layer, with an
/// exclusive zone of its own size, spanning the monitor from left to right
/// on its edge.
pub fn layer_setup(edge: Edge) -> (setup: LayerSetup)
    ensures
        setup.layer == Layer::Top,
        setup.auto_exclusive_zone,
        setup.anchors@ == seq![Anchor::Left, Anchor::Right, edge_anchor(edge)],
{
    LayerSetup { layer: Layer::Top, auto_exclusive_zone: true, anchors: layer_anchors(edge) }
}

/// Where the widget of a module goes when it is added to a bar section.
#[derive(Clone, Copy, Debug, PartialEq, Eq, Structural)]
pub enum Placement {
    /// Packed at the start of the left box.
    StartOfLeftBox,
    /// Packed at the start of the right box (which sits at the end of the bar).
    StartOfRightBox,
    /// The center widget of the bar.
    Center,
}

/// Where a module added to `section` goes.
pub open spec fn section_placement(section: BarSection) -> Placement {
    match section {
        BarSection::Left => Placement::StartOfLeftBox,
        BarSection::Right => Placement::StartOfRightBox,
        BarSection::Center => Placement::Center,
    }
}

/// Each section has a place of its own: the left section packs into the
/// left box, the right section into the right box, and the center section
/// is the bar's center widget.
pub proof fn lemma_section_placement()
    ensures
        section_placement(BarSection::Left) == Placement::StartOfLeftBox,
        section_placement(BarSection::Right) == Placement::StartOfRightBox,
        section_placement(BarSection::Center) == Placement::Center,
        forall|a: BarSection, b: BarSection|
            a != b ==> #[trigger] section_placement(a) != #[trigger] section_placement(b),
{
}

/// Where a module added to `section` goes: the left and right sections pack
/// it after the modules they already hold, the center section makes it the
/// bar's center widget.
pub fn placement(section: BarSection) -> (p: Placement)
    ensures
        p == section_placement(section),
        section == BarSection::Left ==> p == Placement::StartOfLeftBox,
        section == BarSection::Right ==> p == Placement::StartOfRightBox,
        section == BarSection::Center ==> p == Placement::Center,
{
    match section {
        BarSection::Left => Placement::StartOfLeftBox,
        BarSection::Right => Placement::StartOfRightBox,
        BarSection::Center => Placement::Center,
    }
}

/// The modules a bar can show.
#[derive(Clone, Copy, Debug, PartialEq, Eq, Structural)]
pub enum ModuleKind {
    Workspaces,
    Title,
    Clock,
}

/// The widget name a module's widget gets, where it gets one: `workspaces`
/// for the workspace box, `title` for the title label; the clock's label
/// is not named.
pub fn module_widget_name(module: ModuleKind) -> (name: Option<String>)
    ensures
        module == ModuleKind::Workspaces ==> (name matches Some(n) && n@ == "workspaces"@),
        module == ModuleKind::Title ==> (name matches Some(n) && n@ == "title"@),
        module == ModuleKind::Clock ==> name is None,
{
    match module {
        ModuleKind::Workspaces => Some(String::from_str("workspaces")),
        ModuleKind::Title => Some(String::from_str("title")),
        ModuleKind::Clock => None,
    }
}

/// The edge every bar is put on.
pub fn bar_edge() -> (edge: Edge)
    ensures
        edge == Edge::Bottom,
{
    Edge::Bottom
}

/// The modules of a bar, in the order they are made and added, each with
/// its section: the workspaces on the left, the window title in the
/// center, the clock on the right.
pub fn bar_layout() -> (layout: Vec<(ModuleKind, BarSection)>)
    ensures
        layout@ == seq![
            (ModuleKind::Workspaces, BarSection::Left),
            (ModuleKind::Title, BarSection::Center),
            (ModuleKind::Clock, BarSection::Right),
        ],
{
    let mut layout = Vec::new();
    layout.push((ModuleKind::Workspaces, BarSection::Left));
    layout.push((ModuleKind::Title, BarSection::Center));
    layout.push((ModuleKind::Clock, BarSection::Right));
    layout
}

/// How a bar's window is configured.
#[derive(Debug, PartialEq, Eq)]
pub struct WindowSettings {
    pub title: String,
    /// The widget name the stylesheet selects the window by.
    pub widget_name: String,
    /// The stylesheet loaded for the window's screen.
    pub stylesheet_path: String,
    /// The priority the stylesheet is added with.
    pub style_priority: u32,
    pub resizable: bool,
    pub decorated: bool,
}

/// The configuration of every bar window: titled `rk-bar`, named `bar`,
/// styled by `rk-bar.css` at priority 800, resizable and undecorated.
pub fn window_settings() -> (settings: WindowSettings)
    ensures
        settings.title@ == "rk-bar"@,
        settings.widget_name@ == "bar"@,
        settings.stylesheet_path@ == "rk-bar.css"@,
        settings.style_priority == 800,
        settings.resizable,
        !settings.decorated,
{
    WindowSettings {
        title: String::from_str("rk-bar"),
        widget_name: String::from_str("bar"),
        stylesheet_path: String::from_str("rk-bar.css"),
        style_priority: 800,
        resizable: true,
        decorated: false,
    }
}

} // verus!
