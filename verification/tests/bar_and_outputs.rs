use rk_bar::bar::{
    bar_edge, bar_layout, layer_anchors, layer_setup, module_widget_name, placement,
    window_settings, Anchor, BarSection, Edge, Layer, ModuleKind, Placement,
};
use rk_bar::output::OutputSet;

#[test]
fn bars_span_the_monitor_on_their_edge() {
    assert_eq!(layer_anchors(Edge::Bottom), vec![Anchor::Left, Anchor::Right, Anchor::Bottom]);
    assert_eq!(layer_anchors(Edge::Top), vec![Anchor::Left, Anchor::Right, Anchor::Top]);
    let setup = layer_setup(bar_edge());
    assert_eq!(setup.layer, Layer::Top);
    assert!(setup.auto_exclusive_zone);
    assert_eq!(setup.anchors, vec![Anchor::Left, Anchor::Right, Anchor::Bottom]);
}

#[test]
fn sections_place_modules() {
    assert_eq!(placement(BarSection::Left), Placement::StartOfLeftBox);
    assert_eq!(placement(BarSection::Center), Placement::Center);
    assert_eq!(placement(BarSection::Right), Placement::StartOfRightBox);
}

#[test]
fn bar_layout_and_window() {
    assert_eq!(bar_edge(), Edge::Bottom);
    assert_eq!(
        bar_layout(),
        vec![
            (ModuleKind::Workspaces, BarSection::Left),
            (ModuleKind::Title, BarSection::Center),
            (ModuleKind::Clock, BarSection::Right),
        ]
    );
    let w = window_settings();
    assert_eq!(w.title, "rk-bar");
    assert_eq!(w.widget_name, "bar");
    assert_eq!(w.stylesheet_path, "rk-bar.css");
    assert_eq!(w.style_priority, 800);
    assert!(w.resizable);
    assert!(!w.decorated);
    assert_eq!(module_widget_name(ModuleKind::Workspaces), Some("workspaces".to_string()));
    assert_eq!(module_widget_name(ModuleKind::Title), Some("title".to_string()));
    assert_eq!(module_widget_name(ModuleKind::Clock), None);
}

#[test]
fn monitors_get_outputs_in_order() {
    let mut set: OutputSet<&str> = OutputSet::new();
    set.add_monitor(10, "a");
    set.add_monitor(20, "b");
    assert_eq!(set.len(), 2);
    assert_eq!((set.monitor_at(0), *set.bar_at(0)), (10, "a"));
    assert_eq!((set.monitor_at(1), *set.bar_at(1)), (20, "b"));
}

#[test]
fn removing_a_monitor_keeps_only_its_outputs() {
    let mut set: OutputSet<&str> = OutputSet::new();
    set.add_monitor(10, "a");
    set.add_monitor(20, "b");
    set.add_monitor(10, "c");
    set.remove_monitor(10);
    assert_eq!(set.len(), 2);
    assert_eq!((set.monitor_at(0), *set.bar_at(0)), (10, "a"));
    assert_eq!((set.monitor_at(1), *set.bar_at(1)), (10, "c"));
    set.remove_monitor(10);
    assert_eq!(set.len(), 2);
    set.remove_monitor(30);
    assert_eq!(set.len(), 0);
}
