use rk_bar::bar::{bar_layout, ModuleKind};
use rk_bar::modules::sway::{every_kind, module_events, EventKind, Subscriptions};

#[test]
fn subscribers_get_their_kinds_in_order() {
    let mut subs = Subscriptions::new();
    assert!(subs.event_kinds().is_empty());
    subs.subscribe(&[EventKind::Window, EventKind::Workspace], 0);
    subs.subscribe(&[EventKind::Workspace], 1);
    subs.subscribe(&[EventKind::Tick, EventKind::Tick], 2);
    assert_eq!(subs.subscribers_for(EventKind::Workspace), vec![0, 1]);
    assert_eq!(subs.subscribers_for(EventKind::Window), vec![0]);
    assert_eq!(subs.subscribers_for(EventKind::Tick), vec![2, 2]);
    assert_eq!(subs.subscribers_for(EventKind::Input), Vec::<usize>::new());
    assert_eq!(
        subs.event_kinds(),
        vec![EventKind::Workspace, EventKind::Window, EventKind::Tick]
    );
}

#[test]
fn subscribing_to_nothing_changes_nothing() {
    let mut subs = Subscriptions::new();
    subs.subscribe(&[], 7);
    assert!(subs.event_kinds().is_empty());
    for kind in every_kind() {
        assert!(subs.subscribers_for(kind).is_empty());
    }
}

#[test]
fn bar_modules_receive_their_events() {
    let mut subs = Subscriptions::new();
    let layout = bar_layout();
    for (id, (module, _)) in layout.iter().enumerate() {
        subs.subscribe(&module_events(*module), id);
    }
    assert_eq!(subs.subscribers_for(EventKind::Workspace), vec![0]);
    assert_eq!(subs.subscribers_for(EventKind::Window), vec![1]);
    assert_eq!(subs.event_kinds(), vec![EventKind::Workspace, EventKind::Window]);
    assert!(module_events(ModuleKind::Clock).is_empty());
}

#[test]
fn kind_codes_follow_every_kind() {
    let kinds = every_kind();
    assert_eq!(kinds.len(), 9);
    for (i, kind) in kinds.iter().enumerate() {
        assert_eq!(kind.code() as usize, i);
    }
}
