use rk_bar::modules::sway::title::{title_action, TitleAction, WindowChange, WindowEventInfo};
use rk_bar::modules::sway::workspaces::{
    classes_for, refreshes_on, switch_command, workspace_button, workspace_buttons, ButtonSpec,
    WorkspaceInfo,
};
use rk_bar::modules::sway::EventKind;
use rk_bar::modules::StyleClass;

fn window(change: WindowChange, name: Option<&str>, focused: bool, urgent: bool) -> WindowEventInfo {
    WindowEventInfo { change, name: name.map(|n| n.to_string()), focused, urgent }
}

fn ws(num: i32, name: &str, visible: bool, focused: bool, urgent: bool) -> WorkspaceInfo {
    WorkspaceInfo { num, name: name.to_string(), visible, focused, urgent }
}

#[test]
fn focus_shows_the_window_title() {
    assert_eq!(
        title_action(&window(WindowChange::Focus, Some("vim"), true, false)),
        TitleAction::SetText("vim".to_string())
    );
    assert_eq!(
        title_action(&window(WindowChange::Focus, None, false, false)),
        TitleAction::SetText(String::new())
    );
}

#[test]
fn title_change_shows_only_for_the_focused_window() {
    assert_eq!(
        title_action(&window(WindowChange::Title, Some("new"), true, false)),
        TitleAction::SetText("new".to_string())
    );
    assert_eq!(
        title_action(&window(WindowChange::Title, Some("other"), false, false)),
        TitleAction::Nothing
    );
}

#[test]
fn urgency_changes_the_urgent_class() {
    assert_eq!(
        title_action(&window(WindowChange::Urgent, Some("x"), false, true)),
        TitleAction::AddClass(StyleClass::Urgent)
    );
    assert_eq!(
        title_action(&window(WindowChange::Urgent, Some("x"), true, false)),
        TitleAction::RemoveClass(StyleClass::Urgent)
    );
}

#[test]
fn other_window_events_are_ignored() {
    for change in [
        WindowChange::New,
        WindowChange::Close,
        WindowChange::FullscreenMode,
        WindowChange::Move,
        WindowChange::Floating,
        WindowChange::Mark,
    ] {
        assert_eq!(title_action(&window(change, Some("x"), true, true)), TitleAction::Nothing);
    }
}

#[test]
fn class_names() {
    assert_eq!(StyleClass::Focused.name(), "focused");
    assert_eq!(StyleClass::Urgent.name(), "urgent");
    assert_eq!(StyleClass::Visible.name(), "visible");
}

#[test]
fn workspace_classes_prefer_focused_over_urgent() {
    assert_eq!(classes_for(&ws(1, "1", true, true, true)), vec![StyleClass::Focused, StyleClass::Visible]);
    assert_eq!(classes_for(&ws(1, "1", false, false, true)), vec![StyleClass::Urgent]);
    assert_eq!(classes_for(&ws(1, "1", true, false, false)), vec![StyleClass::Visible]);
    assert_eq!(classes_for(&ws(1, "1", false, false, false)), Vec::<StyleClass>::new());
}

#[test]
fn workspace_button_switches_to_its_workspace() {
    assert_eq!(
        workspace_button(&ws(3, "3:web", true, true, false)),
        ButtonSpec {
            label: "3:web".to_string(),
            classes: vec![StyleClass::Focused, StyleClass::Visible],
            command: "workspace 3:web".to_string(),
            position: 4,
        }
    );
    assert_eq!(switch_command("mail"), "workspace mail");
    assert_eq!(workspace_button(&ws(-1, "named", false, false, false)).position, 0);
}

#[test]
fn workspace_buttons_follow_the_workspace_list() {
    let list = vec![ws(1, "1", true, false, false), ws(2, "2", false, false, true), ws(5, "five", false, false, false)];
    let buttons = workspace_buttons(&list);
    assert_eq!(buttons.len(), 3);
    assert_eq!(buttons[0].label, "1");
    assert_eq!(buttons[1].classes, vec![StyleClass::Urgent]);
    assert_eq!(buttons[2].command, "workspace five");
    assert_eq!(buttons[2].position, 6);
    assert!(workspace_buttons(&Vec::new()).is_empty());
}

#[test]
fn only_workspace_events_refresh_the_buttons() {
    assert!(refreshes_on(EventKind::Workspace));
    assert!(!refreshes_on(EventKind::Window));
    assert!(!refreshes_on(EventKind::Mode));
}
