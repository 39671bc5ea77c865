//! The buttons of the workspace module.

use vstd::prelude::*;
use vstd::string::StringExecFns;
use crate::modules::StyleClass;
use crate::modules::sway::EventKind;

verus! {

/// The part of a sway workspace that the workspace module reads.
#[derive(Debug, PartialEq, Eq)]
pub struct WorkspaceInfo {
    pub num: i32,
    pub name: String,
    pub visible: bool,
    pub focused: bool,
    pub urgent: bool,
}

/// One workspace button: its label, its style classes (in the order they
/// are added), the sway command a click on it runs, and its position in the
/// button box.
#[derive(Debug, PartialEq, Eq)]
pub struct ButtonSpec {
    pub label: String,
    pub classes: Vec<StyleClass>,
    pub command: String,
    pub position: i32,
}

/// The classes of a workspace button: `focused` for the focused workspace,
/// else `urgent` for an urgent one; then `visible` for a visible one.
pub open spec fn workspace_classes(focused: bool, urgent: bool, visible: bool) -> Seq<StyleClass> {
    let first: Seq<StyleClass> = if focused {
        seq![StyleClass::Focused]
    } else if urgent {
        seq![StyleClass::Urgent]
    } else {
        Seq::empty()
    };
    if visible {
        first.push(StyleClass::Visible)
    } else {
        first
    }
}

/// A workspace button carries at most one of `focused` and `urgent`, and
/// `focused` wins; `visible` is there exactly for a visible workspace, last.
pub proof fn lemma_workspace_classes(focused: bool, urgent: bool, visible: bool)
    ensures
        !(workspace_classes(focused, urgent, visible).contains(StyleClass::Focused)
            && workspace_classes(focused, urgent, visible).contains(StyleClass::Urgent)),
        workspace_classes(focused, urgent, visible).contains(StyleClass::Focused) <==> focused,
        workspace_classes(focused, urgent, visible).contains(StyleClass::Urgent) <==> (!focused
            && urgent),
        workspace_classes(focused, urgent, visible).contains(StyleClass::Visible) <==> visible,
        workspace_classes(focused, urgent, visible).len() == (if focused || urgent {
            1int
        } else {
            0int
        }) + (if visible {
            1int
        } else {
            0int
        }),
        visible ==> workspace_classes(focused, urgent, visible).last() == StyleClass::Visible,
        workspace_classes(focused, urgent, visible).no_duplicates(),
{
    let c = workspace_classes(focused, urgent, visible);
    if focused {
        assert(c[0] == StyleClass::Focused);
    }
    if !focused && urgent {
        assert(c[0] == StyleClass::Urgent);
    }
    if visible {
        assert(c[c.len() - 1] == StyleClass::Visible);
    }
}

/// The sway command that switches to the workspace called `name`.
pub open spec fn switch_command_text(name: Seq<char>) -> Seq<char> {
    "workspace "@ + name
}

/// Whether `button` is the button for workspace `ws`.
pub open spec fn button_for(ws: WorkspaceInfo, button: ButtonSpec) -> bool {
    &&& button.label@ == ws.name@
    &&& button.classes@ == workspace_classes(ws.focused, ws.urgent, ws.visible)
    &&& button.command@ == switch_command_text(ws.name@)
    &&& button.position == ws.num + 1
}

/// Whether an event of `kind` makes the workspace module rebuild its
/// buttons: workspace events do, no other kind does.
pub fn refreshes_on(kind: EventKind) -> (refresh: bool)
    ensures
        refresh == (kind == EventKind::Workspace),
{
    match kind {
        EventKind::Workspace => true,
        _ => false,
    }
}

/// A button is fixed by its workspace: two buttons for the same workspace
/// agree in label, classes, command and position, so refreshing twice with
/// the same workspaces shows the same buttons as refreshing once.
pub proof fn lemma_button_determined(ws: WorkspaceInfo, a: ButtonSpec, b: ButtonSpec)
    requires
        button_for(ws, a),
        button_for(ws, b),
    ensures
        a.label@ == b.label@,
        a.classes@ == b.classes@,
        a.command@ == b.command@,
        a.position == b.position,
{
}

/// The switch command is the ten characters `workspace ` (the word and one
/// space) followed by the whole workspace name, unshortened.
pub proof fn lemma_switch_command_shape(name: Seq<char>)
    ensures
        switch_command_text(name).len() == 10 + name.len(),
        switch_command_text(name).take(10) == seq!['w', 'o', 'r', 'k', 's', 'p', 'a', 'c', 'e', ' '],
        switch_command_text(name).skip(10) == name,
{
    reveal_strlit("workspace ");
    assert(switch_command_text(name).take(10) =~= seq!['w', 'o', 'r', 'k', 's', 'p', 'a', 'c', 'e', ' ']);
    assert(switch_command_text(name).skip(10) =~= name);
}

/// A button sits one place past its workspace's number, so buttons of
/// higher-numbered workspaces sit further along the box.
pub proof fn lemma_button_position(ws: WorkspaceInfo, b: ButtonSpec, ws2: WorkspaceInfo, b2: ButtonSpec)
    requires
        button_for(ws, b),
        button_for(ws2, b2),
    ensures
        b.position == ws.num + 1,
        ws.num < ws2.num ==> b.position < b2.position,
        ws.num == ws2.num ==> b.position == b2.position,
        b.label@ == ws.name@,
        b.command@.skip(10) == ws.name@,
{
    lemma_switch_command_shape(ws.name@);
}

/// The sway command that switches to the workspace called `name`.
pub fn switch_command(name: &str) -> (command: String)
    ensures
        command@ == switch_command_text(name@),
        command@.len() == 10 + name@.len(),
        command@.skip(10) == name@,
{
    proof {
        lemma_switch_command_shape(name@);
    }
    let mut command = String::from_str("workspace ");
    command.append(name);
    command
}

/// The classes of a workspace button.
pub fn classes_for(ws: &WorkspaceInfo) -> (classes: Vec<StyleClass>)
    ensures
        classes@ == workspace_classes(ws.focused, ws.urgent, ws.visible),
{
    let mut classes = Vec::new();
    if ws.focused {
        classes.push(StyleClass::Focused);
    } else if ws.urgent {
        classes.push(StyleClass::Urgent);
    }
    if ws.visible {
        classes.push(StyleClass::Visible);
    }
    assert(classes@ =~= workspace_classes(ws.focused, ws.urgent, ws.visible));
    classes
}

/// The button for one workspace. Its position is one past the workspace's
/// number, which therefore must not be the largest `i32`.
pub fn workspace_button(ws: &WorkspaceInfo) -> (button: ButtonSpec)
    requires
        ws.num < i32::MAX,
    ensures
        button_for(*ws, button),
        button.position == ws.num + 1,
        button.label@ == ws.name@,
        button.command@.skip(10) == ws.name@,
{
    ButtonSpec {
        label: ws.name.clone(),
        classes: classes_for(ws),
        command: switch_command(ws.name.as_str()),
        position: ws.num + 1,
    }
}

/// The buttons that replace the old ones when the workspace list is
/// refreshed: one per workspace, in the order sway lists them.
pub fn workspace_buttons(workspaces: &Vec<WorkspaceInfo>) -> (buttons: Vec<ButtonSpec>)
    requires
        forall|i: int| 0 <= i < workspaces.len() ==> #[trigger] workspaces@[i].num < i32::MAX,
    ensures
        buttons.len() == workspaces.len(),
        forall|i: int| 0 <= i < workspaces.len() ==> button_for(workspaces@[i], #[trigger] buttons@[i]),
{
    let mut buttons: Vec<ButtonSpec> = Vec::new();
    let mut i: usize = 0;
    while i < workspaces.len()
        invariant
            i <= workspaces.len(),
            buttons.len() == i,
            forall|i: int| 0 <= i < workspaces.len() ==> #[trigger] workspaces@[i].num < i32::MAX,
            forall|j: int| 0 <= j < i ==> button_for(workspaces@[j], #[trigger] buttons@[j]),
        decreases workspaces.len() - i,
    {
        buttons.push(workspace_button(&workspaces[i]));
        i += 1;
    }
    buttons
}

} // verus!
