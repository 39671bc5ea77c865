//! What the window-title module does with a sway window event.

use vstd::prelude::*;
use vstd::string::StringExecFns;
use crate::modules::StyleClass;

verus! {

/// What changed about a window, as sway reports it.
#[derive(Clone, Copy, Debug, PartialEq, Eq, Structural)]
pub enum WindowChange {
    New,
    Close,
    Focus,
    Title,
    FullscreenMode,
    Move,
    Floating,
    Urgent,
    Mark,
}

/// The part of a sway window event that the title module reads.
#[derive(Debug, PartialEq, Eq)]
pub struct WindowEventInfo {
    pub change: WindowChange,
    /// The window's title, where it has one.
    pub name: Option<String>,
    pub focused: bool,
    pub urgent: bool,
}

/// What the title label does in answer to a window event.
#[derive(Debug, PartialEq, Eq)]
pub enum TitleAction {
    /// Show this text.
    SetText(String),
    /// Put this class on the label.
    AddClass(StyleClass),
    /// Take this class off the label.
    RemoveClass(StyleClass),
    /// Leave the label as it is.
    Nothing,
}

/// The text shown for a window: its title, or nothing where it has none.
pub open spec fn shown_title(info: WindowEventInfo) -> Seq<char> {
    match info.name {
        Some(name) => name@,
        None => Seq::empty(),
    }
}

/// Whether an event makes the label show the window's title: focus moved to
/// the window, or the focused window's title changed.
pub open spec fn updates_text(info: WindowEventInfo) -> bool {
    info.change == WindowChange::Focus || (info.change == WindowChange::Title && info.focused)
}

/// The label's text changes on exactly two kinds of event: focus moving to
/// a window, and a title change of the focused window. A new, closed,
/// moved, floated, marked or fullscreened window, an urgency change, and a
/// title change of a window without focus never change the text.
pub proof fn lemma_text_changes_only_on_focus(info: WindowEventInfo)
    ensures
        updates_text(info) <==> (info.change == WindowChange::Focus || (info.change
            == WindowChange::Title && info.focused)),
        info.change == WindowChange::New ==> !updates_text(info),
        info.change == WindowChange::Close ==> !updates_text(info),
        info.change == WindowChange::FullscreenMode ==> !updates_text(info),
        info.change == WindowChange::Move ==> !updates_text(info),
        info.change == WindowChange::Floating ==> !updates_text(info),
        info.change == WindowChange::Urgent ==> !updates_text(info),
        info.change == WindowChange::Mark ==> !updates_text(info),
        info.change == WindowChange::Title && !info.focused ==> !updates_text(info),
        info.change == WindowChange::Focus ==> updates_text(info),
{
}

/// The text shown is the window's whole title, or nothing at all where the
/// window has none.
pub proof fn lemma_shown_title_is_whole_name(info: WindowEventInfo)
    ensures
        info.name matches Some(name) ==> shown_title(info) == name@,
        info.name is None ==> shown_title(info).len() == 0,
{
}

/// The answer of the title label to a window event: on focus, and on a
/// title change of the focused window, it shows the window's title; on an
/// urgency change it puts the urgent class on or takes it off after the
/// window's urgency; it ignores every other event.
pub fn title_action(info: &WindowEventInfo) -> (action: TitleAction)
    ensures
        updates_text(*info) ==> (action matches TitleAction::SetText(text) && text@ == shown_title(
            *info,
        )),
        info.change == WindowChange::Urgent ==> action == (if info.urgent {
            TitleAction::AddClass(StyleClass::Urgent)
        } else {
            TitleAction::RemoveClass(StyleClass::Urgent)
        }),
        !updates_text(*info) && info.change != WindowChange::Urgent ==> action
            == TitleAction::Nothing,
        info.change != WindowChange::Focus && info.change != WindowChange::Title && info.change
            != WindowChange::Urgent ==> action == TitleAction::Nothing,
        info.change == WindowChange::Title && !info.focused ==> action == TitleAction::Nothing,
        (action is SetText) ==> (info.change == WindowChange::Focus || (info.change
            == WindowChange::Title && info.focused)),
{
    let focus = match info.change {
        WindowChange::Focus => true,
        _ => false,
    };
    let title = match info.change {
        WindowChange::Title => true,
        _ => false,
    };
    let urgent_change = match info.change {
        WindowChange::Urgent => true,
        _ => false,
    };
    if focus || (title && info.focused) {
        let text = match &info.name {
            Some(name) => name.clone(),
            None => String::from_str(""),
        };
        proof {
            reveal_strlit("");
        }
        TitleAction::SetText(text)
    } else if urgent_change {
        if info.urgent {
            TitleAction::AddClass(StyleClass::Urgent)
        } else {
            TitleAction::RemoveClass(StyleClass::Urgent)
        }
    } else {
        TitleAction::Nothing
    }
}

} // verus!
