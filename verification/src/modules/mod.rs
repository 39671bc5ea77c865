//! The modules a bar shows: the sway workspaces and window title, and a clock.

pub mod clock;
pub mod sway;

use vstd::prelude::*;
use vstd::string::StringExecFns;

verus! {

/// A CSS class that a module puts on one of its widgets.
#[derive(Clone, Copy, Debug, PartialEq, Eq, Structural)]
pub enum StyleClass {
    Focused,
    Urgent,
    Visible,
}

/// The name of a style class as the stylesheet spells it.
pub open spec fn class_name(class: StyleClass) -> Seq<char> {
    match class {
        StyleClass::Focused => "focused"@,
        StyleClass::Urgent => "urgent"@,
        StyleClass::Visible => "visible"@,
    }
}

/// The class names as the stylesheet spells them, letter by letter; no two
/// classes share a name.
pub proof fn lemma_class_names()
    ensures
        class_name(StyleClass::Focused) == seq!['f', 'o', 'c', 'u', 's', 'e', 'd'],
        class_name(StyleClass::Urgent) == seq!['u', 'r', 'g', 'e', 'n', 't'],
        class_name(StyleClass::Visible) == seq!['v', 'i', 's', 'i', 'b', 'l', 'e'],
        forall|a: StyleClass, b: StyleClass| a != b ==> class_name(a) != class_name(b),
{
    reveal_strlit("focused");
    reveal_strlit("urgent");
    reveal_strlit("visible");
    assert(class_name(StyleClass::Focused) =~= seq!['f', 'o', 'c', 'u', 's', 'e', 'd']);
    assert(class_name(StyleClass::Urgent) =~= seq!['u', 'r', 'g', 'e', 'n', 't']);
    assert(class_name(StyleClass::Visible) =~= seq!['v', 'i', 's', 'i', 'b', 'l', 'e']);
    assert forall|a: StyleClass, b: StyleClass| a != b implies class_name(a) != class_name(b) by {
        assert(class_name(a)[0] != class_name(b)[0] || class_name(a).len() != class_name(b).len());
    }
}

impl StyleClass {
    /// The name of this class as the stylesheet spells it.
    pub fn name(&self) -> (name: String)
        ensures
            name@ == class_name(*self),
    {
        match self {
            StyleClass::Focused => String::from_str("focused"),
            StyleClass::Urgent => String::from_str("urgent"),
            StyleClass::Visible => String::from_str("visible"),
        }
    }
}

} // verus!
