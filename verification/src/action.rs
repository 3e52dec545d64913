//! The commands that flow through the dispatch loop.

use vstd::prelude::*;
use vstd::string::StringExecFns;

verus! {

/// A command for the dispatcher and the components. It is produced by the
/// key resolver, by the event loop and by components that react to
/// another command.
#[derive(Debug)]
pub enum Action {
    Tick,
    Next,
    Previous,
    Enter,
    FocusUp,
    FocusDown,
    FocusLeft,
    FocusRight,
    Render,
    Quit,
    Error(String),
    Help,
}

/// What an [`Action`] is, with the text of an error as a sequence of
/// characters.
pub enum ActionView {
    Tick,
    Next,
    Previous,
    Enter,
    FocusUp,
    FocusDown,
    FocusLeft,
    FocusRight,
    Render,
    Quit,
    Error(Seq<char>),
    Help,
}

impl View for Action {
    type V = ActionView;

    open spec fn view(&self) -> ActionView {
        match self {
            Action::Tick => ActionView::Tick,
            Action::Next => ActionView::Next,
            Action::Previous => ActionView::Previous,
            Action::Enter => ActionView::Enter,
            Action::FocusUp => ActionView::FocusUp,
            Action::FocusDown => ActionView::FocusDown,
            Action::FocusLeft => ActionView::FocusLeft,
            Action::FocusRight => ActionView::FocusRight,
            Action::Render => ActionView::Render,
            Action::Quit => ActionView::Quit,
            Action::Error(message) => ActionView::Error(message@),
            Action::Help => ActionView::Help,
        }
    }
}

impl DeepView for Action {
    type V = ActionView;

    open spec fn deep_view(&self) -> ActionView {
        self@
    }
}

impl ActionView {
    /// The name of the variant, as it is shown and written in configuration.
    pub open spec fn name(self) -> Seq<char> {
        match self {
            ActionView::Tick => seq!['T', 'i', 'c', 'k'],
            ActionView::Next => seq!['N', 'e', 'x', 't'],
            ActionView::Previous => seq!['P', 'r', 'e', 'v', 'i', 'o', 'u', 's'],
            ActionView::Enter => seq!['E', 'n', 't', 'e', 'r'],
            ActionView::FocusUp => seq!['F', 'o', 'c', 'u', 's', 'U', 'p'],
            ActionView::FocusDown => seq!['F', 'o', 'c', 'u', 's', 'D', 'o', 'w', 'n'],
            ActionView::FocusLeft => seq!['F', 'o', 'c', 'u', 's', 'L', 'e', 'f', 't'],
            ActionView::FocusRight => seq!['F', 'o', 'c', 'u', 's', 'R', 'i', 'g', 'h', 't'],
            ActionView::Render => seq!['R', 'e', 'n', 'd', 'e', 'r'],
            ActionView::Quit => seq!['Q', 'u', 'i', 't'],
            ActionView::Error(_) => seq!['E', 'r', 'r', 'o', 'r'],
            ActionView::Help => seq!['H', 'e', 'l', 'p'],
        }
    }
}

impl Clone for Action {
    fn clone(&self) -> (copy: Action)
        ensures
            copy@ == self@,
    {
        match self {
            Action::Tick => Action::Tick,
            Action::Next => Action::Next,
            Action::Previous => Action::Previous,
            Action::Enter => Action::Enter,
            Action::FocusUp => Action::FocusUp,
            Action::FocusDown => Action::FocusDown,
            Action::FocusLeft => Action::FocusLeft,
            Action::FocusRight => Action::FocusRight,
            Action::Render => Action::Render,
            Action::Quit => Action::Quit,
            Action::Error(message) => Action::Error(message.clone()),
            Action::Help => Action::Help,
        }
    }
}

impl PartialEq for Action {
    fn eq(&self, other: &Action) -> (same: bool) {
        match (self, other) {
            (Action::Tick, Action::Tick) => true,
            (Action::Next, Action::Next) => true,
            (Action::Previous, Action::Previous) => true,
            (Action::Enter, Action::Enter) => true,
            (Action::FocusUp, Action::FocusUp) => true,
            (Action::FocusDown, Action::FocusDown) => true,
            (Action::FocusLeft, Action::FocusLeft) => true,
            (Action::FocusRight, Action::FocusRight) => true,
            (Action::Render, Action::Render) => true,
            (Action::Quit, Action::Quit) => true,
            (Action::Error(mine), Action::Error(theirs)) => *mine == *theirs,
            (Action::Help, Action::Help) => true,
            _ => false,
        }
    }
}

impl Eq for Action {

}

impl vstd::std_specs::cmp::PartialEqSpecImpl for Action {
    open spec fn obeys_eq_spec() -> bool {
        true
    }

    open spec fn eq_spec(&self, other: &Action) -> bool {
        self@ == other@
    }
}

impl Action {
    /// The name of the variant; an error's message is not part of it.
    pub fn to_string(&self) -> (name: String)
        ensures
            name@ == self@.name(),
    {
        proof {
            reveal_strlit("Tick");
            reveal_strlit("Next");
            reveal_strlit("Previous");
            reveal_strlit("Enter");
            reveal_strlit("FocusUp");
            reveal_strlit("FocusDown");
            reveal_strlit("FocusLeft");
            reveal_strlit("FocusRight");
            reveal_strlit("Render");
            reveal_strlit("Quit");
            reveal_strlit("Error");
            reveal_strlit("Help");
        }
        let name: &'static str = match self {
            Action::Tick => "Tick",
            Action::Next => "Next",
            Action::Previous => "Previous",
            Action::Enter => "Enter",
            Action::FocusUp => "FocusUp",
            Action::FocusDown => "FocusDown",
            Action::FocusLeft => "FocusLeft",
            Action::FocusRight => "FocusRight",
            Action::Render => "Render",
            Action::Quit => "Quit",
            Action::Error(_) => "Error",
            Action::Help => "Help",
        };
        assert(name@ =~= self@.name());
        String::from_str(name)
    }
}

} // verus!
