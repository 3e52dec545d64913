//! The list of projects on the left. While it has the focus, Next and
//! Previous move its cursor and Enter makes the project under the cursor
//! the active one.

use vstd::prelude::*;
use vstd::string::StringExecFns;
use crate::action::{Action, ActionView};
use crate::components::utils::{block_for, get_block, placed, prepare_layout, Body, Element};
use crate::config::Config;
use crate::layout::Rect;
use crate::state::{State, StateView, FOOTER, HEADER, PIPELINES_VIEWER, PROJECT_SELECTOR};
use crate::style::{Alignment, Block, Color, Style};
use crate::text::clone_strings;

verus! {

/// The project selector: the projects that can be chosen and a cursor on one
/// of them.
#[derive(Debug)]
pub struct ProjectSelectorComponent {
    projects: Vec<String>,
    active_operation_index: usize,
}

/// What a [`ProjectSelectorComponent`] holds.
pub struct SelectorView {
    pub projects: Seq<Seq<char>>,
    pub active_operation_index: usize,
}

impl View for ProjectSelectorComponent {
    type V = SelectorView;

    closed spec fn view(&self) -> SelectorView {
        SelectorView {
            projects: self.projects.deep_view(),
            active_operation_index: self.active_operation_index,
        }
    }
}

/// `state` with the focus on `component`.
pub open spec fn focused_on(state: StateView, component: usize) -> StateView {
    StateView { focused_component: component, ..state }
}

impl SelectorView {
    /// The selector at start: no projects, the cursor on top.
    pub open spec fn initial() -> SelectorView {
        SelectorView { projects: Seq::<Seq<char>>::empty(), active_operation_index: 0 }
    }

    /// Whether the selector has the focus.
    pub open spec fn has_focus(state: StateView) -> bool {
        state.focused_component == PROJECT_SELECTOR
    }

    /// The selector after Next: with the focus, the cursor moves down
    /// unless it is on the last project.
    pub open spec fn next(self, state: StateView) -> SelectorView {
        if Self::has_focus(state) && self.active_operation_index + 1 < self.projects.len() {
            SelectorView {
                active_operation_index: (self.active_operation_index + 1) as usize,
                ..self
            }
        } else {
            self
        }
    }

    /// The selector after Previous: with the focus, the cursor moves up
    /// unless it is on the first project.
    pub open spec fn previous(self, state: StateView) -> SelectorView {
        if Self::has_focus(state) && self.active_operation_index > 0 {
            SelectorView {
                active_operation_index: (self.active_operation_index - 1) as usize,
                ..self
            }
        } else {
            self
        }
    }

    /// The state after Enter: with the focus and the cursor on a project,
    /// that project is the active one.
    pub open spec fn select_project(self, state: StateView) -> StateView {
        if Self::has_focus(state) && self.active_operation_index < self.projects.len() {
            StateView {
                active_gitlab_project: Some(self.projects[self.active_operation_index as int]),
                ..state
            }
        } else {
            state
        }
    }

    /// The selector and the state after `action`.
    pub open spec fn updated(self, action: ActionView, state: StateView) -> (SelectorView, StateView) {
        match action {
            ActionView::Next => (self.next(state), state),
            ActionView::Previous => (self.previous(state), state),
            ActionView::Enter => (self, self.select_project(state)),
            ActionView::FocusUp => (self, focused_on(state, HEADER)),
            ActionView::FocusDown => (self, focused_on(state, FOOTER)),
            ActionView::FocusRight => (self, focused_on(state, PIPELINES_VIEWER)),
            _ => (self, state),
        }
    }
}

/// A cursor on the list stays on the list, and only the selector with the
/// focus reacts to Next, Previous and Enter.
pub proof fn lemma_cursor_is_clamped(selector: SelectorView, state: StateView)
    requires
        selector.active_operation_index < selector.projects.len() <= usize::MAX,
    ensures
        selector.next(state).active_operation_index < selector.projects.len(),
        selector.previous(state).active_operation_index < selector.projects.len(),
        !SelectorView::has_focus(state) ==> selector.next(state) == selector && selector.previous(
            state,
        ) == selector && selector.select_project(state) == state,
{
}

/// What the selector paints: the list of projects in a bordered block with
/// a centred title, and which entry is marked.
#[derive(Debug)]
pub struct SelectorPainting {
    pub area: Rect,
    pub block: Block,
    pub title: String,
    pub title_alignment: Alignment,
    pub items: Vec<String>,
    pub selected: usize,
    pub highlight_style: Style,
}

impl SelectorPainting {
    /// Whether this is what `selector` paints on a screen of `area` for a
    /// state with the focus on `focus`.
    pub open spec fn paints(self, selector: SelectorView, area: Rect, focus: usize) -> bool {
        &&& placed(area, Element::Body(Body::LeftColumn), self.area)
        &&& self.block == block_for(focus, PROJECT_SELECTOR, Color::LightMagenta)
        &&& self.title@ == "Project Selector"@
        &&& self.title_alignment == Alignment::Center
        &&& self.items.deep_view() == selector.projects
        &&& self.selected == selector.active_operation_index
        &&& self.highlight_style == (Style {
            fg: Some(Color::Black),
            bg: Some(Color::White),
            bold: true,
            italic: false,
        })
    }
}

impl ProjectSelectorComponent {
    /// A selector without projects.
    pub fn new() -> (selector: ProjectSelectorComponent)
        ensures
            selector@ == SelectorView::initial(),
    {
        let selector = ProjectSelectorComponent { projects: Vec::new(), active_operation_index: 0 };
        assert(selector.projects.deep_view() =~= Seq::<Seq<char>>::empty());
        selector
    }

    /// The position of the cursor, counted from 0.
    pub fn active_operation_index(&self) -> (index: usize)
        ensures
            index == self@.active_operation_index,
    {
        self.active_operation_index
    }

    /// Takes the list of projects from `config`. The cursor stays where it
    /// is.
    pub fn register_config_handler(&mut self, config: &Config)
        ensures
            final(self)@ == (SelectorView {
                projects: config.core.gitlab_projects.deep_view(),
                ..old(self)@
            }),
    {
        self.projects = clone_strings(&config.core.gitlab_projects);
    }

    fn next(&mut self, state: &State)
        ensures
            final(self)@ == old(self)@.next(state@),
    {
        let count: usize = self.projects.len();
        assert(self.projects.deep_view().len() == count);
        if state.focused_component == PROJECT_SELECTOR {
            if self.active_operation_index < usize::MAX && self.active_operation_index + 1 < count {
                self.active_operation_index += 1;
            }
        }
    }

    fn previous(&mut self, state: &State)
        ensures
            final(self)@ == old(self)@.previous(state@),
    {
        if state.focused_component == PROJECT_SELECTOR {
            if self.active_operation_index > 0 {
                self.active_operation_index -= 1;
            }
        }
    }

    fn select_project(&self, state: &mut State)
        ensures
            final(state)@ == self@.select_project(old(state)@),
    {
        assert(self.projects.deep_view().len() == self.projects@.len());
        if state.focused_component == PROJECT_SELECTOR && self.active_operation_index
            < self.projects.len() {
            state.active_gitlab_project = Some(self.projects[self.active_operation_index].clone());
        }
    }

    /// Reacts to `action`. The selector never answers with an action of its
    /// own.
    pub fn update(&mut self, action: &Action, state: &mut State) -> (answer: Option<Action>)
        ensures
            (final(self)@, final(state)@) == old(self)@.updated(action@, old(state)@),
            answer is None,
    {
        match action {
            Action::Next => self.next(state),
            Action::Previous => self.previous(state),
            Action::Enter => self.select_project(state),
            Action::FocusUp => state.focused_component = HEADER,
            Action::FocusDown => state.focused_component = FOOTER,
            Action::FocusRight => state.focused_component = PIPELINES_VIEWER,
            _ => {},
        }
        None
    }

    /// What the selector paints on a screen of `area`.
    pub fn draw(&self, area: Rect, state: &State) -> (painting: SelectorPainting)
        ensures
            painting.paints(self@, area, state.focused_component),
    {
        let region: Rect = prepare_layout(area, Element::Body(Body::LeftColumn));
        let block: Block = get_block(state, PROJECT_SELECTOR, Color::LightMagenta);
        SelectorPainting {
            area: region,
            block,
            title: String::from_str("Project Selector"),
            title_alignment: Alignment::Center,
            items: clone_strings(&self.projects),
            selected: self.active_operation_index,
            highlight_style: Style::new().fg(Color::Black).bg(Color::White).bold(),
        }
    }
}

} // verus!
