//! The one record that the components share.

use vstd::prelude::*;
use crate::gitlab::{PipelinesData, PipelinesDataView};

verus! {

/// The number of components that can hold the focus.
pub const COMPONENT_COUNT: usize = 4;

/// The header's place in the focus order.
pub const HEADER: usize = 0;

/// The project selector's place in the focus order.
pub const PROJECT_SELECTOR: usize = 1;

/// The pipelines viewer's place in the focus order.
pub const PIPELINES_VIEWER: usize = 2;

/// The footer's place in the focus order.
pub const FOOTER: usize = 3;

/// How key presses are read.
#[derive(Debug, Clone, Copy, PartialEq, Eq, Structural)]
pub enum InputMode {
    Normal,
    Insert,
    Command,
}

impl Default for InputMode {
    fn default() -> (mode: InputMode)
        ensures
            mode == InputMode::Normal,
    {
        InputMode::Normal
    }
}

/// What the components share. The dispatcher owns it and lends it to each
/// component while that component reacts or paints.
#[derive(Debug)]
pub struct State {
    /// The project whose pipelines are shown, once one was chosen.
    pub active_gitlab_project: Option<String>,
    pub active_operation_index: usize,
    pub active_filter: String,
    pub input_mode: InputMode,
    /// Which component has the focus: one of [`HEADER`],
    /// [`PROJECT_SELECTOR`], [`PIPELINES_VIEWER`] and [`FOOTER`].
    pub focused_component: usize,
    /// The page of pipelines that is shown, counted from 0.
    pub active_page: usize,
    /// The labels of the filters in use, in the order they were added.
    pub active_filters: Vec<String>,
    /// The pipelines of the active project.
    pub pipelines_data: PipelinesData,
}

/// What a [`State`] holds, with its texts as sequences of characters.
pub struct StateView {
    pub active_gitlab_project: Option<Seq<char>>,
    pub active_operation_index: usize,
    pub active_filter: Seq<char>,
    pub input_mode: InputMode,
    pub focused_component: usize,
    pub active_page: usize,
    pub active_filters: Seq<Seq<char>>,
    pub pipelines_data: PipelinesDataView,
}

impl View for State {
    type V = StateView;

    open spec fn view(&self) -> StateView {
        StateView {
            active_gitlab_project: self.active_gitlab_project.deep_view(),
            active_operation_index: self.active_operation_index,
            active_filter: self.active_filter@,
            input_mode: self.input_mode,
            focused_component: self.focused_component,
            active_page: self.active_page,
            active_filters: self.active_filters.deep_view(),
            pipelines_data: self.pipelines_data@,
        }
    }
}

impl StateView {
    /// The state at start: nothing chosen, nothing fetched, the header in
    /// focus.
    pub open spec fn initial() -> StateView {
        StateView {
            active_gitlab_project: None,
            active_operation_index: 0,
            active_filter: Seq::<char>::empty(),
            input_mode: InputMode::Normal,
            focused_component: HEADER,
            active_page: 0,
            active_filters: Seq::<Seq<char>>::empty(),
            pipelines_data: PipelinesDataView::Loading,
        }
    }

    /// The focus is on one of the components.
    pub open spec fn wf(self) -> bool {
        self.focused_component < COMPONENT_COUNT
    }
}

impl Default for State {
    fn default() -> (state: State)
        ensures
            state@ == StateView::initial(),
            state@.wf(),
    {
        let state = State {
            active_gitlab_project: None,
            active_operation_index: 0,
            active_filter: String::new(),
            input_mode: InputMode::Normal,
            focused_component: HEADER,
            active_page: 0,
            active_filters: Vec::new(),
            pipelines_data: PipelinesData::Loading,
        };
        assert(state.active_filters.deep_view() =~= Seq::<Seq<char>>::empty());
        state
    }
}

} // verus!
