//! Views that take the whole screen: the list of projects on its own, and
//! the pipelines on their own. They read everything from the shared state,
//! the cursor too.

use vstd::prelude::*;
use vstd::string::StringExecFns;
use crate::components::error_component::ErrorPainting;
use crate::components::loading_component::LoadingPainting;
use crate::components::pipelines_viewer_component::{
    message,
    message_style,
    pipelines_table,
    TableView,
};
use crate::components::project_selector_component::SelectorPainting;
use crate::gitlab::{GitlabPipeline, PipelineView, PipelinesData, PipelinesDataView};
use crate::layout::{centered_in, Rect};
use crate::state::{State, StateView};
use crate::style::{Alignment, Block, BorderType, Color, Style};
use crate::text::clone_strings;

pub use crate::layout::centered_layout;

verus! {

/// The pipelines as a table with a plain border.
#[derive(Debug)]
pub struct LoadedView {
    pub area: Rect,
    pub block: Block,
    pub table: TableView,
}

/// What the pipelines view paints.
#[derive(Debug)]
pub enum PipelinesView {
    Loading(LoadingPainting),
    Loaded(LoadedView),
    Errors(ErrorPainting),
}

/// A plain border on all sides.
pub open spec fn plain_block() -> Block {
    Block { border_type: BorderType::Plain, border_style: Style::plain() }
}

/// The title of the table of the pipelines of `project`.
pub open spec fn pipelines_title(project: Seq<char>) -> Seq<char> {
    "Pipelines for '"@ + project + "'"@
}

impl LoadedView {
    /// Whether this is the table of `pipelines` over the whole of `area`
    /// for `state`: under the name of the active project, with the cursor
    /// and the page of the state.
    pub open spec fn shows(self, pipelines: Seq<PipelineView>, area: Rect, state: StateView) -> bool {
        &&& self.area == area
        &&& self.block == plain_block()
        &&& state.active_gitlab_project matches Some(project)
        &&& self.table.lists(
            pipelines,
            state.active_operation_index,
            state.active_filters,
            state.active_page as nat,
            pipelines_title(project),
        )
        &&& self.table.popup is None
    }
}

impl PipelinesView {
    /// Whether this is what the pipelines view paints on a screen of
    /// `area` for `state`: the word in the middle while the pipelines are
    /// loading, the table once they are there, the error after a failure.
    pub open spec fn shows(self, area: Rect, state: StateView) -> bool {
        match state.pipelines_data {
            PipelinesDataView::Loading => self matches PipelinesView::Loading(painting)
                && centered_in(area, painting.area) && painting.line.shows(
                "Loading..."@,
                message_style(Color::Yellow),
            ),
            PipelinesDataView::Loaded(pipelines) => self matches PipelinesView::Loaded(view)
                && view.shows(pipelines, area, state),
            PipelinesDataView::Errors(error) => self matches PipelinesView::Errors(painting)
                && painting.area == area && painting.line.shows(
                "ERROR: "@ + error,
                message_style(Color::Red),
            ),
        }
    }
}

/// The list of `projects` in the middle of the screen `area`, with the
/// entry marked on which the cursor of the state stands.
pub fn render_project_selector(area: Rect, state: &State, projects: &Vec<String>) -> (painting:
    SelectorPainting)
    ensures
        centered_in(area, painting.area),
        painting.block == plain_block(),
        painting.title@ == "GitLab Project Selector"@,
        painting.title_alignment == Alignment::Center,
        painting.items.deep_view() == projects.deep_view(),
        painting.selected == state.active_operation_index,
        painting.highlight_style == (Style {
            fg: Some(Color::Black),
            bg: Some(Color::White),
            bold: true,
            italic: false,
        }),
{
    SelectorPainting {
        area: centered_layout(area),
        block: Block { border_type: BorderType::Plain, border_style: Style::new() },
        title: String::from_str("GitLab Project Selector"),
        title_alignment: Alignment::Center,
        items: clone_strings(projects),
        selected: state.active_operation_index,
        highlight_style: Style::new().fg(Color::Black).bg(Color::White).bold(),
    }
}

fn render_loading_view(area: Rect) -> (painting: LoadingPainting)
    ensures
        centered_in(area, painting.area),
        painting.line.shows("Loading..."@, message_style(Color::Yellow)),
{
    LoadingPainting {
        area: centered_layout(area),
        line: message(String::from_str("Loading..."), Color::Yellow),
    }
}

fn render_loaded_view(area: Rect, state: &State, pipelines: &Vec<GitlabPipeline>) -> (view:
    LoadedView)
    requires
        state.active_gitlab_project is Some,
    ensures
        view.shows(pipelines.deep_view(), area, state@),
{
    let mut title: String = String::from_str("Pipelines for '");
    match &state.active_gitlab_project {
        Some(project) => title.append(project.as_str()),
        None => {},
    }
    title.append("'");
    LoadedView {
        area,
        block: Block { border_type: BorderType::Plain, border_style: Style::new() },
        table: pipelines_table(
            pipelines,
            state.active_operation_index,
            &state.active_filters,
            state.active_page,
            title,
        ),
    }
}

fn render_errors_view(area: Rect, error: &String) -> (painting: ErrorPainting)
    ensures
        painting.area == area,
        painting.line.shows("ERROR: "@ + error@, message_style(Color::Red)),
{
    let mut text: String = String::from_str("ERROR: ");
    text.append(error.as_str());
    ErrorPainting { area, line: message(text, Color::Red) }
}

/// What the pipelines view paints on a screen of `area`. Loaded pipelines
/// belong to a project: a state that holds pipelines names the active
/// project.
pub fn render_pipelines_view(area: Rect, state: &State) -> (view: PipelinesView)
    requires
        state.pipelines_data is Loaded ==> state.active_gitlab_project is Some,
    ensures
        view.shows(area, state@),
{
    match &state.pipelines_data {
        PipelinesData::Loading => PipelinesView::Loading(render_loading_view(area)),
        PipelinesData::Loaded(pipelines) => PipelinesView::Loaded(
            render_loaded_view(area, state, pipelines),
        ),
        PipelinesData::Errors(error) => PipelinesView::Errors(render_errors_view(area, error)),
    }
}

} // verus!
