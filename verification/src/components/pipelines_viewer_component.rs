//! The table of pipelines on the right. While it has the focus, Next and
//! Previous move its cursor and Enter opens or closes the details of the
//! pipeline under the cursor. On Render it takes in what was fetched.

use vstd::prelude::*;
use vstd::string::StringExecFns;
use crate::action::{Action, ActionView};
use crate::components::project_selector_component::focused_on;
use crate::components::utils::{block_for, get_block, placed, prepare_layout, Body, Element};
use crate::config::Config;
use crate::gitlab::{
    fetch_request,
    outcome_view,
    pipelines_url,
    FetchRequest,
    GitlabPipeline,
    PipelineStatus,
    PipelineView,
    PipelinesData,
    PipelinesDataView,
};
use crate::layout::{popup_area, popup_in, Rect};
use crate::paginator::pagination;
use crate::state::{State, StateView, FOOTER, HEADER, PIPELINES_VIEWER, PROJECT_SELECTOR};
use crate::style::{Block, Color, Span, Style};
use crate::text::{decimal, decimal_string, join_strings, joined};

pub use crate::paginator::build_paginator;

verus! {

/// The pipelines viewer: where it fetches from, how many pipelines it asks
/// for, its cursor, and whether the details are open.
#[derive(Debug)]
pub struct PipelinesViewerComponent {
    gitlab_url: String,
    max_page_size: usize,
    active_operation_index: usize,
    show_details_popup: bool,
}

/// What a [`PipelinesViewerComponent`] holds.
pub struct ViewerView {
    pub gitlab_url: Seq<char>,
    pub max_page_size: usize,
    pub active_operation_index: usize,
    pub show_details_popup: bool,
}

impl View for PipelinesViewerComponent {
    type V = ViewerView;

    closed spec fn view(&self) -> ViewerView {
        ViewerView {
            gitlab_url: self.gitlab_url@,
            max_page_size: self.max_page_size,
            active_operation_index: self.active_operation_index,
            show_details_popup: self.show_details_popup,
        }
    }
}

/// The number after `n`, or `n` itself where the machine has none.
pub open spec fn following(n: usize) -> nat {
    if n < usize::MAX {
        (n + 1) as nat
    } else {
        n as nat
    }
}

/// The message that stands in place of the table while no project is
/// chosen.
pub open spec fn not_selected() -> Seq<char> {
    "Project not selected"@
}

/// The view of what a fetch gave, where there was one.
pub open spec fn fetched_view(fetched: Option<Result<Vec<GitlabPipeline>, String>>) -> Option<
    Result<Seq<PipelineView>, Seq<char>>,
> {
    match fetched {
        Some(outcome) => Some(outcome_view(outcome)),
        None => None,
    }
}

/// The pipelines that are loaded; none while they are loading or after a
/// failure.
pub open spec fn loaded_pipelines(state: StateView) -> Seq<PipelineView> {
    match state.pipelines_data {
        PipelinesDataView::Loaded(pipelines) => pipelines,
        _ => Seq::<PipelineView>::empty(),
    }
}

impl ViewerView {
    /// The viewer at start: no server, the default page size, the cursor on
    /// top, the details closed.
    pub open spec fn initial() -> ViewerView {
        ViewerView {
            gitlab_url: Seq::<char>::empty(),
            max_page_size: 25,
            active_operation_index: 0,
            show_details_popup: false,
        }
    }

    /// Whether the viewer has the focus.
    pub open spec fn has_focus(state: StateView) -> bool {
        state.focused_component == PIPELINES_VIEWER
    }

    /// The viewer after Next: with the focus and pipelines loaded, the
    /// cursor moves down unless it is on the last pipeline.
    pub open spec fn next(self, state: StateView) -> ViewerView {
        if Self::has_focus(state) && self.active_operation_index + 1 < loaded_pipelines(
            state,
        ).len() {
            ViewerView { active_operation_index: (self.active_operation_index + 1) as usize, ..self }
        } else {
            self
        }
    }

    /// The viewer after Previous: with the focus and pipelines loaded, the
    /// cursor moves up unless it is on the first pipeline.
    pub open spec fn previous(self, state: StateView) -> ViewerView {
        if Self::has_focus(state) && state.pipelines_data is Loaded && self.active_operation_index
            > 0 {
            ViewerView { active_operation_index: (self.active_operation_index - 1) as usize, ..self }
        } else {
            self
        }
    }

    /// The viewer after Enter: with the focus and the cursor on a loaded
    /// pipeline, the details open if they were closed and close if they
    /// were open.
    pub open spec fn show_details(self, state: StateView) -> ViewerView {
        if Self::has_focus(state) && self.active_operation_index < loaded_pipelines(state).len() {
            ViewerView { show_details_popup: !self.show_details_popup, ..self }
        } else {
            self
        }
    }

    /// The state after the pipelines were asked for and `fetched` came
    /// back. Without an active project there is nothing to fetch and the
    /// state says so. With one, the state takes what was fetched, the list
    /// or the failure; where nothing came back it stays as it is.
    pub open spec fn loaded(
        state: StateView,
        fetched: Option<Result<Seq<PipelineView>, Seq<char>>>,
    ) -> StateView {
        match state.active_gitlab_project {
            None => StateView { pipelines_data: PipelinesDataView::Errors(not_selected()), ..state },
            Some(_) => match fetched {
                Some(Ok(pipelines)) => StateView {
                    pipelines_data: PipelinesDataView::Loaded(pipelines),
                    ..state
                },
                Some(Err(message)) => StateView {
                    pipelines_data: PipelinesDataView::Errors(message),
                    ..state
                },
                None => state,
            },
        }
    }

    /// The address and the page size to fetch with: those of the active
    /// project, if there is one.
    pub open spec fn request(self, state: StateView) -> Option<(Seq<char>, Seq<char>)> {
        match state.active_gitlab_project {
            Some(project) => Some(
                (pipelines_url(self.gitlab_url, project), decimal(self.max_page_size as nat)),
            ),
            None => None,
        }
    }

    /// The viewer and the state after `action`.
    pub open spec fn updated(self, action: ActionView, state: StateView) -> (ViewerView, StateView) {
        match action {
            ActionView::Next => (self.next(state), state),
            ActionView::Previous => (self.previous(state), state),
            ActionView::Enter => (self.show_details(state), state),
            ActionView::FocusUp => (self, focused_on(state, HEADER)),
            ActionView::FocusDown => (self, focused_on(state, FOOTER)),
            ActionView::FocusLeft => (self, focused_on(state, PROJECT_SELECTOR)),
            ActionView::Render => (self, Self::loaded(state, None)),
            _ => (self, state),
        }
    }
}

/// A cursor on the list stays on the list: with the focus, Next moves it
/// one pipeline down and stops on the last, Previous moves it one up and
/// stops on the first. Without the focus it does not move.
pub proof fn lemma_cursor_is_clamped(viewer: ViewerView, state: StateView)
    requires
        viewer.active_operation_index < loaded_pipelines(state).len() <= usize::MAX,
    ensures
        viewer.next(state).active_operation_index < loaded_pipelines(state).len(),
        viewer.previous(state).active_operation_index < loaded_pipelines(state).len(),
        ViewerView::has_focus(state) ==> viewer.next(state).active_operation_index == if viewer.active_operation_index
            + 1 < loaded_pipelines(state).len() {
            viewer.active_operation_index + 1
        } else {
            viewer.active_operation_index as int
        },
        ViewerView::has_focus(state) ==> viewer.previous(state).active_operation_index
            == if viewer.active_operation_index > 0 {
            viewer.active_operation_index - 1
        } else {
            0
        },
        !ViewerView::has_focus(state) ==> viewer.next(state) == viewer && viewer.previous(state)
            == viewer,
{
}

/// One row of the table: its cells and the style of the whole row.
#[derive(Debug)]
pub struct Row {
    pub cells: Vec<Span>,
    pub style: Style,
}

/// The details of one pipeline, painted over the table.
#[derive(Debug)]
pub struct Popup {
    pub area: Rect,
    pub title: String,
}

/// The table of pipelines with what is written on its border.
#[derive(Debug)]
pub struct TableView {
    /// The names of the columns.
    pub header: Vec<Span>,
    pub rows: Vec<Row>,
    /// The title, on top at the left.
    pub title: String,
    /// The filters in use, on top at the right.
    pub filters: Span,
    /// The cursor's position among the pipelines, below at the right.
    pub position: String,
    /// The page indicator, below at the left.
    pub pages: String,
    /// The details, if they are open.
    pub popup: Option<Popup>,
}

/// What stands inside the viewer's border.
#[derive(Debug)]
pub enum PipelinesContent {
    /// One centred line.
    Message(Span),
    Table(TableView),
}

/// What the viewer paints.
#[derive(Debug)]
pub struct PipelinesPainting {
    pub area: Rect,
    pub block: Block,
    pub content: PipelinesContent,
}

/// The style of a status: failures red, successes green, running pipelines
/// in italics.
pub open spec fn status_style(status: PipelineStatus) -> Style {
    match status {
        PipelineStatus::Failed => Style { fg: Some(Color::Red), ..Style::plain() },
        PipelineStatus::Success => Style { fg: Some(Color::Green), ..Style::plain() },
        PipelineStatus::Running => Style { italic: true, ..Style::plain() },
        _ => Style::plain(),
    }
}

/// The style of a row: the row under the cursor is black on light yellow.
pub open spec fn row_style(highlighted: bool) -> Style {
    if highlighted {
        Style { fg: Some(Color::Black), bg: Some(Color::LightYellow), ..Style::plain() }
    } else {
        Style::plain()
    }
}

/// The style of a message in `color`: bold.
pub open spec fn message_style(color: Color) -> Style {
    Style { fg: Some(color), bold: true, ..Style::plain() }
}

/// The names of the columns.
pub open spec fn column_names() -> Seq<Seq<char>> {
    seq!["ID"@, "Status"@, "Source"@, "Ref"@, "Created at"@, "Updated at"@, "URL"@]
}

/// Whether `header` names the columns, each in bold.
pub open spec fn is_header(header: Seq<Span>) -> bool {
    header.len() == 7 && forall|i: int|
        0 <= i < 7 ==> (#[trigger] header[i]).shows(
            column_names()[i],
            Style { bold: true, ..Style::plain() },
        )
}

impl Row {
    /// Whether the row shows `pipeline`: its number, status, source, ref
    /// and the two instants, the status in its style, and the whole row
    /// highlighted or not.
    pub open spec fn shows(self, pipeline: PipelineView, highlighted: bool) -> bool {
        &&& self.style == row_style(highlighted)
        &&& self.cells@.len() == 6
        &&& self.cells@[0].shows(decimal(pipeline.id as nat), Style::plain())
        &&& self.cells@[1].shows(pipeline.status.name(), status_style(pipeline.status))
        &&& self.cells@[2].shows(pipeline.source.name(), Style::plain())
        &&& self.cells@[3].shows(pipeline.git_ref, Style::plain())
        &&& self.cells@[4].shows(pipeline.created_at.shown(), Style::plain())
        &&& self.cells@[5].shows(pipeline.updated_at.shown(), Style::plain())
    }
}

impl TableView {
    /// Whether this is the table of `pipelines` under `title`, with the
    /// cursor on row `cursor`, the filters `filters` and the page indicator
    /// for `page`.
    pub open spec fn lists(
        self,
        pipelines: Seq<PipelineView>,
        cursor: usize,
        filters: Seq<Seq<char>>,
        page: nat,
        title: Seq<char>,
    ) -> bool {
        &&& is_header(self.header@)
        &&& self.rows@.len() == pipelines.len()
        &&& forall|i: int|
            0 <= i < pipelines.len() ==> (#[trigger] self.rows@[i]).shows(pipelines[i], i == cursor)
        &&& self.title@ == title
        &&& self.filters.shows(
            "Filters: "@ + joined(filters, ", "@),
            Style { italic: true, ..Style::plain() },
        )
        &&& self.position@ == decimal(following(cursor)) + " of "@ + decimal(pipelines.len())
        &&& self.pages@ == "Pages: "@ + pagination(pipelines.len(), page)
    }

    /// Whether this is the table of `pipelines` as `viewer` paints it in
    /// `area` for `state`: the table under the cursor of the viewer, on the
    /// page after `active_page` pages, with the details over it while they
    /// are open and the cursor is on a pipeline.
    pub open spec fn paints(
        self,
        viewer: ViewerView,
        pipelines: Seq<PipelineView>,
        area: Rect,
        state: StateView,
    ) -> bool {
        &&& self.lists(
            pipelines,
            viewer.active_operation_index,
            state.active_filters,
            following(state.active_page),
            "Pipelines"@,
        )
        &&& match self.popup {
            Some(popup) => viewer.show_details_popup && viewer.active_operation_index
                < pipelines.len() && popup_in(area, popup.area) && popup.title@ == "Details for: "@
                + decimal(pipelines[viewer.active_operation_index as int].id as nat),
            None => !(viewer.show_details_popup && viewer.active_operation_index < pipelines.len()),
        }
    }
}

impl PipelinesPainting {
    /// Whether this is what `viewer` paints on a screen of `area` for
    /// `state`: a message while nothing is loaded or the fetch failed, else
    /// the table.
    pub open spec fn paints(self, viewer: ViewerView, area: Rect, state: StateView) -> bool {
        &&& placed(area, Element::Body(Body::RightColumn), self.area)
        &&& self.block == block_for(state.focused_component, PIPELINES_VIEWER, Color::Green)
        &&& match state.pipelines_data {
            PipelinesDataView::Loading => self.content matches PipelinesContent::Message(line)
                && line.shows("Loading..."@, message_style(Color::Yellow)),
            PipelinesDataView::Errors(error) => self.content matches PipelinesContent::Message(line)
                && line.shows("ERROR: "@ + error, message_style(Color::Red)),
            PipelinesDataView::Loaded(pipelines) => self.content matches PipelinesContent::Table(
                table,
            ) && table.paints(viewer, pipelines, self.area, state),
        }
    }
}

fn style_of(status: PipelineStatus) -> (style: Style)
    ensures
        style == status_style(status),
{
    match status {
        PipelineStatus::Failed => Style::new().fg(Color::Red),
        PipelineStatus::Success => Style::new().fg(Color::Green),
        PipelineStatus::Running => Style::new().italic(),
        _ => Style::new(),
    }
}

/// The number after `n`, or `n` itself where the machine has none.
pub fn succ(n: usize) -> (m: usize)
    ensures
        m == following(n),
{
    if n < usize::MAX {
        n + 1
    } else {
        n
    }
}

fn bold_span(name: &str) -> (span: Span)
    ensures
        span.shows(name@, Style { bold: true, ..Style::plain() }),
{
    Span::styled(String::from_str(name), Style::new().bold())
}

fn table_header() -> (header: Vec<Span>)
    ensures
        is_header(header@),
{
    let mut header: Vec<Span> = Vec::new();
    header.push(bold_span("ID"));
    header.push(bold_span("Status"));
    header.push(bold_span("Source"));
    header.push(bold_span("Ref"));
    header.push(bold_span("Created at"));
    header.push(bold_span("Updated at"));
    header.push(bold_span("URL"));
    header
}

/// One line in bold and in `color`.
pub fn message(text: String, color: Color) -> (line: Span)
    ensures
        line.shows(text@, message_style(color)),
{
    Span::styled(text, Style::new().fg(color).bold())
}

/// The row of `pipeline`, highlighted where the cursor is on it.
pub fn pipeline_row(pipeline: &GitlabPipeline, highlighted: bool) -> (row: Row)
    ensures
        row.shows(pipeline@, highlighted),
{
    let style: Style = if highlighted {
        Style::new().fg(Color::Black).bg(Color::LightYellow)
    } else {
        Style::new()
    };
    let mut cells: Vec<Span> = Vec::new();
    cells.push(Span::raw(decimal_string(pipeline.id as usize)));
    cells.push(Span::styled(pipeline.status.to_string(), style_of(pipeline.status)));
    cells.push(Span::raw(pipeline.source.to_string()));
    cells.push(Span::raw(pipeline.git_ref.clone()));
    cells.push(Span::raw(pipeline.created_at.to_cell()));
    cells.push(Span::raw(pipeline.updated_at.to_cell()));
    Row { cells, style }
}

/// The table of `pipelines` under `title`, with the cursor on row `cursor`
/// and the page indicator for `page`. The details are closed.
pub fn pipelines_table(
    pipelines: &Vec<GitlabPipeline>,
    cursor: usize,
    filters: &Vec<String>,
    page: usize,
    title: String,
) -> (table: TableView)
    ensures
        table.lists(pipelines.deep_view(), cursor, filters.deep_view(), page as nat, title@),
        table.popup is None,
{
    let ghost shown = pipelines.deep_view();
    let count: usize = pipelines.len();
    assert(shown.len() == count);
    let mut rows: Vec<Row> = Vec::new();
    let mut i: usize = 0;
    while i < count
        invariant
            i <= count,
            count == pipelines@.len(),
            shown == pipelines.deep_view(),
            rows@.len() == i,
            forall|j: int| 0 <= j < i ==> (#[trigger] rows@[j]).shows(shown[j], j == cursor),
        decreases count - i,
    {
        let row: Row = pipeline_row(&pipelines[i], i == cursor);
        assert(shown[i as int] == pipelines@[i as int]@);
        rows.push(row);
        i = i + 1;
    }
    let mut shown_filters: String = String::from_str("Filters: ");
    shown_filters.append(join_strings(filters, ", ").as_str());
    let mut position: String = decimal_string(succ(cursor));
    position.append(" of ");
    position.append(decimal_string(count).as_str());
    let mut pages: String = String::from_str("Pages: ");
    pages.append(build_paginator(count, page).as_str());
    TableView {
        header: table_header(),
        rows,
        title,
        filters: Span::styled(shown_filters, Style::new().italic()),
        position,
        pages,
        popup: None,
    }
}

impl PipelinesViewerComponent {
    /// A viewer that has not been told its configuration.
    pub fn new() -> (viewer: PipelinesViewerComponent)
        ensures
            viewer@ == ViewerView::initial(),
    {
        PipelinesViewerComponent {
            gitlab_url: String::new(),
            max_page_size: 25,
            active_operation_index: 0,
            show_details_popup: false,
        }
    }

    /// The position of the cursor, counted from 0.
    pub fn active_operation_index(&self) -> (index: usize)
        ensures
            index == self@.active_operation_index,
    {
        self.active_operation_index
    }

    /// Whether the details are open.
    pub fn show_details_popup(&self) -> (open: bool)
        ensures
            open == self@.show_details_popup,
    {
        self.show_details_popup
    }

    /// Takes the server's address and the page size from `config`. Cursor
    /// and details stay as they are.
    pub fn register_config_handler(&mut self, config: &Config)
        ensures
            final(self)@ == (ViewerView {
                gitlab_url: config.core.gitlab_url@,
                max_page_size: config.ui.max_page_size,
                ..old(self)@
            }),
    {
        self.gitlab_url = config.core.gitlab_url.clone();
        self.max_page_size = config.ui.max_page_size;
    }

    /// What to fetch for the active project; `None` while no project is
    /// chosen.
    pub fn fetch_request(&self, state: &State) -> (request: Option<FetchRequest>)
        ensures
            match request {
                Some(r) => self@.request(state@) == Some((r.url@, r.per_page@)),
                None => self@.request(state@) is None,
            },
    {
        match &state.active_gitlab_project {
            Some(project) => Some(
                fetch_request(self.gitlab_url.as_str(), project.as_str(), self.max_page_size),
            ),
            None => None,
        }
    }

    /// Takes in what was fetched for the active project.
    pub fn load_pipelines_data(
        &self,
        state: &mut State,
        fetched: Option<Result<Vec<GitlabPipeline>, String>>,
    )
        ensures
            final(state)@ == ViewerView::loaded(old(state)@, fetched_view(fetched)),
    {
        match &state.active_gitlab_project {
            Some(_) => {
                match fetched {
                    Some(Ok(results)) => {
                        state.pipelines_data = PipelinesData::Loaded(results);
                    },
                    Some(Err(error)) => {
                        state.pipelines_data = PipelinesData::Errors(error);
                    },
                    None => {},
                }
            },
            None => {
                state.pipelines_data = PipelinesData::Errors(String::from_str("Project not selected"));
            },
        }
    }

    fn next(&mut self, state: &State)
        ensures
            final(self)@ == old(self)@.next(state@),
    {
        if state.focused_component == PIPELINES_VIEWER {
            if let PipelinesData::Loaded(pipelines) = &state.pipelines_data {
                let count: usize = pipelines.len();
                assert(pipelines.deep_view().len() == count);
                if self.active_operation_index < usize::MAX && self.active_operation_index + 1
                    < count {
                    self.active_operation_index += 1;
                }
            }
        }
    }

    fn previous(&mut self, state: &State)
        ensures
            final(self)@ == old(self)@.previous(state@),
    {
        if state.focused_component == PIPELINES_VIEWER {
            if let PipelinesData::Loaded(_) = &state.pipelines_data {
                if self.active_operation_index > 0 {
                    self.active_operation_index -= 1;
                }
            }
        }
    }

    fn show_details(&mut self, state: &State)
        ensures
            final(self)@ == old(self)@.show_details(state@),
    {
        if state.focused_component == PIPELINES_VIEWER {
            if let PipelinesData::Loaded(pipelines) = &state.pipelines_data {
                let count: usize = pipelines.len();
                assert(pipelines.deep_view().len() == count);
                if self.active_operation_index < count {
                    self.show_details_popup = !self.show_details_popup;
                }
            }
        }
    }

    /// Reacts to `action`. The viewer never answers with an action of its
    /// own.
    pub fn update(&mut self, action: &Action, state: &mut State) -> (answer: Option<Action>)
        ensures
            (final(self)@, final(state)@) == old(self)@.updated(action@, old(state)@),
            answer is None,
    {
        match action {
            Action::Next => self.next(state),
            Action::Previous => self.previous(state),
            Action::Enter => self.show_details(state),
            Action::FocusUp => state.focused_component = HEADER,
            Action::FocusDown => state.focused_component = FOOTER,
            Action::FocusLeft => state.focused_component = PROJECT_SELECTOR,
            Action::Render => self.load_pipelines_data(state, None),
            _ => {},
        }
        None
    }

    fn table(&self, pipelines: &Vec<GitlabPipeline>, area: Rect, state: &State) -> (table: TableView)
        ensures
            table.paints(self@, pipelines.deep_view(), area, state@),
    {
        let ghost shown = pipelines.deep_view();
        let count: usize = pipelines.len();
        assert(shown.len() == count);
        let mut table: TableView = pipelines_table(
            pipelines,
            self.active_operation_index,
            &state.active_filters,
            succ(state.active_page),
            String::from_str("Pipelines"),
        );
        if self.show_details_popup && self.active_operation_index < count {
            let pipeline_id: u32 = pipelines[self.active_operation_index].id;
            assert(shown[self.active_operation_index as int]
                == pipelines@[self.active_operation_index as int]@);
            let mut title: String = String::from_str("Details for: ");
            title.append(decimal_string(pipeline_id as usize).as_str());
            table.popup = Some(Popup { area: popup_area(area, 60, 20), title });
        }
        table
    }

    /// What the viewer paints on a screen of `area`.
    pub fn draw(&self, area: Rect, state: &State) -> (painting: PipelinesPainting)
        ensures
            painting.paints(self@, area, state@),
    {
        let region: Rect = prepare_layout(area, Element::Body(Body::RightColumn));
        let block: Block = get_block(state, PIPELINES_VIEWER, Color::Green);
        let content: PipelinesContent = match &state.pipelines_data {
            PipelinesData::Loading => PipelinesContent::Message(
                message(String::from_str("Loading..."), Color::Yellow),
            ),
            PipelinesData::Loaded(pipelines) => PipelinesContent::Table(
                self.table(pipelines, region, state),
            ),
            PipelinesData::Errors(error) => {
                let mut text: String = String::from_str("ERROR: ");
                text.append(error.as_str());
                PipelinesContent::Message(message(text, Color::Red))
            },
        };
        PipelinesPainting { area: region, block, content }
    }
}

} // verus!
