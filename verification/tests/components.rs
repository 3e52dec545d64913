use gitlab_tui::action::Action;
use gitlab_tui::components::error_component::{ErrorComponent, ErrorState};
use gitlab_tui::components::footer_component::FooterComponent;
use gitlab_tui::components::header_component::HeaderComponent;
use gitlab_tui::components::loading_component::LoadingComponent;
use gitlab_tui::components::pipelines_viewer_component::{
    pipeline_row, PipelinesContent, PipelinesViewerComponent,
};
use gitlab_tui::components::project_selector_component::ProjectSelectorComponent;
use gitlab_tui::components::{Component, Painting};
use gitlab_tui::config::{Config, CoreConfig, UIConfig};
use gitlab_tui::gitlab::{
    GitlabPipeline, PipelineSource, PipelineStatus, PipelinesData, Timestamp,
};
use gitlab_tui::layout::Rect;
use gitlab_tui::state::State;
use gitlab_tui::style::{Alignment, BorderType, Color, Style};
use gitlab_tui::tui::Event;

const PLAIN: Style = Style { fg: None, bg: None, bold: false, italic: false };

fn screen() -> Rect {
    Rect { x: 0, y: 0, width: 80, height: 24 }
}

fn config(projects: &[&str]) -> Config {
    Config {
        core: CoreConfig {
            gitlab_url: String::from("https://gitlab.example/api/v4"),
            gitlab_projects: projects.iter().map(|p| String::from(*p)).collect(),
        },
        ui: UIConfig { max_page_size: 30 },
        keybindings: Vec::new(),
    }
}

fn pipeline(id: u32, status: PipelineStatus) -> GitlabPipeline {
    GitlabPipeline::new(
        id,
        status,
        PipelineSource::MergeRequestEvent,
        String::from("feature/x"),
        String::from("https://gitlab.example/p/1"),
        Timestamp { secs: 1_431_648_000, nanos: 0 },
        Timestamp { secs: 1_431_648_061, nanos: 0 },
    )
}

fn three() -> Vec<GitlabPipeline> {
    vec![
        pipeline(101, PipelineStatus::Failed),
        pipeline(102, PipelineStatus::Success),
        pipeline(103, PipelineStatus::Running),
    ]
}

fn focused(on: usize) -> State {
    let mut state = State::default();
    state.focused_component = on;
    state
}

#[test]
fn the_state_starts_with_the_header_in_focus() {
    let state = State::default();
    assert_eq!(state.focused_component, 0);
    assert_eq!(state.active_gitlab_project, None);
    assert_eq!(state.active_page, 0);
    assert!(state.active_filters.is_empty());
    assert!(matches!(state.pipelines_data, PipelinesData::Loading));
}

#[test]
fn selector_cursor_moves_down_and_stops_at_the_last_project() {
    let mut selector = ProjectSelectorComponent::new();
    selector.register_config_handler(&config(&["a", "b", "c"]));
    let mut state = focused(1);
    assert_eq!(selector.active_operation_index(), 0);
    assert_eq!(selector.update(&Action::Next, &mut state), None);
    assert_eq!(selector.active_operation_index(), 1);
    selector.update(&Action::Next, &mut state);
    assert_eq!(selector.active_operation_index(), 2);
    selector.update(&Action::Next, &mut state);
    assert_eq!(selector.active_operation_index(), 2);
}

#[test]
fn selector_cursor_moves_up_and_stops_at_the_first_project() {
    let mut selector = ProjectSelectorComponent::new();
    selector.register_config_handler(&config(&["a", "b"]));
    let mut state = focused(1);
    selector.update(&Action::Next, &mut state);
    selector.update(&Action::Previous, &mut state);
    assert_eq!(selector.active_operation_index(), 0);
    selector.update(&Action::Previous, &mut state);
    assert_eq!(selector.active_operation_index(), 0);
}

#[test]
fn selector_without_focus_does_not_move_or_select() {
    let mut selector = ProjectSelectorComponent::new();
    selector.register_config_handler(&config(&["a", "b"]));
    for focus in [0usize, 2, 3] {
        let mut state = focused(focus);
        selector.update(&Action::Next, &mut state);
        selector.update(&Action::Enter, &mut state);
        assert_eq!(selector.active_operation_index(), 0);
        assert_eq!(state.active_gitlab_project, None);
    }
}

#[test]
fn selector_without_projects_stays_put() {
    let mut selector = ProjectSelectorComponent::new();
    let mut state = focused(1);
    selector.update(&Action::Next, &mut state);
    selector.update(&Action::Enter, &mut state);
    assert_eq!(selector.active_operation_index(), 0);
    assert_eq!(state.active_gitlab_project, None);
}

#[test]
fn enter_on_the_selector_makes_the_project_active() {
    let mut selector = ProjectSelectorComponent::new();
    selector.register_config_handler(&config(&["a", "b"]));
    let mut state = focused(1);
    selector.update(&Action::Next, &mut state);
    selector.update(&Action::Enter, &mut state);
    assert_eq!(state.active_gitlab_project, Some(String::from("b")));
    assert_eq!(state.focused_component, 1);
}

#[test]
fn selector_moves_the_focus() {
    let mut selector = ProjectSelectorComponent::new();
    let mut state = focused(1);
    selector.update(&Action::FocusUp, &mut state);
    assert_eq!(state.focused_component, 0);
    selector.update(&Action::FocusDown, &mut state);
    assert_eq!(state.focused_component, 3);
    selector.update(&Action::FocusRight, &mut state);
    assert_eq!(state.focused_component, 2);
    selector.update(&Action::FocusLeft, &mut state);
    assert_eq!(state.focused_component, 2);
}

#[test]
fn selector_ignores_the_other_actions() {
    let mut selector = ProjectSelectorComponent::new();
    selector.register_config_handler(&config(&["a", "b"]));
    let mut state = focused(1);
    for action in [Action::Tick, Action::Render, Action::Quit, Action::Help, Action::Error(String::from("x"))] {
        assert_eq!(selector.update(&action, &mut state), None);
    }
    assert_eq!(selector.active_operation_index(), 0);
    assert_eq!(state.focused_component, 1);
    assert_eq!(state.active_gitlab_project, None);
}

#[test]
fn selector_paints_its_projects() {
    let mut selector = ProjectSelectorComponent::new();
    selector.register_config_handler(&config(&["a", "b"]));
    let mut state = focused(1);
    selector.update(&Action::Next, &mut state);
    let painting = selector.draw(screen(), &state);
    assert_eq!(painting.area, Rect { x: 0, y: 2, width: 12, height: 19 });
    assert_eq!(painting.block.border_type, BorderType::Thick);
    assert_eq!(painting.block.border_style.fg, Some(Color::LightMagenta));
    assert_eq!(painting.title, "Project Selector");
    assert_eq!(painting.title_alignment, Alignment::Center);
    assert_eq!(painting.items, vec![String::from("a"), String::from("b")]);
    assert_eq!(painting.selected, 1);
    assert_eq!(
        painting.highlight_style,
        Style { fg: Some(Color::Black), bg: Some(Color::White), bold: true, italic: false }
    );
}

#[test]
fn viewer_cursor_is_clamped_to_the_loaded_pipelines() {
    let mut viewer = PipelinesViewerComponent::new();
    let mut state = focused(2);
    state.pipelines_data = PipelinesData::Loaded(three());
    viewer.update(&Action::Next, &mut state);
    assert_eq!(viewer.active_operation_index(), 1);
    viewer.update(&Action::Next, &mut state);
    assert_eq!(viewer.active_operation_index(), 2);
    viewer.update(&Action::Next, &mut state);
    assert_eq!(viewer.active_operation_index(), 2);
    viewer.update(&Action::Previous, &mut state);
    viewer.update(&Action::Previous, &mut state);
    viewer.update(&Action::Previous, &mut state);
    assert_eq!(viewer.active_operation_index(), 0);
}

#[test]
fn viewer_cursor_does_not_move_while_nothing_is_loaded() {
    let mut viewer = PipelinesViewerComponent::new();
    let mut state = focused(2);
    viewer.update(&Action::Next, &mut state);
    assert_eq!(viewer.active_operation_index(), 0);
    state.pipelines_data = PipelinesData::Errors(String::from("down"));
    viewer.update(&Action::Next, &mut state);
    assert_eq!(viewer.active_operation_index(), 0);
    state.pipelines_data = PipelinesData::Loaded(Vec::new());
    viewer.update(&Action::Next, &mut state);
    viewer.update(&Action::Enter, &mut state);
    assert_eq!(viewer.active_operation_index(), 0);
    assert!(!viewer.show_details_popup());
}

#[test]
fn viewer_without_focus_does_not_react_to_navigation() {
    let mut viewer = PipelinesViewerComponent::new();
    for focus in [0usize, 1, 3] {
        let mut state = focused(focus);
        state.pipelines_data = PipelinesData::Loaded(three());
        viewer.update(&Action::Next, &mut state);
        viewer.update(&Action::Enter, &mut state);
        assert_eq!(viewer.active_operation_index(), 0);
        assert!(!viewer.show_details_popup());
        assert_eq!(state.active_gitlab_project, None);
    }
}

#[test]
fn viewer_stays_responsive_after_a_failed_fetch() {
    let mut viewer = PipelinesViewerComponent::new();
    let mut state = focused(2);
    state.pipelines_data = PipelinesData::Errors(String::from("down"));
    viewer.update(&Action::FocusLeft, &mut state);
    assert_eq!(state.focused_component, 1);
    viewer.update(&Action::FocusUp, &mut state);
    assert_eq!(state.focused_component, 0);
    viewer.update(&Action::FocusDown, &mut state);
    assert_eq!(state.focused_component, 3);
    viewer.update(&Action::FocusRight, &mut state);
    assert_eq!(state.focused_component, 3);
}

#[test]
fn enter_on_the_viewer_opens_and_closes_the_details() {
    let mut viewer = PipelinesViewerComponent::new();
    let mut state = focused(2);
    state.pipelines_data = PipelinesData::Loaded(three());
    viewer.update(&Action::Enter, &mut state);
    assert!(viewer.show_details_popup());
    assert_eq!(state.active_gitlab_project, None);
    viewer.update(&Action::Enter, &mut state);
    assert!(!viewer.show_details_popup());
}

#[test]
fn render_without_a_project_says_so() {
    let mut viewer = PipelinesViewerComponent::new();
    let mut state = State::default();
    viewer.update(&Action::Render, &mut state);
    match &state.pipelines_data {
        PipelinesData::Errors(message) => assert_eq!(message, "Project not selected"),
        _ => panic!("expected an error"),
    }
    assert!(viewer.fetch_request(&state).is_none());
}

#[test]
fn render_with_a_project_waits_for_the_fetch() {
    let mut viewer = PipelinesViewerComponent::new();
    viewer.register_config_handler(&config(&["7"]));
    let mut state = State::default();
    state.active_gitlab_project = Some(String::from("7"));
    viewer.update(&Action::Render, &mut state);
    assert!(matches!(state.pipelines_data, PipelinesData::Loading));
    let request = viewer.fetch_request(&state).expect("a request");
    assert_eq!(request.url, "https://gitlab.example/api/v4/projects/7/pipelines");
    assert_eq!(request.per_page, "30");
}

#[test]
fn what_was_fetched_goes_into_the_state() {
    let viewer = PipelinesViewerComponent::new();
    let mut state = State::default();
    state.active_gitlab_project = Some(String::from("7"));
    viewer.load_pipelines_data(&mut state, Some(Ok(three())));
    match &state.pipelines_data {
        PipelinesData::Loaded(pipelines) => assert_eq!(pipelines.len(), 3),
        _ => panic!("expected pipelines"),
    }
    viewer.load_pipelines_data(&mut state, None);
    assert!(matches!(state.pipelines_data, PipelinesData::Loaded(_)));
    viewer.load_pipelines_data(&mut state, Some(Err(String::from("401 Unauthorized"))));
    match &state.pipelines_data {
        PipelinesData::Errors(message) => assert_eq!(message, "401 Unauthorized"),
        _ => panic!("expected an error"),
    }
}

#[test]
fn what_was_fetched_without_a_project_is_dropped() {
    let viewer = PipelinesViewerComponent::new();
    let mut state = State::default();
    viewer.load_pipelines_data(&mut state, Some(Ok(three())));
    match &state.pipelines_data {
        PipelinesData::Errors(message) => assert_eq!(message, "Project not selected"),
        _ => panic!("expected an error"),
    }
}

#[test]
fn viewer_paints_loading_and_errors_as_one_line() {
    let viewer = PipelinesViewerComponent::new();
    let mut state = State::default();
    let painting = viewer.draw(screen(), &state);
    assert_eq!(painting.area, Rect { x: 12, y: 2, width: 68, height: 19 });
    assert_eq!(painting.block.border_type, BorderType::Plain);
    match &painting.content {
        PipelinesContent::Message(line) => {
            assert_eq!(line.content, "Loading...");
            assert_eq!(line.style, Style { fg: Some(Color::Yellow), bg: None, bold: true, italic: false });
        }
        _ => panic!("expected a message"),
    }
    state.pipelines_data = PipelinesData::Errors(String::from("connection refused"));
    match &viewer.draw(screen(), &state).content {
        PipelinesContent::Message(line) => {
            assert_eq!(line.content, "ERROR: connection refused");
            assert_eq!(line.style, Style { fg: Some(Color::Red), bg: None, bold: true, italic: false });
        }
        _ => panic!("expected a message"),
    }
}

#[test]
fn viewer_paints_the_table() {
    let mut viewer = PipelinesViewerComponent::new();
    let mut state = focused(2);
    state.pipelines_data = PipelinesData::Loaded(three());
    state.active_filters = vec![String::from("failed"), String::from("main")];
    viewer.update(&Action::Next, &mut state);
    let painting = viewer.draw(screen(), &state);
    assert_eq!(painting.block.border_type, BorderType::Thick);
    assert_eq!(painting.block.border_style.fg, Some(Color::Green));
    let table = match &painting.content {
        PipelinesContent::Table(table) => table,
        _ => panic!("expected a table"),
    };
    let names: Vec<&str> = table.header.iter().map(|s| s.content.as_str()).collect();
    assert_eq!(names, vec!["ID", "Status", "Source", "Ref", "Created at", "Updated at", "URL"]);
    assert!(table.header.iter().all(|s| s.style == Style { bold: true, ..PLAIN }));
    assert_eq!(table.title, "Pipelines");
    assert_eq!(table.filters.content, "Filters: failed, main");
    assert_eq!(table.filters.style, Style { italic: true, ..PLAIN });
    assert_eq!(table.position, "2 of 3");
    assert_eq!(table.pages, "Pages: <H [1] 2 3 L>");
    assert!(table.popup.is_none());
    assert_eq!(table.rows.len(), 3);
    let highlighted: Vec<bool> = table.rows.iter().map(|r| r.style != PLAIN).collect();
    assert_eq!(highlighted, vec![false, true, false]);
    assert_eq!(
        table.rows[1].style,
        Style { fg: Some(Color::Black), bg: Some(Color::LightYellow), bold: false, italic: false }
    );
    let cells: Vec<&str> = table.rows[0].cells.iter().map(|s| s.content.as_str()).collect();
    assert_eq!(
        cells,
        vec!["101", "Failed", "MergeRequestEvent", "feature/x", "2015-05-15 00:00:00", "2015-05-15 00:01:01"]
    );
    assert_eq!(table.rows[0].cells[1].style, Style { fg: Some(Color::Red), ..PLAIN });
    assert_eq!(table.rows[1].cells[1].style, Style { fg: Some(Color::Green), ..PLAIN });
    assert_eq!(table.rows[2].cells[1].style, Style { italic: true, ..PLAIN });
    assert_eq!(table.rows[0].cells[0].style, PLAIN);
}

#[test]
fn the_page_indicator_follows_the_active_page() {
    let viewer = PipelinesViewerComponent::new();
    let mut state = State::default();
    state.pipelines_data = PipelinesData::Loaded((1..=10).map(|i| pipeline(i, PipelineStatus::Pending)).collect());
    state.active_page = 4;
    match &viewer.draw(screen(), &state).content {
        PipelinesContent::Table(table) => {
            assert_eq!(table.pages, "Pages: <H 1 ... 4 [5] 6 ... 10 L>");
            assert_eq!(table.position, "1 of 10");
            assert_eq!(table.filters.content, "Filters: ");
        }
        _ => panic!("expected a table"),
    }
}

#[test]
fn an_empty_list_paints_an_empty_table() {
    let viewer = PipelinesViewerComponent::new();
    let mut state = State::default();
    state.pipelines_data = PipelinesData::Loaded(Vec::new());
    match &viewer.draw(screen(), &state).content {
        PipelinesContent::Table(table) => {
            assert!(table.rows.is_empty());
            assert_eq!(table.position, "1 of 0");
            assert_eq!(table.pages, "Pages: <H [1] L>");
        }
        _ => panic!("expected a table"),
    }
}

#[test]
fn the_details_name_the_pipeline_under_the_cursor() {
    let mut viewer = PipelinesViewerComponent::new();
    let mut state = focused(2);
    state.pipelines_data = PipelinesData::Loaded(three());
    viewer.update(&Action::Next, &mut state);
    viewer.update(&Action::Enter, &mut state);
    let painting = viewer.draw(Rect { x: 0, y: 0, width: 100, height: 50 }, &state);
    match &painting.content {
        PipelinesContent::Table(table) => {
            let popup = table.popup.as_ref().expect("details");
            assert_eq!(popup.title, "Details for: 102");
            assert!(popup.area.x >= painting.area.x);
            assert!(popup.area.width <= painting.area.width);
            assert_eq!(popup.area.width, 51);
            assert_eq!(popup.area.height, 9);
        }
        _ => panic!("expected a table"),
    }
}

#[test]
fn the_details_are_not_painted_when_the_cursor_is_past_the_list() {
    let mut viewer = PipelinesViewerComponent::new();
    let mut state = focused(2);
    state.pipelines_data = PipelinesData::Loaded(three());
    viewer.update(&Action::Next, &mut state);
    viewer.update(&Action::Next, &mut state);
    viewer.update(&Action::Enter, &mut state);
    state.pipelines_data = PipelinesData::Loaded(vec![pipeline(9, PipelineStatus::Manual)]);
    match &viewer.draw(screen(), &state).content {
        PipelinesContent::Table(table) => {
            assert!(table.popup.is_none());
            assert_eq!(table.position, "3 of 1");
        }
        _ => panic!("expected a table"),
    }
}

#[test]
fn a_row_shows_a_pipeline() {
    let row = pipeline_row(&pipeline(4_000_000_000, PipelineStatus::Canceled), false);
    assert_eq!(row.style, PLAIN);
    assert_eq!(row.cells.len(), 6);
    assert_eq!(row.cells[0].content, "4000000000");
    assert_eq!(row.cells[1].content, "Canceled");
    assert_eq!(row.cells[1].style, PLAIN);
}

#[test]
fn header_paints_title_and_project() {
    let header = HeaderComponent::new();
    let mut state = State::default();
    let view = header.draw(screen(), &state);
    assert_eq!(view.title.content, "[ GitLab Pipelines Viewer \u{2022} v0.0.1 ]");
    assert_eq!(view.title.style, Style { fg: Some(Color::LightBlue), ..PLAIN });
    assert_eq!(view.project.content, "<None>");
    assert_eq!(view.project.style, Style { fg: Some(Color::LightRed), ..PLAIN });
    assert_eq!(view.title_area, Rect { x: 0, y: 0, width: 40, height: 2 });
    assert_eq!(view.project_area, Rect { x: 40, y: 0, width: 40, height: 2 });
    state.active_gitlab_project = Some(String::from("group/project"));
    assert_eq!(header.draw(screen(), &state).project.content, "group/project");
}

#[test]
fn footer_paints_the_keys() {
    let footer = FooterComponent::new();
    let view = footer.draw(screen(), &State::default());
    assert_eq!(view.area, Rect { x: 0, y: 21, width: 80, height: 3 });
    let texts: Vec<&str> = view.spans.iter().map(|s| s.content.as_str()).collect();
    assert_eq!(
        texts,
        vec![
            "[ ",
            "h/l - left/right pane \u{2022} ",
            "j/k - next/prev item \u{2022} ",
            "p - focus project selector \u{2022} ",
            "q - quit",
            " ]"
        ]
    );
    let colors: Vec<Option<Color>> = view.spans.iter().map(|s| s.style.fg).collect();
    assert_eq!(
        colors,
        vec![
            Some(Color::White),
            Some(Color::Blue),
            Some(Color::Blue),
            Some(Color::Blue),
            Some(Color::Red),
            Some(Color::White)
        ]
    );
}

#[test]
fn the_error_line_paints_only_when_there_is_an_error() {
    let mut quiet = ErrorComponent::new();
    assert!(quiet.draw(screen()).is_none());
    assert_eq!(quiet.update(&Action::Render), None);
    assert!(quiet.draw(screen()).is_none());
    let loud = ErrorComponent::with_state(ErrorState { error_details: Some(String::from("no token")) });
    let painting = loud.draw(screen()).expect("a line");
    assert_eq!(painting.area, screen());
    assert_eq!(painting.line.content, "ERROR: no token");
    assert_eq!(painting.line.style, Style { fg: Some(Color::Red), bg: None, bold: true, italic: false });
}

#[test]
fn the_loading_line_stands_in_the_middle() {
    let mut loading = LoadingComponent::new();
    assert_eq!(loading.update(&Action::Tick), None);
    let painting = loading.draw(Rect { x: 0, y: 0, width: 100, height: 50 });
    assert_eq!(painting.area, Rect { x: 40, y: 20, width: 20, height: 10 });
    assert_eq!(painting.line.content, "Loading...");
}

#[test]
fn components_are_treated_alike() {
    let mut components = vec![
        Component::Header(HeaderComponent::new()),
        Component::ProjectSelector(ProjectSelectorComponent::new()),
        Component::PipelinesViewer(PipelinesViewerComponent::new()),
        Component::Footer(FooterComponent::new()),
        Component::Error(ErrorComponent::new()),
        Component::Loading(LoadingComponent::new()),
    ];
    let mut state = focused(1);
    let cfg = config(&["a", "b"]);
    for component in components.iter_mut() {
        component.register_config_handler(&cfg);
        component.init(&state);
        assert_eq!(component.handle_events(&Event::Tick, &mut state), None);
        assert_eq!(component.update(&Action::Next, &mut state), None);
    }
    match &components[1] {
        Component::ProjectSelector(selector) => assert_eq!(selector.active_operation_index(), 1),
        _ => panic!("expected the selector"),
    }
    state.active_gitlab_project = Some(String::from("a"));
    let wanted: Vec<bool> = components.iter().map(|c| c.fetch_request(&state).is_some()).collect();
    assert_eq!(wanted, vec![false, false, true, false, false, false]);
    let kinds: Vec<u8> = components
        .iter()
        .map(|c| match c.draw(screen(), &state) {
            Painting::Header(_) => 0,
            Painting::ProjectSelector(_) => 1,
            Painting::PipelinesViewer(_) => 2,
            Painting::Footer(_) => 3,
            Painting::Error(_) => 4,
            Painting::Loading(_) => 5,
        })
        .collect();
    assert_eq!(kinds, vec![0, 1, 2, 3, 4, 5]);
}
