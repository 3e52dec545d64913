use gitlab_tui::components::pipelines_viewer_component::{message, pipelines_table, succ};
use gitlab_tui::gitlab::{
    GitlabPipeline, PipelineSource, PipelineStatus, PipelinesData, Timestamp,
};
use gitlab_tui::layout::Rect;
use gitlab_tui::state::State;
use gitlab_tui::style::{Alignment, BorderType, Color, Style};
use gitlab_tui::ui::{centered_layout, render_pipelines_view, render_project_selector, PipelinesView};

fn screen() -> Rect {
    Rect { x: 0, y: 0, width: 100, height: 50 }
}

fn pipeline(id: u32) -> GitlabPipeline {
    GitlabPipeline::new(
        id,
        PipelineStatus::Pending,
        PipelineSource::Schedule,
        String::from("v1.2"),
        String::from("https://gitlab.example/p"),
        Timestamp { secs: 86_400, nanos: 0 },
        Timestamp { secs: 86_460, nanos: 0 },
    )
}

#[test]
fn the_project_list_stands_in_the_middle() {
    let mut state = State::default();
    state.active_operation_index = 1;
    let projects = vec![String::from("a"), String::from("b")];
    let painting = render_project_selector(screen(), &state, &projects);
    assert_eq!(painting.area, Rect { x: 40, y: 20, width: 20, height: 10 });
    assert_eq!(painting.area, centered_layout(screen()));
    assert_eq!(painting.block.border_type, BorderType::Plain);
    assert_eq!(painting.title, "GitLab Project Selector");
    assert_eq!(painting.title_alignment, Alignment::Center);
    assert_eq!(painting.items, projects);
    assert_eq!(painting.selected, 1);
    assert_eq!(
        painting.highlight_style,
        Style { fg: Some(Color::Black), bg: Some(Color::White), bold: true, italic: false }
    );
}

#[test]
fn loading_pipelines_show_as_a_word_in_the_middle() {
    match render_pipelines_view(screen(), &State::default()) {
        PipelinesView::Loading(painting) => {
            assert_eq!(painting.area, Rect { x: 40, y: 20, width: 20, height: 10 });
            assert_eq!(painting.line.content, "Loading...");
            assert_eq!(painting.line.style.fg, Some(Color::Yellow));
            assert!(painting.line.style.bold);
        }
        _ => panic!("expected the loading view"),
    }
}

#[test]
fn a_failure_shows_over_the_whole_screen() {
    let mut state = State::default();
    state.pipelines_data = PipelinesData::Errors(String::from("timed out"));
    match render_pipelines_view(screen(), &state) {
        PipelinesView::Errors(painting) => {
            assert_eq!(painting.area, screen());
            assert_eq!(painting.line.content, "ERROR: timed out");
            assert_eq!(painting.line.style.fg, Some(Color::Red));
        }
        _ => panic!("expected the error view"),
    }
}

#[test]
fn loaded_pipelines_show_as_a_table_named_after_the_project() {
    let mut state = State::default();
    state.active_gitlab_project = Some(String::from("group/app"));
    state.pipelines_data = PipelinesData::Loaded((1..=4).map(pipeline).collect());
    state.active_operation_index = 2;
    state.active_page = 3;
    state.active_filters = vec![String::from("tags")];
    match render_pipelines_view(screen(), &state) {
        PipelinesView::Loaded(view) => {
            assert_eq!(view.area, screen());
            assert_eq!(view.block.border_type, BorderType::Plain);
            assert_eq!(view.table.title, "Pipelines for 'group/app'");
            assert_eq!(view.table.filters.content, "Filters: tags");
            assert_eq!(view.table.position, "3 of 4");
            assert_eq!(view.table.pages, "Pages: <H 1 2 [3] 4 L>");
            assert!(view.table.popup.is_none());
            assert_eq!(view.table.rows.len(), 4);
            assert_eq!(view.table.rows[2].style.bg, Some(Color::LightYellow));
            assert_eq!(view.table.rows[0].style.bg, None);
            assert_eq!(view.table.rows[3].cells[4].content, "1970-01-02 00:00:00");
            assert_eq!(view.table.rows[3].cells[5].content, "1970-01-02 00:01:00");
        }
        _ => panic!("expected the table"),
    }
}

#[test]
fn the_table_builder_takes_cursor_page_and_title_as_given() {
    let pipelines: Vec<GitlabPipeline> = (1..=2).map(pipeline).collect();
    let table = pipelines_table(&pipelines, 7, &Vec::new(), 0, String::from("T"));
    assert_eq!(table.title, "T");
    assert_eq!(table.position, "8 of 2");
    assert_eq!(table.pages, "Pages: <H 1 2 L>");
    assert_eq!(table.filters.content, "Filters: ");
    assert!(table.rows.iter().all(|row| row.style.bg.is_none()));
}

#[test]
fn the_number_after_the_largest_is_the_largest() {
    assert_eq!(succ(0), 1);
    assert_eq!(succ(41), 42);
    assert_eq!(succ(usize::MAX), usize::MAX);
    let table = pipelines_table(&Vec::new(), usize::MAX, &Vec::new(), 1, String::new());
    assert_eq!(table.position, format!("{} of 0", usize::MAX));
}

#[test]
fn a_message_is_bold_and_coloured() {
    let line = message(String::from("hello"), Color::Blue);
    assert_eq!(line.content, "hello");
    assert_eq!(line.style, Style { fg: Some(Color::Blue), bg: None, bold: true, italic: false });
}
