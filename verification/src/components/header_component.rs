//! The line on top: the program's name on the left, the active project on
//! the right.

use vstd::prelude::*;
use vstd::string::StringExecFns;
use crate::components::utils::{placed, prepare_layout, Element};
use crate::layout::{divides, halves, Direction, Rect};
use crate::state::{State, StateView};
use crate::style::{dot_text, push_dot, Color, Span, Style};

verus! {

/// The header. It holds nothing of its own.
#[derive(Debug)]
pub struct HeaderComponent {}

/// What the header paints: the title in the left half of its region, the
/// project's name at the right edge of the right half.
#[derive(Debug)]
pub struct HeaderView {
    pub title_area: Rect,
    pub title: Span,
    pub project_area: Rect,
    pub project: Span,
}

/// The title: the program's name and version.
pub open spec fn header_title() -> Seq<char> {
    "[ GitLab Pipelines Viewer "@ + dot_text() + " v0.0.1 ]"@
}

/// The name shown for the active project.
pub open spec fn project_shown(state: StateView) -> Seq<char> {
    match state.active_gitlab_project {
        Some(name) => name,
        None => "<None>"@,
    }
}

impl HeaderView {
    /// Whether this is what the header paints on a screen of `area` for
    /// `state`.
    pub open spec fn paints(self, area: Rect, state: StateView) -> bool {
        &&& self.title.shows(header_title(), Style { fg: Some(Color::LightBlue), ..Style::plain() })
        &&& self.project.shows(
            project_shown(state),
            Style { fg: Some(Color::LightRed), ..Style::plain() },
        )
        &&& exists|region: Rect| #[trigger]
            placed(area, Element::Header, region) && divides(
                region,
                Direction::Horizontal,
                2,
                seq![self.title_area, self.project_area],
            )
    }
}

impl HeaderComponent {
    /// A header.
    pub fn new() -> (header: HeaderComponent) {
        HeaderComponent {  }
    }

    /// What the header paints on a screen of `area`.
    pub fn draw(&self, area: Rect, state: &State) -> (view: HeaderView)
        ensures
            view.paints(area, state@),
    {
        let region: Rect = prepare_layout(area, Element::Header);
        let chunks: (Rect, Rect) = halves(region);
        let mut title: String = String::from_str("[ GitLab Pipelines Viewer ");
        push_dot(&mut title);
        title.append(" v0.0.1 ]");
        let project_name: String = match &state.active_gitlab_project {
            Some(name) => name.clone(),
            None => String::from_str("<None>"),
        };
        HeaderView {
            title_area: chunks.0,
            title: Span::styled(title, Style::new().fg(Color::LightBlue)),
            project_area: chunks.1,
            project: Span::styled(project_name, Style::new().fg(Color::LightRed)),
        }
    }
}

} // verus!
