//! A line that says that something is loading.

use vstd::prelude::*;
use vstd::string::StringExecFns;
use crate::action::Action;
use crate::components::pipelines_viewer_component::message_style;
use crate::layout::{centered_in, centered_layout, Rect};
use crate::style::{Color, Span, Style};

verus! {

/// The loading line. It holds nothing of its own.
#[derive(Debug)]
pub struct LoadingComponent {}

/// What the loading line paints: one centred line in the middle of the
/// screen.
#[derive(Debug)]
pub struct LoadingPainting {
    pub area: Rect,
    pub line: Span,
}

impl LoadingComponent {
    /// A loading line.
    pub fn new() -> (component: LoadingComponent) {
        LoadingComponent {  }
    }

    /// Reacts to `action`: the loading line answers none.
    pub fn update(&mut self, action: &Action) -> (answer: Option<Action>)
        ensures
            answer is None,
    {
        None
    }

    /// What the loading line paints on a screen of `area`: the word in bold
    /// yellow in the middle.
    pub fn draw(&self, area: Rect) -> (painting: LoadingPainting)
        ensures
            centered_in(area, painting.area),
            painting.line.shows("Loading..."@, message_style(Color::Yellow)),
    {
        LoadingPainting {
            area: centered_layout(area),
            line: Span::styled(String::from_str("Loading..."), Style::new().fg(Color::Yellow).bold()),
        }
    }
}

} // verus!
