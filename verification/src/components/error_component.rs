//! A line that reports an error.

use vstd::prelude::*;
use vstd::string::StringExecFns;
use crate::action::Action;
use crate::components::pipelines_viewer_component::message_style;
use crate::layout::Rect;
use crate::style::{Color, Span, Style};

verus! {

/// The error to report, if there is one.
#[derive(Debug)]
pub struct ErrorState {
    pub error_details: Option<String>,
}

/// The error line.
#[derive(Debug)]
pub struct ErrorComponent {
    state: ErrorState,
}

/// What the error line paints: one centred line in its region.
#[derive(Debug)]
pub struct ErrorPainting {
    pub area: Rect,
    pub line: Span,
}

impl View for ErrorComponent {
    type V = Option<Seq<char>>;

    closed spec fn view(&self) -> Option<Seq<char>> {
        self.state.error_details.deep_view()
    }
}

impl ErrorComponent {
    /// An error line with nothing to report.
    pub fn new() -> (component: ErrorComponent)
        ensures
            component@ is None,
    {
        ErrorComponent { state: ErrorState { error_details: None } }
    }

    /// An error line that reports what `state` holds.
    pub fn with_state(state: ErrorState) -> (component: ErrorComponent)
        ensures
            component@ == state.error_details.deep_view(),
    {
        ErrorComponent { state }
    }

    /// Reacts to `action`: no action changes the error line, and it answers
    /// none.
    pub fn update(&mut self, action: &Action) -> (answer: Option<Action>)
        ensures
            final(self)@ == old(self)@,
            answer is None,
    {
        None
    }

    /// What the error line paints in `area`: the error in bold red after
    /// the word ERROR, or nothing where there is no error.
    pub fn draw(&self, area: Rect) -> (painting: Option<ErrorPainting>)
        ensures
            match self@ {
                Some(details) => painting matches Some(p) && p.area == area && p.line.shows(
                    "ERROR: "@ + details,
                    message_style(Color::Red),
                ),
                None => painting is None,
            },
    {
        match &self.state.error_details {
            Some(error_details) => {
                let mut text: String = String::from_str("ERROR: ");
                text.append(error_details.as_str());
                Some(
                    ErrorPainting {
                        area,
                        line: Span::styled(text, Style::new().fg(Color::Red).bold()),
                    },
                )
            },
            None => None,
        }
    }
}

} // verus!
