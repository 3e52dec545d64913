//! The line at the bottom: the keys and what they do.

use vstd::prelude::*;
use vstd::string::StringExecFns;
use crate::components::utils::{placed, prepare_layout, Element};
use crate::layout::Rect;
use crate::state::State;
use crate::style::{dot_text, push_dot, Color, Span, Style};

verus! {

/// The footer. It holds nothing of its own.
#[derive(Debug)]
pub struct FooterComponent {}

/// What the footer paints: one line of spans in its region.
#[derive(Debug)]
pub struct FooterView {
    pub area: Rect,
    pub spans: Vec<Span>,
}

/// A hint followed by the separator dot.
pub open spec fn hint(words: Seq<char>) -> Seq<char> {
    words + dot_text() + " "@
}

/// The style of text in `color`.
pub open spec fn colored(color: Color) -> Style {
    Style { fg: Some(color), ..Style::plain() }
}

impl FooterView {
    /// Whether this is what the footer paints on a screen of `area`.
    pub open spec fn paints(self, area: Rect) -> bool {
        &&& placed(area, Element::Footer, self.area)
        &&& self.spans@.len() == 6
        &&& self.spans@[0].shows("[ "@, colored(Color::White))
        &&& self.spans@[1].shows(hint("h/l - left/right pane "@), colored(Color::Blue))
        &&& self.spans@[2].shows(hint("j/k - next/prev item "@), colored(Color::Blue))
        &&& self.spans@[3].shows(hint("p - focus project selector "@), colored(Color::Blue))
        &&& self.spans@[4].shows("q - quit"@, colored(Color::Red))
        &&& self.spans@[5].shows(" ]"@, colored(Color::White))
    }
}

fn hint_span(words: &str) -> (span: Span)
    ensures
        span.shows(hint(words@), colored(Color::Blue)),
{
    let mut text: String = String::from_str(words);
    push_dot(&mut text);
    text.append(" ");
    Span::styled(text, Style::new().fg(Color::Blue))
}

impl FooterComponent {
    /// A footer.
    pub fn new() -> (footer: FooterComponent) {
        FooterComponent {  }
    }

    /// What the footer paints on a screen of `area`.
    pub fn draw(&self, area: Rect, _state: &State) -> (view: FooterView)
        ensures
            view.paints(area),
    {
        let region: Rect = prepare_layout(area, Element::Footer);
        let mut spans: Vec<Span> = Vec::new();
        spans.push(Span::styled(String::from_str("[ "), Style::new().fg(Color::White)));
        spans.push(hint_span("h/l - left/right pane "));
        spans.push(hint_span("j/k - next/prev item "));
        spans.push(hint_span("p - focus project selector "));
        spans.push(Span::styled(String::from_str("q - quit"), Style::new().fg(Color::Red)));
        spans.push(Span::styled(String::from_str(" ]"), Style::new().fg(Color::White)));
        FooterView { area: region, spans }
    }
}

} // verus!
