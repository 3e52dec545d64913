//! How text and borders look, as plain values that a painter turns into
//! widgets.

use vstd::prelude::*;
use vstd::string::StringExecFns;

verus! {

/// The colours in use.
#[derive(Debug, Clone, Copy, PartialEq, Eq, Structural)]
pub enum Color {
    Black,
    Red,
    Green,
    Yellow,
    Blue,
    White,
    LightRed,
    LightBlue,
    LightMagenta,
    LightYellow,
}

/// The look of a piece of text or of a border: its colours, if it sets any,
/// and whether it is bold or italic.
#[derive(Debug, Clone, Copy, PartialEq, Eq, Structural)]
pub struct Style {
    pub fg: Option<Color>,
    pub bg: Option<Color>,
    pub bold: bool,
    pub italic: bool,
}

/// Where a line stands in its region.
#[derive(Debug, Clone, Copy, PartialEq, Eq, Structural)]
pub enum Alignment {
    Left,
    Center,
    Right,
}

/// The kind of border around a block.
#[derive(Debug, Clone, Copy, PartialEq, Eq, Structural)]
pub enum BorderType {
    Plain,
    Thick,
}

/// A block with a border on all sides.
#[derive(Debug, Clone, Copy, PartialEq, Eq, Structural)]
pub struct Block {
    pub border_type: BorderType,
    pub border_style: Style,
}

/// A piece of text in one style.
#[derive(Debug)]
pub struct Span {
    pub content: String,
    pub style: Style,
}

/// The dot that separates the parts of a line.
pub open spec fn dot_text() -> Seq<char> {
    seq!['\u{2022}']
}

/// The constant `ratatui::symbols::DOT`. The contract claims that it is the
/// one character U+2022.
#[verifier::external_body]
fn dot_symbol() -> (symbol: &'static str)
    ensures
        symbol@ == dot_text(),
{
    ratatui::symbols::DOT
}

/// Appends the separator dot to `line`.
pub fn push_dot(line: &mut String)
    ensures
        final(line)@ == old(line)@ + dot_text(),
{
    line.append(dot_symbol());
}

impl Style {
    /// The style that sets nothing.
    pub open spec fn plain() -> Style {
        Style { fg: None, bg: None, bold: false, italic: false }
    }

    /// The style that sets nothing.
    pub fn new() -> (style: Style)
        ensures
            style == Style::plain(),
    {
        Style { fg: None, bg: None, bold: false, italic: false }
    }

    /// This style with the text in `color`.
    pub fn fg(self, color: Color) -> (style: Style)
        ensures
            style == (Style { fg: Some(color), ..self }),
    {
        Style { fg: Some(color), bg: self.bg, bold: self.bold, italic: self.italic }
    }

    /// This style on a background of `color`.
    pub fn bg(self, color: Color) -> (style: Style)
        ensures
            style == (Style { bg: Some(color), ..self }),
    {
        Style { fg: self.fg, bg: Some(color), bold: self.bold, italic: self.italic }
    }

    /// This style in bold.
    pub fn bold(self) -> (style: Style)
        ensures
            style == (Style { bold: true, ..self }),
    {
        Style { fg: self.fg, bg: self.bg, bold: true, italic: self.italic }
    }

    /// This style in italics.
    pub fn italic(self) -> (style: Style)
        ensures
            style == (Style { italic: true, ..self }),
    {
        Style { fg: self.fg, bg: self.bg, bold: self.bold, italic: true }
    }
}

impl Span {
    /// `content` in `style`.
    pub fn styled(content: String, style: Style) -> (span: Span)
        ensures
            span.content@ == content@,
            span.style == style,
    {
        Span { content, style }
    }

    /// `content` in the style that sets nothing.
    pub fn raw(content: String) -> (span: Span)
        ensures
            span.content@ == content@,
            span.style == Style::plain(),
    {
        Span { content, style: Style::new() }
    }

    /// Whether the span shows `content` in `style`.
    pub open spec fn shows(self, content: Seq<char>, style: Style) -> bool {
        self.content@ == content && self.style == style
    }
}

} // verus!
