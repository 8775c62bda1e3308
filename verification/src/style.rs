//! How rows, borders and footers are coloured, as plain values the drawing code maps
//! onto the terminal's styles.
use vstd::prelude::*;

verus! {

/// The colours the interface uses.
#[derive(Clone, Copy, Debug, PartialEq, Eq)]
pub enum Color {
    Black,
    Red,
    Yellow,
    Cyan,
}

/// A text style: foreground and background colour (the terminal's own when `None`)
/// and whether the text is bold.
#[derive(Clone, Copy, Debug, PartialEq, Eq)]
pub struct Style {
    pub fg: Option<Color>,
    pub bg: Option<Color>,
    pub bold: bool,
}

impl Style {
    /// The terminal's own colours, not bold.
    pub fn plain() -> (s: Style)
        ensures
            s == (Style { fg: None, bg: None, bold: false }),
    {
        Style { fg: None, bg: None, bold: false }
    }
}

/// The style of a pane row: a selected row is bold on yellow, red when its file is
/// missing and black otherwise; an unselected row is red when its file is missing,
/// yellow when it has no sources, and plain otherwise.
pub fn item_style(is_selected: bool, file_missing: bool, has_sources: bool) -> (s: Style)
    ensures
        s == if is_selected {
            Style {
                fg: Some(if file_missing { Color::Red } else { Color::Black }),
                bg: Some(Color::Yellow),
                bold: true,
            }
        } else if file_missing {
            Style { fg: Some(Color::Red), bg: None, bold: false }
        } else if !has_sources {
            Style { fg: Some(Color::Yellow), bg: None, bold: false }
        } else {
            Style { fg: None, bg: None, bold: false }
        },
{
    if is_selected {
        if file_missing {
            Style { fg: Some(Color::Red), bg: Some(Color::Yellow), bold: true }
        } else {
            Style { fg: Some(Color::Black), bg: Some(Color::Yellow), bold: true }
        }
    } else if file_missing {
        Style { fg: Some(Color::Red), bg: None, bold: false }
    } else if !has_sources {
        Style { fg: Some(Color::Yellow), bg: None, bold: false }
    } else {
        Style::plain()
    }
}

/// The border of the focused pane is cyan; other borders are plain.
pub fn focused_border_style(is_focused: bool) -> (s: Style)
    ensures
        s == (Style { fg: if is_focused { Some(Color::Cyan) } else { None }, bg: None, bold: false }),
{
    if is_focused {
        Style { fg: Some(Color::Cyan), bg: None, bold: false }
    } else {
        Style::plain()
    }
}

/// The footer text of the focused pane is cyan; other footers are plain.
pub fn focused_text_style(is_focused: bool) -> (s: Style)
    ensures
        s == (Style { fg: if is_focused { Some(Color::Cyan) } else { None }, bg: None, bold: false }),
{
    if is_focused {
        Style { fg: Some(Color::Cyan), bg: None, bold: false }
    } else {
        Style::plain()
    }
}

} // verus!
