use shownotes::style::{focused_border_style, focused_text_style, item_style, Color};

#[test]
fn item_style_selected_missing_file_returns_red_on_yellow_bold() {
    let style = item_style(true, true, true);
    assert_eq!(style.fg, Some(Color::Red));
    assert_eq!(style.bg, Some(Color::Yellow));
    assert!(style.bold);
}

#[test]
fn item_style_selected_normal_file_returns_black_on_yellow_bold() {
    let style = item_style(true, false, true);
    assert_eq!(style.fg, Some(Color::Black));
    assert_eq!(style.bg, Some(Color::Yellow));
    assert!(style.bold);
}

#[test]
fn item_style_unselected_no_sources_returns_yellow() {
    let style = item_style(false, false, false);
    assert_eq!(style.fg, Some(Color::Yellow));
    assert_eq!(style.bg, None);
}

#[test]
fn item_style_unselected_normal_returns_default() {
    let style = item_style(false, false, true);
    assert_eq!(style.fg, None);
    assert_eq!(style.bg, None);
}

#[test]
fn item_style_unselected_missing_file_is_red_even_without_sources() {
    let style = item_style(false, true, false);
    assert_eq!(style.fg, Some(Color::Red));
    assert_eq!(style.bg, None);
    assert!(!style.bold);
}

#[test]
fn focused_border_style_focused_returns_cyan() {
    assert_eq!(focused_border_style(true).fg, Some(Color::Cyan));
}

#[test]
fn focused_border_style_unfocused_returns_default() {
    assert_eq!(focused_border_style(false).fg, None);
}

#[test]
fn focused_text_style_focused_returns_cyan() {
    assert_eq!(focused_text_style(true).fg, Some(Color::Cyan));
}

#[test]
fn focused_text_style_unfocused_returns_default() {
    assert_eq!(focused_text_style(false).fg, None);
}
