use youtube_chapter_splitter::tui::components::box_chars::{BorderKind, BorderStyle, BoxChars};
use youtube_chapter_splitter::tui::components::input::{TextArea, TextInput};
use youtube_chapter_splitter::tui::components::list::{KeyValueList, SelectableList};
use youtube_chapter_splitter::tui::components::modal::{Modal, ModalState, ModalType};
use youtube_chapter_splitter::tui::components::progress::ProgressBar;
use youtube_chapter_splitter::tui::components::spinner::{Spinner, SpinnerStyle};
use youtube_chapter_splitter::tui::components::style::{
    AccessibleStyle, Color, ColorMode, Symbols,
};
use youtube_chapter_splitter::tui::keys::{KeyCode, KeyEvent};

#[test]
fn test_box_chars_unicode() {
    let chars = BoxChars::new(true);
    assert_eq!(chars.top_left(), '┌');
    assert_eq!(chars.top_right(), '┐');
    assert_eq!(chars.bottom_left(), '└');
    assert_eq!(chars.bottom_right(), '┘');
    assert_eq!(chars.horizontal(), '─');
    assert_eq!(chars.vertical(), '│');
}

#[test]
fn test_box_chars_ascii() {
    let chars = BoxChars::new(false);
    assert_eq!(chars.top_left(), '+');
    assert_eq!(chars.top_right(), '+');
    assert_eq!(chars.bottom_left(), '+');
    assert_eq!(chars.bottom_right(), '+');
    assert_eq!(chars.horizontal(), '-');
    assert_eq!(chars.vertical(), '|');
}

#[test]
fn test_box_chars_double() {
    let chars = BoxChars::new(true);
    assert_eq!(chars.double_top_left(), '╔');
    assert_eq!(chars.double_top_right(), '╗');
    assert_eq!(chars.double_bottom_left(), '╚');
    assert_eq!(chars.double_bottom_right(), '╝');
    assert_eq!(chars.double_horizontal(), '═');
    assert_eq!(chars.double_vertical(), '║');
}

#[test]
fn test_box_chars_h_line() {
    let chars = BoxChars::new(true);
    assert_eq!(chars.h_line(5), "─────");
}

#[test]
fn test_border_style_to_border_type() {
    assert_eq!(BorderStyle::Single.to_border_type(), BorderKind::Plain);
    assert_eq!(BorderStyle::Double.to_border_type(), BorderKind::Double);
    assert_eq!(BorderStyle::Rounded.to_border_type(), BorderKind::Rounded);
}

#[test]
fn frame_with_title_centres_the_title() {
    let chars = BoxChars::new(false);
    assert_eq!(chars.frame_with_title(10, Some("ab")), "+---ab---+\n|\n+--------+");
    assert_eq!(chars.frame_with_title(8, Some("ab")), "+--ab--+\n|\n+------+");
    assert_eq!(chars.frame_with_title(4, None), "+--+\n|\n+--+");
    assert_eq!(chars.separator(7), "+--+---");
}

#[test]
fn test_text_input_default() {
    let input = TextInput::new();
    assert!(input.is_empty());
    assert_eq!(input.cursor, 0);
}

#[test]
fn test_text_input_builder() {
    let input = TextInput::new()
        .with_value("test")
        .with_placeholder("Enter text")
        .with_focused(true);
    assert_eq!(input.value, "test");
    assert_eq!(input.cursor, 4);
    assert!(input.focused);
}

#[test]
fn test_text_input_clear() {
    let mut input = TextInput::new().with_value("test");
    input.clear();
    assert!(input.is_empty());
    assert_eq!(input.cursor, 0);
}

#[test]
fn text_input_edits_at_the_cursor() {
    let mut input = TextInput::new().with_value("hé");
    assert_eq!(input.cursor, 3);
    assert!(input.handle_key_event(KeyEvent::new(KeyCode::Left)));
    assert_eq!(input.cursor, 1);
    assert!(input.handle_key_event(KeyEvent::new(KeyCode::Char('x'))));
    assert_eq!(input.value, "hxé");
    assert_eq!(input.cursor, 2);
    assert!(input.handle_key_event(KeyEvent::new(KeyCode::Delete)));
    assert_eq!(input.value, "hx");
    assert!(input.handle_key_event(KeyEvent::new(KeyCode::Backspace)));
    assert_eq!(input.value, "h");
    assert_eq!(input.cursor, 1);
    assert!(input.handle_key_event(KeyEvent::new(KeyCode::Home)));
    assert_eq!(input.cursor, 0);
    assert!(!input.handle_key_event(KeyEvent::new(KeyCode::Enter)));
}

#[test]
fn text_input_respects_max_length() {
    let mut input = TextInput::new().with_value("ab").with_max_length(2);
    assert!(input.handle_key_event(KeyEvent::new(KeyCode::Char('c'))));
    assert_eq!(input.value, "ab");
}

#[test]
fn text_area_round_trips_lines() {
    let mut area = TextArea::new();
    area.set_text("one\r\ntwo\n");
    assert_eq!(area.lines, vec!["one", "two"]);
    assert_eq!(area.text(), "one\ntwo");
    assert_eq!(area.cursor_line, 1);
    assert_eq!(area.cursor_col, 3);
    area.clear();
    assert_eq!(area.text(), "");
}

#[test]
fn test_selectable_list_new() {
    let list = SelectableList::new();
    assert!(list.is_empty());
    assert_eq!(list.selected(), None);
}

#[test]
fn test_selectable_list_with_items() {
    let list = SelectableList::new().with_items(vec![
        "Item 1".to_string(),
        "Item 2".to_string(),
        "Item 3".to_string(),
    ]);
    assert_eq!(list.len(), 3);
    assert_eq!(list.selected, Some(0));
}

#[test]
fn test_selectable_list_navigation() {
    let mut list = SelectableList::new().with_items(vec![
        "Item 1".to_string(),
        "Item 2".to_string(),
        "Item 3".to_string(),
    ]);
    assert!(list.select_next());
    assert_eq!(list.selected(), Some(1));
    assert!(list.select_next());
    assert_eq!(list.selected(), Some(2));
    assert!(!list.select_next());
    assert_eq!(list.selected(), Some(2));
    assert!(list.select_previous());
    assert_eq!(list.selected(), Some(1));
    assert!(list.select_previous());
    assert_eq!(list.selected(), Some(0));
    assert!(!list.select_previous());
    assert_eq!(list.selected(), Some(0));
}

#[test]
fn test_key_value_list() {
    let list = KeyValueList::new().with_items(vec![
        ("Key 1".to_string(), "Value 1".to_string()),
        ("Key 2".to_string(), "Value 2".to_string()),
    ]);
    assert_eq!(list.len(), 2);
    assert_eq!(list.selected, Some(0));
}

#[test]
fn list_scrolls_to_keep_selection_visible() {
    let mut list = SelectableList::new().items_from(&["a", "b", "c", "d", "e"]);
    list.select_last();
    list.scroll_into_view(5);
    assert_eq!(list.offset, 2);
    list.select_first();
    list.scroll_into_view(5);
    assert_eq!(list.offset, 0);
}

#[test]
fn test_modal_new() {
    let modal = Modal::new("Title", "Message");
    assert_eq!(modal.title, "Title");
    assert_eq!(modal.message, "Message");
    assert_eq!(modal.buttons, vec!["OK"]);
}

#[test]
fn test_modal_confirm() {
    let modal = Modal::confirm("Confirm", "Are you sure?");
    assert_eq!(modal.modal_type, ModalType::Confirm);
    assert_eq!(modal.buttons, vec!["Yes", "No"]);
    assert!(modal.is_waiting());
}

#[test]
fn test_modal_confirm_yes() {
    let mut modal = Modal::confirm("Confirm", "Are you sure?");
    modal.handle_key(KeyEvent::new(KeyCode::Char('y')));
    assert_eq!(modal.state, ModalState::Confirmed);
}

#[test]
fn test_modal_confirm_no() {
    let mut modal = Modal::confirm("Confirm", "Are you sure?");
    modal.handle_key(KeyEvent::new(KeyCode::Char('n')));
    assert_eq!(modal.state, ModalState::Cancelled);
}

#[test]
fn test_modal_cancel() {
    let mut modal = Modal::confirm("Confirm", "Are you sure?");
    modal.handle_key(KeyEvent::new(KeyCode::Esc));
    assert_eq!(modal.state, ModalState::Cancelled);
}

#[test]
fn modal_buttons_move_and_answer() {
    let mut modal = Modal::confirm("Confirm", "Are you sure?");
    assert!(!modal.handle_key(KeyEvent::new(KeyCode::Right)));
    assert_eq!(modal.selected_button, 1);
    assert!(!modal.handle_key(KeyEvent::new(KeyCode::Right)));
    assert_eq!(modal.selected_button, 1);
    assert!(modal.handle_key(KeyEvent::new(KeyCode::Enter)));
    assert_eq!(modal.state, ModalState::Cancelled);
    let mut info = Modal::info("Info", "Hello");
    assert!(!info.handle_key(KeyEvent::new(KeyCode::Char('y'))));
    assert!(info.is_waiting());
}

#[test]
fn test_progress_bar_default() {
    let bar = ProgressBar::new();
    assert_eq!(bar.progress, 0);
    assert_eq!(bar.total, 100);
    assert_eq!(bar.percent(), 0);
}

#[test]
fn test_progress_bar_percent() {
    let bar = ProgressBar::new().with_progress(50).with_total(100);
    assert_eq!(bar.percent(), 50);
}

#[test]
fn test_progress_bar_inc() {
    let mut bar = ProgressBar::new().with_total(200);
    bar.inc(50);
    assert_eq!(bar.progress, 50);
    assert_eq!(bar.percent(), 25);
    bar.inc(150);
    assert_eq!(bar.progress, 200);
    assert!(bar.is_complete());
}

#[test]
fn test_progress_bar_complete() {
    let bar = ProgressBar::new().with_progress(100);
    assert!(bar.is_complete());
}

#[test]
fn progress_bar_text() {
    let bar = ProgressBar::new().with_progress(50).with_message("half").with_detailed(true);
    assert_eq!(bar.render_text(4), "██░░ 50% - half");
    let empty = ProgressBar::new().with_total(0);
    assert_eq!(empty.percent(), 0);
}

#[test]
fn test_spinner_new() {
    let spinner = Spinner::new();
    assert_eq!(spinner.current(), "⏳");
}

#[test]
fn test_spinner_tick() {
    let mut spinner = Spinner::new();
    spinner.tick();
    assert_eq!(spinner.current(), "│");
    for _ in 0..10 {
        spinner.tick();
    }
    assert!(spinner.current() == "⏳" || spinner.current() == "│");
}

#[test]
fn test_spinner_dots() {
    let spinner = Spinner::with_style(SpinnerStyle::Dots);
    assert_eq!(spinner.current(), "⣾");
    assert_eq!(spinner.frames.len(), 8);
}

#[test]
fn test_color_mode_detect() {
    let mode = ColorMode::detect(false, Some("xterm-256color"), None);
    match mode {
        ColorMode::Color => {}
        ColorMode::Monochrome => {}
    }
    assert_eq!(mode, ColorMode::Color);
    assert_eq!(ColorMode::detect(true, Some("xterm"), Some("truecolor")), ColorMode::Monochrome);
    assert_eq!(ColorMode::detect(false, Some("dumb"), Some("0")), ColorMode::Monochrome);
    assert_eq!(ColorMode::detect(false, None, Some("truecolor")), ColorMode::Color);
}

#[test]
fn test_accessible_style_new() {
    let style = AccessibleStyle::new(ColorMode::Monochrome);
    assert_eq!(style.primary_color(), Color::Gray);
    assert!(style.error_style().underlined);
    let colored = style.with_color_mode(ColorMode::Color);
    assert_eq!(colored.primary_color(), Color::Cyan);
    assert!(colored.success_style().italic);
}

#[test]
fn test_symbols() {
    assert_eq!(Symbols::check(), "✓");
    assert_eq!(Symbols::cross(), "✗");
    assert_eq!(Symbols::warning(), "⚠");
    assert_eq!(Symbols::pointer(), "►");
}

#[test]
fn text_area_edits_lines() {
    let mut area = TextArea::new();
    for c in "ab".chars() {
        assert!(area.handle_key_event(KeyEvent::new(KeyCode::Char(c))));
    }
    assert!(area.handle_key_event(KeyEvent::new(KeyCode::Enter)));
    area.handle_key_event(KeyEvent::new(KeyCode::Char('c')));
    assert_eq!(area.text(), "ab\nc");
    assert_eq!((area.cursor_line, area.cursor_col), (1, 1));
    // Up keeps the column within the shorter or longer line.
    area.handle_key_event(KeyEvent::new(KeyCode::Up));
    assert_eq!((area.cursor_line, area.cursor_col), (0, 1));
    // Splitting in the middle of a line.
    area.handle_key_event(KeyEvent::new(KeyCode::Char('\n')));
    assert_eq!(area.text(), "a\nb\nc");
    // Backspace at the start of a line joins it to the previous one.
    area.handle_key_event(KeyEvent::new(KeyCode::Backspace));
    assert_eq!(area.text(), "ab\nc");
    assert_eq!((area.cursor_line, area.cursor_col), (0, 1));
    // Backspace inside a line removes the character before the cursor when
    // it is the last one of the line.
    area.handle_key_event(KeyEvent::new(KeyCode::Right));
    area.handle_key_event(KeyEvent::new(KeyCode::Backspace));
    assert_eq!(area.text(), "a\nc");
    assert_eq!(area.cursor_col, 1);
    area.handle_key_event(KeyEvent::new(KeyCode::Down));
    assert_eq!((area.cursor_line, area.cursor_col), (1, 1));
    area.handle_key_event(KeyEvent::new(KeyCode::Left));
    assert_eq!(area.cursor_col, 0);
    assert!(!area.handle_key_event(KeyEvent::new(KeyCode::Tab)));
}

#[test]
fn spinner_after_k_ticks_shows_frame_k_modulo_the_frame_count() {
    for style in [SpinnerStyle::Vertical, SpinnerStyle::Dots, SpinnerStyle::Arrow, SpinnerStyle::Box] {
        let mut spinner = Spinner::with_style(style);
        let n = spinner.frames.len();
        for k in 1..=25usize {
            let shown = spinner.tick().to_string();
            assert_eq!(spinner.current, k % n);
            assert_eq!(shown, spinner.frames[k % n]);
        }
    }
    let mut spinner = Spinner::new();
    for _ in 0..11 {
        spinner.tick();
    }
    assert_eq!(spinner.current(), "│");
}

#[test]
fn enter_then_backspace_restores_the_text_area() {
    let mut area = TextArea::new();
    area.set_text("héllo\nworld");
    for (line, col) in [(0usize, 0usize), (0, 1), (0, 3), (0, 6), (1, 2), (1, 5)] {
        area.cursor_line = line;
        area.cursor_col = col;
        let before = area.lines.clone();
        assert!(area.handle_key_event(KeyEvent::new(KeyCode::Enter)));
        assert_eq!(area.lines.len(), before.len() + 1);
        assert!(area.handle_key_event(KeyEvent::new(KeyCode::Backspace)));
        assert_eq!(area.lines, before);
        assert_eq!((area.cursor_line, area.cursor_col), (line, col));
    }
}

#[test]
fn set_text_then_text_gives_the_text_back() {
    for text in ["", "a", "a\n\nb", "\nx", "one\ntwo\nthree", "ünï\ncödé"] {
        let mut area = TextArea::new();
        area.set_text(text);
        assert_eq!(area.text(), text);
        let last = area.lines.len() - 1;
        assert_eq!(area.cursor_line, last);
        assert_eq!(area.cursor_col, area.lines[last].len());
    }
    let mut area = TextArea::new();
    area.set_text("a\n\nb");
    assert_eq!(area.lines, vec!["a", "", "b"]);
    assert_eq!((area.cursor_line, area.cursor_col), (2, 1));
}
