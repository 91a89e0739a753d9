//! Pane-level behavior: scroller bounds, command-buffer editing and history,
//! content-pane search, bookmarks, and the persistence format.

use ijqrs::app::{Panel, Signal};
use ijqrs::bookmarks::{parse_bookmarks, render_bookmarks, Bookmarks};
use ijqrs::command::Command;
use ijqrs::content::{Content, PatternMode};
use ijqrs::events::{global_keys, Key};
use ijqrs::help::get_help;
use ijqrs::opts::Flags;
use ijqrs::scroller::Scroller;

#[test]
fn scroller_stays_in_bounds() {
    let mut s = Scroller::new(3);
    assert_eq!(s.get(), 0);
    s.prev();
    assert_eq!(s.get(), 0, "prev at 0 is idempotent");
    s.next();
    s.next();
    s.next();
    assert_eq!(s.get(), 3);
    s.next();
    assert_eq!(s.get(), 3, "next at max is idempotent");
    s.set_position(2);
    assert_eq!(s.get(), 2);
    s.set_position(9);
    assert_eq!(s.get(), 2, "set_position above max is ignored");
    s.set_max(1);
    assert_eq!(s.max(), 1);
    assert_eq!(s.get(), 1, "set_max clamps the position down");
    s.set_max(5);
    assert_eq!(s.get(), 1);
    assert!(s.get() <= s.max());
}

#[test]
fn command_insert_at_tail() {
    let mut c = Command::new(String::from(".|keys"));
    assert_eq!(c.cursor(), 6);
    c.handle_event(Key::Char('!'), false);
    assert_eq!(c.get_content(), ".|keys!");
    assert_eq!(c.cursor(), 7);
}

#[test]
fn command_insert_mid_text_and_backspace_roundtrip() {
    let mut c = Command::new(String::from("ab"));
    c.handle_event(Key::Left, false);
    assert_eq!(c.cursor(), 1);
    c.handle_event(Key::Char('x'), false);
    assert_eq!(c.get_content(), "axb");
    assert_eq!(c.cursor(), 2);
    c.handle_event(Key::Backspace, false);
    assert_eq!(c.get_content(), "ab", "backspace undoes the insert");
    assert_eq!(c.cursor(), 1, "cursor returns to where it was");
    assert!(c.cursor() <= c.get_content().len());
}

#[test]
fn command_backspace_at_start_is_noop() {
    let mut c = Command::new(String::from("ab"));
    c.handle_event(Key::Home, false);
    assert_eq!(c.cursor(), 0);
    c.handle_event(Key::Backspace, false);
    assert_eq!(c.get_content(), "ab");
    assert_eq!(c.cursor(), 0);
}

#[test]
fn command_delete_at_end_is_noop() {
    let mut c = Command::new(String::from("ab"));
    c.handle_event(Key::End, false);
    c.handle_event(Key::Delete, false);
    assert_eq!(c.get_content(), "ab");
    c.handle_event(Key::Home, false);
    c.handle_event(Key::Delete, false);
    assert_eq!(c.get_content(), "b", "delete removes the character at the cursor");
}

#[test]
fn command_history_record_and_scroll() {
    let mut c = Command::new(String::from(".|keys"));
    c.handle_event(Key::Char('!'), false);
    assert_eq!(c.get_content(), ".|keys!");
    assert_eq!(c.cursor(), 7);
    c.record();
    c.scroll_up();
    assert_eq!(c.get_content(), ".|keys", "scroll_up from the tail gives the previous entry");
    c.scroll_down();
    assert_eq!(c.get_content(), ".|keys!");
    c.scroll_down();
    assert_eq!(c.get_content(), ".|keys!", "history scroller saturates at the tail");
}

#[test]
fn command_error_shown_until_next_edit() {
    let mut c = Command::new(String::from("q"));
    c.set_error("boom");
    assert_eq!(c.get_content(), "boom");
    c.handle_event(Key::Char('x'), false);
    assert_eq!(c.get_content(), "qx", "an edit keystroke clears the error");
}

#[test]
fn command_enter_signals_submit() {
    let mut c = Command::new(String::from("q"));
    let sig = c.handle_event(Key::Enter, false);
    assert_eq!(sig, Signal::Run);
    assert_eq!(c.get_content(), "q");
}

#[test]
fn command_replace_resyncs_cursor() {
    let mut c = Command::new(String::from("q"));
    c.replace(String::from("longer"));
    assert_eq!(c.get_content(), "longer");
    assert_eq!(c.cursor(), 6);
    c.clear();
    assert_eq!(c.get_content(), "");
    assert_eq!(c.cursor(), 0);
}

#[test]
fn find_next() {
    let mut p = Content::new(String::from("a\nb\na\n"), Panel::Source);
    assert_eq!(p.get_pos(), 0);
    p.handle_event(Key::Char('/'), false);
    assert!(matches!(p.mode, PatternMode::Entering));
    p.handle_event(Key::Char('a'), false);
    assert_eq!(p.pattern(), "a");
    p.handle_event(Key::Enter, false);
    assert!(matches!(p.mode, PatternMode::Active));
    assert_eq!(p.get_pos(), 2, "the match strictly after line 0 is line 2, not line 0");
    assert_eq!(p.highlight, 2);
}

#[test]
fn find_next_without_later_match_stays_put() {
    let mut p = Content::new(String::from("a\nb\na\n"), Panel::Source);
    p.handle_event(Key::Char('/'), false);
    p.handle_event(Key::Char('a'), false);
    p.handle_event(Key::Enter, false);
    assert_eq!(p.get_pos(), 2);
    p.handle_event(Key::Char('n'), false);
    assert_eq!(p.get_pos(), 2, "no wraparound: position is unchanged");
}

#[test]
fn find_prev_scans_backwards_without_wrapping() {
    let mut p = Content::new(String::from("a\nb\na\n"), Panel::Source);
    p.handle_event(Key::Char('/'), false);
    p.handle_event(Key::Char('a'), false);
    p.handle_event(Key::Enter, false);
    assert_eq!(p.get_pos(), 2);
    p.handle_event(Key::Char('N'), false);
    assert_eq!(p.get_pos(), 0, "the match strictly before line 2 is line 0");
    p.handle_event(Key::Char('N'), false);
    assert_eq!(p.get_pos(), 0, "no earlier match: position is unchanged");
}

#[test]
fn search_pattern_editing_and_cancel() {
    let mut p = Content::new(String::from("nan\nx\n"), Panel::Output);
    p.handle_event(Key::Char('/'), false);
    p.handle_event(Key::Char('n'), false);
    p.handle_event(Key::Char('N'), false);
    p.handle_event(Key::Char('l'), false);
    assert_eq!(p.pattern(), "nNl", "n, N and l are literal characters while entering");
    p.handle_event(Key::Backspace, false);
    p.handle_event(Key::Backspace, false);
    assert_eq!(p.pattern(), "n");
    p.handle_event(Key::Esc, false);
    assert!(matches!(p.mode, PatternMode::Inactive));
    assert_eq!(p.pattern(), "");
}

#[test]
fn ctrl_l_clears_an_active_search() {
    let mut p = Content::new(String::from("a\na\n"), Panel::Source);
    p.handle_event(Key::Char('/'), false);
    p.handle_event(Key::Char('a'), false);
    p.handle_event(Key::Enter, false);
    assert_eq!(p.get_pos(), 1);
    p.handle_event(Key::Char('l'), true);
    assert!(matches!(p.mode, PatternMode::Inactive));
    assert_eq!(p.pattern(), "");
    assert_eq!(p.highlight, 0);
    assert_eq!(p.get_pos(), 1, "the scroll position stays where the search left it");
}

#[test]
fn content_scrolls_within_line_count() {
    let mut p = Content::new(String::from("x\ny\n"), Panel::Source);
    assert_eq!(p.get_content(), "x\ny\n");
    p.scroll_up();
    assert_eq!(p.get_pos(), 0);
    p.scroll_down();
    p.scroll_down();
    p.scroll_down();
    p.scroll_down();
    assert_eq!(p.get_pos(), 3, "three newlines make a bound of three");
}

#[test]
fn bookmarks_add_is_duplicate_free() {
    let mut b = Bookmarks::new();
    b.add(".|keys");
    assert_eq!(b.items().len(), 1);
    b.add(".|keys");
    assert_eq!(b.items().len(), 1, "adding the same value twice changes nothing");
    b.add(".x");
    assert_eq!(b.items().len(), 2);
    assert_eq!(b.items()[0], ".|keys");
    assert_eq!(b.items()[1], ".x");
}

#[test]
fn bookmarks_delete_on_empty_list_returns_false() {
    let mut b = Bookmarks::new();
    assert!(!b.del_current_item());
    assert_eq!(b.items().len(), 0);
    assert_eq!(b.get_current_item(), "");
}

#[test]
fn bookmarks_delete_and_select() {
    let mut b = Bookmarks::new();
    b.add("one");
    b.add("two");
    b.add("three");
    b.scroll_down();
    assert_eq!(b.get_current_item(), "two");
    assert!(b.del_current_item());
    assert_eq!(b.items().len(), 2);
    assert_eq!(b.get_current_item(), "three");
    let sig = b.handle_event(Key::Enter, false);
    assert_eq!(sig, Signal::LoadBookmark(String::from("three")));
    b.handle_event(Key::Delete, false);
    b.handle_event(Key::Char('d'), true);
    assert_eq!(b.items().len(), 0);
}

#[test]
fn bookmark_file_round_trip() {
    let items = vec![String::from(".|keys"), String::from(".a[0]"), String::from(".x | .y")];
    let text = render_bookmarks(&items);
    assert_eq!(text, ".|keys\n.a[0]\n.x | .y\n");
    let back = parse_bookmarks(&text);
    assert_eq!(back, items, "saved then reloaded lists are equal, in order");
}

#[test]
fn bookmark_parse_discards_empty_lines() {
    let back = parse_bookmarks("a\n\nb\n\n\n");
    assert_eq!(back, vec![String::from("a"), String::from("b")]);
    assert_eq!(parse_bookmarks(""), Vec::<String>::new());
}

#[test]
fn help_has_the_four_sections() {
    let h = get_help();
    assert_eq!(h.len(), 4);
    assert_eq!(h[0].0, "Usage");
    assert_eq!(h[1].0, "Shortcuts");
    assert_eq!(h[2].0, "Bookmarks");
    assert_eq!(h[3].0, "Commands");
    assert_eq!(h[1].1.len(), 9);
}

#[test]
fn global_keys_lists_the_shortcuts() {
    let g = global_keys();
    assert_eq!(g.len(), 4);
    assert_eq!(g[0], ("Ctrl+q", "Quit"));
}

#[test]
fn flags_classify_arguments() {
    let none = vec![String::from("ijqrs")];
    assert!(matches!(Flags::from_args(&none), Flags::Stdin));
    let help = vec![String::from("ijqrs"), String::from("--help")];
    assert!(matches!(Flags::from_args(&help), Flags::Help));
    let ver = vec![String::from("ijqrs"), String::from("-v")];
    assert!(matches!(Flags::from_args(&ver), Flags::Version));
    let file = vec![String::from("ijqrs"), String::from("data.json")];
    match Flags::from_args(&file) {
        Flags::Filename(f) => assert_eq!(f, "data.json"),
        _ => panic!("a free argument names the document file"),
    }
}

#[test]
fn command_cursor_counts_characters_not_bytes() {
    let mut c = Command::new(String::from("héllo"));
    assert_eq!(c.cursor(), 5);
    c.handle_event(Key::Backspace, false);
    assert_eq!(c.get_content(), "héll");
    c.handle_event(Key::Home, false);
    c.handle_event(Key::Right, false);
    c.handle_event(Key::Right, false);
    c.handle_event(Key::Char('x'), false);
    assert_eq!(c.get_content(), "héxll");
    assert_eq!(c.cursor(), 3);
}

#[test]
fn search_matches_multibyte_patterns() {
    let mut p = Content::new(String::from("x\nnaïve\ny\n"), Panel::Source);
    p.handle_event(Key::Char('/'), false);
    p.handle_event(Key::Char('ï'), false);
    p.handle_event(Key::Enter, false);
    assert_eq!(p.get_pos(), 1);
    assert_eq!(p.highlight, 1);
}

#[test]
fn bookmarks_listing_is_tab_indented_lines() {
    let mut b = Bookmarks::new();
    b.add(".a");
    b.add(".b");
    assert_eq!(b.get_content(), "\t.a\n\t.b\n");
    assert_eq!(Bookmarks::new().get_content(), "");
}
