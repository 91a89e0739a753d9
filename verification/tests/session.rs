//! Session-level behavior: the focus/mode router and the internal command
//! grammar, exercised the way the host loop drives them.

use ijqrs::actions::run_internal;
use ijqrs::app::{Mode, Panel, Signal, State};
use ijqrs::events::{handle_key_event, Key};
use ijqrs::instructions::Effect;

fn fresh() -> State {
    State::new("data.json", "{\"a\": 1}\n")
}

#[test]
fn enter_in_shell_mode_signals_run() {
    let mut state = fresh();
    assert!(matches!(state.mode(), Mode::Shell));
    let sig = handle_key_event(Key::Enter, false, &mut state);
    assert_eq!(sig, Signal::Run, "Enter on the command line asks the host to run");
    // The host then invokes the engine with the query text and the source
    // path, and hands the result back:
    match state.run_current_command() {
        Some(Effect::Rerun) => {}
        _ => panic!("Shell mode submission means: run the query"),
    }
    assert_eq!(state.jq().get_content(), ".|keys");
    assert_eq!(state.filename, "data.json");
    state.run_shell_command(String::from("[\"a\"]"));
    assert_eq!(state.output.get_content(), "[\"a\"]");
}

#[test]
fn typing_edits_the_focused_command_line() {
    let mut state = fresh();
    handle_key_event(Key::Char('!'), false, &mut state);
    assert_eq!(state.jq().get_content(), ".|keys!");
    handle_key_event(Key::Backspace, false, &mut state);
    assert_eq!(state.jq().get_content(), ".|keys");
}

#[test]
fn ctrl_q_quits_unconditionally() {
    let mut state = fresh();
    assert_eq!(handle_key_event(Key::Char('q'), true, &mut state), Signal::Quit);
    handle_key_event(Key::Char('?'), false, &mut state);
    assert_eq!(handle_key_event(Key::Char('q'), true, &mut state), Signal::Quit);
}

#[test]
fn ctrl_w_cycles_the_panels() {
    let mut state = fresh();
    assert_eq!(state.get_active(), Panel::Command);
    handle_key_event(Key::Char('w'), true, &mut state);
    assert_eq!(state.get_active(), Panel::Source);
    handle_key_event(Key::Char('w'), true, &mut state);
    assert_eq!(state.get_active(), Panel::Output);
    handle_key_event(Key::Char('w'), true, &mut state);
    assert_eq!(state.get_active(), Panel::Command);
}

#[test]
fn esc_toggles_shell_and_internal_and_refocuses() {
    let mut state = fresh();
    handle_key_event(Key::Char('w'), true, &mut state);
    assert_eq!(state.get_active(), Panel::Source);
    handle_key_event(Key::Esc, false, &mut state);
    assert!(matches!(state.mode(), Mode::Internal));
    assert_eq!(state.get_active(), Panel::Command);
    handle_key_event(Key::Esc, false, &mut state);
    assert!(matches!(state.mode(), Mode::Shell));
}

#[test]
fn question_mark_opens_help_and_esc_leaves_it() {
    let mut state = fresh();
    handle_key_event(Key::Char('?'), false, &mut state);
    assert!(matches!(state.mode(), Mode::Help));
    assert_eq!(state.get_active(), Panel::Help);
    // In the Help overlay other keys do nothing.
    handle_key_event(Key::Char('x'), false, &mut state);
    assert_eq!(state.jq().get_content(), ".|keys");
    handle_key_event(Key::Esc, false, &mut state);
    assert!(matches!(state.mode(), Mode::Shell));
}

#[test]
fn ctrl_s_toggles_bookmarks_and_signals_an_add() {
    let mut state = fresh();
    let sig = handle_key_event(Key::Char('s'), true, &mut state);
    assert_eq!(sig, Signal::AddBookmark);
    assert!(matches!(state.mode(), Mode::Bookmarks));
    // The host acts on the signal:
    state.add_bookmark();
    assert_eq!(state.bookmarks.items().len(), 1);
    assert_eq!(state.bookmarks.items()[0], ".|keys");
    // Enter in the overlay asks to load the selected entry.
    let sig = handle_key_event(Key::Enter, false, &mut state);
    assert_eq!(sig, Signal::LoadBookmark(String::from(".|keys")));
    state.load_bookmark(String::from(".|keys"));
    assert!(matches!(state.mode(), Mode::Shell));
    assert_eq!(state.jq().get_content(), ".|keys");
    // Ctrl+s toggles the overlay: in again, then out.
    handle_key_event(Key::Char('s'), true, &mut state);
    assert!(matches!(state.mode(), Mode::Bookmarks));
    let sig = handle_key_event(Key::Char('s'), true, &mut state);
    assert_eq!(sig, Signal::AddBookmark);
    assert!(matches!(state.mode(), Mode::Shell));
}

#[test]
fn up_and_down_scroll_the_active_pane() {
    let mut state = fresh();
    handle_key_event(Key::Char('w'), true, &mut state);
    assert_eq!(state.get_active(), Panel::Source);
    handle_key_event(Key::Down, false, &mut state);
    assert_eq!(state.source.get_pos(), 1);
    handle_key_event(Key::Up, false, &mut state);
    assert_eq!(state.source.get_pos(), 0);
}

#[test]
fn internal_write_with_explicit_filename() {
    let mut state = fresh();
    state.run_shell_command(String::from("[1,2,3]"));
    match run_internal("w out.json", &state) {
        Ok(Effect::Write { filename, content }) => {
            assert_eq!(filename, "out.json");
            assert_eq!(content, "[1,2,3]");
        }
        _ => panic!("`w out.json` writes the output pane to out.json"),
    }
}

#[test]
fn internal_write_default_filenames() {
    let mut state = fresh();
    state.run_shell_command(String::from("[1,2,3]"));
    match run_internal("w", &state) {
        Ok(Effect::Write { filename, content }) => {
            assert_eq!(filename, "ijqrs.out");
            assert_eq!(content, "[1,2,3]");
        }
        _ => panic!("`w` without a name uses the default output file"),
    }
    match run_internal("wo", &state) {
        Ok(Effect::Write { filename, .. }) => assert_eq!(filename, "ijqrs.out"),
        _ => panic!("`wo` is an alias of `w`"),
    }
    match run_internal("wc", &state) {
        Ok(Effect::Write { filename, content }) => {
            assert_eq!(filename, "ijqrs.cmd");
            assert_eq!(content, ".|keys");
        }
        _ => panic!("`wc` writes the query text to the default command file"),
    }
}

#[test]
fn internal_rerun_and_unknown() {
    let state = fresh();
    assert!(matches!(run_internal("r", &state), Ok(Effect::Rerun)));
    match run_internal("frobnicate now", &state) {
        Err(msg) => assert_eq!(msg, "Unknown command: frobnicate now"),
        _ => panic!("an unrecognized command is reported back"),
    }
}

#[test]
fn internal_submission_records_clears_and_reports_errors() {
    let mut state = fresh();
    handle_key_event(Key::Esc, false, &mut state);
    assert!(matches!(state.mode(), Mode::Internal));
    for c in "zz".chars() {
        handle_key_event(Key::Char(c), false, &mut state);
    }
    assert_eq!(state.command().get_content(), "zz");
    let sig = handle_key_event(Key::Enter, false, &mut state);
    assert_eq!(sig, Signal::Run);
    let eff = state.run_current_command();
    assert!(eff.is_none());
    assert_eq!(
        state.command().get_content(),
        "Unknown command: zz",
        "the failure is shown in place of the internal line"
    );
    handle_key_event(Key::Char('r'), false, &mut state);
    assert_eq!(state.command().get_content(), "r", "the next edit clears the error");
    let sig = handle_key_event(Key::Enter, false, &mut state);
    assert_eq!(sig, Signal::Run);
    match state.run_current_command() {
        Some(Effect::Rerun) => {}
        _ => panic!("`r` on the internal line re-runs the query"),
    }
    assert_eq!(state.command().get_content(), "", "the internal line is cleared after a run");
}

#[test]
fn searching_the_output_pane_through_the_router() {
    let mut state = fresh();
    state.run_shell_command(String::from("a\nb\na\n"));
    handle_key_event(Key::Char('w'), true, &mut state);
    handle_key_event(Key::Char('w'), true, &mut state);
    assert_eq!(state.get_active(), Panel::Output);
    handle_key_event(Key::Char('/'), false, &mut state);
    handle_key_event(Key::Char('a'), false, &mut state);
    handle_key_event(Key::Enter, false, &mut state);
    assert_eq!(state.output.get_pos(), 2);
    assert_eq!(state.jq().get_content(), ".|keys", "the query line saw none of it");
}
