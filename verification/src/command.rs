//! The command-entry buffer: cursor-addressable text, an append-only input
//! history navigated by a scroller, and an error status that is displayed in
//! place of the text until the next edit keystroke.

use crate::app::{Signal, SignalView, Status};
use crate::events::Key;
use crate::scroller::{Scroller, ScrollerView};
use crate::text::{chars_of, string_from_chars};
use vstd::prelude::*;

verus! {

/// Spec-level state of a [`Command`] buffer.
#[verifier::ext_equal]
pub ghost struct CommandView {
    /// History scroller: which history entry is selected.
    pub scroll: ScrollerView,
    /// Cursor into `text`, bounded by its length.
    pub cursor: ScrollerView,
    /// Every recorded input, oldest first; never empty.
    pub history: Seq<Seq<char>>,
    /// The editable text.
    pub text: Seq<char>,
    /// A pending error message, shown instead of `text` while present.
    pub error: Option<Seq<char>>,
}

impl CommandView {
    /// The buffer's invariant: the cursor is bounded by the text length, the
    /// history holds at least the seed entry, and the history scroller ranges
    /// exactly over the history indices.
    pub open spec fn wf(self) -> bool {
        &&& self.cursor.wf()
        &&& self.cursor.max == self.text.len()
        &&& self.scroll.wf()
        &&& self.history.len() >= 1
        &&& self.scroll.max == self.history.len() - 1
    }
}

/// Insert `c` at the cursor, advance the cursor, clear any pending error.
pub open spec fn spec_push(m: CommandView, c: char) -> CommandView {
    CommandView {
        text: m.text.insert(m.cursor.position, c),
        cursor: ScrollerView { position: m.cursor.position + 1, max: m.text.len() as int + 1 },
        error: None,
        ..m
    }
}

/// Remove the character before the cursor (a no-op at position 0) and clear
/// any pending error.
pub open spec fn spec_backspace(m: CommandView) -> CommandView {
    if m.cursor.position == 0 {
        CommandView { error: None, ..m }
    } else {
        CommandView {
            text: m.text.remove(m.cursor.position - 1),
            cursor: ScrollerView { position: m.cursor.position - 1, max: m.text.len() as int - 1 },
            error: None,
            ..m
        }
    }
}

/// Remove the character at the cursor (a no-op at the end of the text) and
/// clear any pending error.
pub open spec fn spec_delete(m: CommandView) -> CommandView {
    if m.cursor.position == m.text.len() {
        CommandView { error: None, ..m }
    } else {
        CommandView {
            text: m.text.remove(m.cursor.position),
            cursor: ScrollerView { position: m.cursor.position, max: m.text.len() as int - 1 },
            error: None,
            ..m
        }
    }
}

/// Append the current text to the history and select the new tail entry.
pub open spec fn spec_record(m: CommandView) -> CommandView {
    CommandView {
        history: m.history.push(m.text),
        scroll: ScrollerView { position: m.history.len() as int, max: m.history.len() as int },
        ..m
    }
}

/// Empty the text and park the cursor at 0; the history and any pending error
/// are untouched.
pub open spec fn spec_clear(m: CommandView) -> CommandView {
    CommandView {
        text: Seq::<char>::empty(),
        cursor: ScrollerView { position: 0, max: 0 },
        ..m
    }
}

/// Select the previous history entry (saturating at the oldest) and replace
/// the text with it, cursor at its end.
pub open spec fn spec_hist_prev(m: CommandView) -> CommandView {
    let p = if m.scroll.position > 0 {
        m.scroll.position - 1
    } else {
        m.scroll.position
    };
    CommandView {
        scroll: ScrollerView { position: p, ..m.scroll },
        text: m.history[p],
        cursor: ScrollerView {
            position: m.history[p].len() as int,
            max: m.history[p].len() as int,
        },
        ..m
    }
}

/// Select the next history entry (saturating at the newest) and replace the
/// text with it, cursor at its end.
pub open spec fn spec_hist_next(m: CommandView) -> CommandView {
    let p = if m.scroll.position < m.scroll.max {
        m.scroll.position + 1
    } else {
        m.scroll.position
    };
    CommandView {
        scroll: ScrollerView { position: p, ..m.scroll },
        text: m.history[p],
        cursor: ScrollerView {
            position: m.history[p].len() as int,
            max: m.history[p].len() as int,
        },
        ..m
    }
}

/// How a keystroke routed to the command buffer changes it.
pub open spec fn spec_command_step(m: CommandView, key: Key) -> CommandView {
    match key {
        Key::Char(c) => spec_push(m, c),
        Key::Backspace => spec_backspace(m),
        Key::Delete => spec_delete(m),
        Key::Left => CommandView {
            cursor: ScrollerView {
                position: if m.cursor.position > 0 {
                    m.cursor.position - 1
                } else {
                    m.cursor.position
                },
                ..m.cursor
            },
            ..m
        },
        Key::Right => CommandView {
            cursor: ScrollerView {
                position: if m.cursor.position < m.cursor.max {
                    m.cursor.position + 1
                } else {
                    m.cursor.position
                },
                ..m.cursor
            },
            ..m
        },
        Key::Home => CommandView {
            cursor: ScrollerView { position: 0, ..m.cursor },
            ..m
        },
        Key::End => CommandView {
            cursor: ScrollerView { position: m.text.len() as int, max: m.text.len() as int },
            ..m
        },
        _ => m,
    }
}

/// The signal a keystroke routed to the command buffer produces: `Enter`
/// submits, everything else is quiet.
pub open spec fn spec_command_signal(key: Key) -> SignalView {
    if key == Key::Enter {
        SignalView::Run
    } else {
        SignalView::Nop
    }
}

/// What the buffer displays: the pending error when one is set, else the
/// text.
pub open spec fn spec_displayed(m: CommandView) -> Seq<char> {
    match m.error {
        Some(e) => e,
        None => m.text,
    }
}

/// Inserting a character and immediately backspacing it restores the original
/// text and cursor position.
pub proof fn lemma_push_backspace_roundtrip(m: CommandView, c: char)
    requires
        m.wf(),
    ensures
        spec_backspace(spec_push(m, c)).text == m.text,
        spec_backspace(spec_push(m, c)).cursor == m.cursor,
{
    let p = spec_push(m, c);
    assert(p.text.remove(m.cursor.position) =~= m.text);
    assert(spec_backspace(p).cursor =~= m.cursor);
}

/// `record` followed by one step up the history yields the previously
/// recorded entry, verbatim.
pub proof fn lemma_record_then_prev(m: CommandView)
    requires
        m.wf(),
    ensures
        spec_hist_prev(spec_record(m)).text == m.history.last(),
{
}

/// The mutable, cursor-addressable query line with history.
pub struct Command {
    scroll: Scroller,
    cursor: Scroller,
    history: Vec<Vec<char>>,
    command: Vec<char>,
    status: Status,
}

impl View for Command {
    type V = CommandView;

    closed spec fn view(&self) -> CommandView {
        CommandView {
            scroll: self.scroll@,
            cursor: self.cursor@,
            history: self.history.deep_view(),
            text: self.command@,
            error: self.status@,
        }
    }
}

impl Command {
    /// A fresh buffer holding `command`, cursor at its end, the history seeded
    /// with it, and no pending error.
    pub fn new(command: String) -> (c: Command)
        ensures
            c@ == (CommandView {
                scroll: ScrollerView { position: 0, max: 0 },
                cursor: ScrollerView {
                    position: command@.len() as int,
                    max: command@.len() as int,
                },
                history: seq![command@],
                text: command@,
                error: None,
            }),
            c@.wf(),
    {
        let seed = chars_of(command.as_str());
        let text = chars_of(command.as_str());
        let scroll = Scroller::new(0);
        let mut cursor = Scroller::new(0);
        cursor.set_max(text.len());
        cursor.set_position(text.len());
        let mut history: Vec<Vec<char>> = Vec::new();
        history.push(seed);
        let c = Command { scroll, cursor, history, command: text, status: Status::Good };
        proof {
            assert(c@.history =~~= seq![command@]);
        }
        c
    }

    /// Empty the text and reset the cursor; history and status are untouched.
    pub fn clear(&mut self)
        ensures
            final(self)@ == spec_clear(old(self)@),
            old(self)@.wf() ==> final(self)@.wf(),
    {
        self.command = Vec::new();
        self.tail_cursor();
        proof {
            assert(final(self)@ =~~= spec_clear(old(self)@));
        }
    }

    /// Append the current text to the history and select the new tail entry.
    pub fn record(&mut self)
        requires
            old(self)@.wf(),
        ensures
            final(self)@ == spec_record(old(self)@),
            final(self)@.wf(),
    {
        let entry = copy_chars(&self.command);
        self.history.push(entry);
        self.scroll.set_max(self.history.len() - 1);
        let m = self.scroll.max();
        self.scroll.set_position(m);
        proof {
            assert(final(self)@ =~~= spec_record(old(self)@));
        }
    }

    /// Flag a failed evaluation: until the next edit, the buffer displays
    /// `error` instead of its text.
    pub fn set_error(&mut self, error: &str)
        ensures
            final(self)@ == (CommandView { error: Some(error@), ..old(self)@ }),
            old(self)@.wf() ==> final(self)@.wf(),
    {
        self.status = Status::Error(error.to_owned());
        proof {
            assert(final(self)@ =~~= (CommandView { error: Some(error@), ..old(self)@ }));
        }
    }

    /// The cursor's offset into the text.
    pub fn cursor(&self) -> (p: usize)
        ensures
            p as int == self@.cursor.position,
    {
        self.cursor.get()
    }

    /// Replace the text wholesale (used when a bookmark is loaded), cursor at
    /// the end of the new text.
    pub fn replace(&mut self, with: String)
        ensures
            final(self)@ == (CommandView {
                text: with@,
                cursor: ScrollerView { position: with@.len() as int, max: with@.len() as int },
                ..old(self)@
            }),
            old(self)@.wf() ==> final(self)@.wf(),
    {
        self.command = chars_of(with.as_str());
        self.tail_cursor();
        proof {
            assert(final(self)@ =~~= (CommandView {
                text: with@,
                cursor: ScrollerView { position: with@.len() as int, max: with@.len() as int },
                ..old(self)@
            }));
        }
    }

    /// Step the history scroller back and load that entry.
    fn prev_from_history(&mut self)
        requires
            old(self)@.wf(),
        ensures
            final(self)@ == spec_hist_prev(old(self)@),
            final(self)@.wf(),
    {
        self.scroll.prev();
        let idx = self.scroll.get();
        self.command = copy_chars(&self.history[idx]);
        self.tail_cursor();
        proof {
            assert(final(self)@ =~~= spec_hist_prev(old(self)@));
        }
    }

    /// Step the history scroller forward and load that entry.
    fn next_from_history(&mut self)
        requires
            old(self)@.wf(),
        ensures
            final(self)@ == spec_hist_next(old(self)@),
            final(self)@.wf(),
    {
        self.scroll.next();
        let idx = self.scroll.get();
        self.command = copy_chars(&self.history[idx]);
        self.tail_cursor();
        proof {
            assert(final(self)@ =~~= spec_hist_next(old(self)@));
        }
    }

    /// Insert `c` at the cursor and advance it; clears any pending error.
    fn push(&mut self, c: char)
        requires
            old(self)@.wf(),
        ensures
            final(self)@ == spec_push(old(self)@, c),
            final(self)@.wf(),
    {
        self.clear_error();
        let cur = self.cursor.get();
        self.command.insert(cur, c);
        self.cursor.set_max(self.command.len());
        self.cursor.next();
        proof {
            assert(final(self)@ =~~= spec_push(old(self)@, c));
        }
    }

    /// Remove the character at the cursor, if any; clears any pending error.
    fn delete(&mut self)
        requires
            old(self)@.wf(),
        ensures
            final(self)@ == spec_delete(old(self)@),
            final(self)@.wf(),
    {
        self.clear_error();
        let cur = self.cursor.get();
        if cur < self.command.len() {
            self.command.remove(cur);
            self.cursor.set_max(self.command.len());
        }
        proof {
            assert(final(self)@ =~~= spec_delete(old(self)@));
        }
    }

    /// Remove the character before the cursor, if any; clears any pending
    /// error.
    fn backspace(&mut self)
        requires
            old(self)@.wf(),
        ensures
            final(self)@ == spec_backspace(old(self)@),
            final(self)@.wf(),
    {
        self.clear_error();
        let cur = self.cursor.get();
        if cur == self.command.len() {
            if self.command.len() > 0 {
                let _ = self.command.pop();
                proof {
                    assert(self.command@ =~= old(self)@.text.remove(old(self)@.cursor.position - 1));
                }
            }
            self.tail_cursor();
        } else if cur > 0 {
            self.command.remove(cur - 1);
            self.cursor.set_max(self.command.len());
            self.cursor.prev();
        }
        proof {
            assert(final(self)@ =~~= spec_backspace(old(self)@));
        }
    }

    /// Re-synchronize the cursor bound with the text and park the cursor at
    /// the end.
    fn tail_cursor(&mut self)
        ensures
            final(self)@ == (CommandView {
                cursor: ScrollerView {
                    position: old(self)@.text.len() as int,
                    max: old(self)@.text.len() as int,
                },
                ..old(self)@
            }),
    {
        self.cursor.set_max(self.command.len());
        self.cursor.set_position(self.command.len());
        proof {
            assert(final(self)@ =~~= (CommandView {
                cursor: ScrollerView {
                    position: old(self)@.text.len() as int,
                    max: old(self)@.text.len() as int,
                },
                ..old(self)@
            }));
        }
    }

    /// Drop any pending error so the text is shown again.
    fn clear_error(&mut self)
        ensures
            final(self)@ == (CommandView { error: None, ..old(self)@ }),
    {
        self.status = Status::Good;
        proof {
            assert(final(self)@ =~~= (CommandView { error: None, ..old(self)@ }));
        }
    }

    /// The history scroller's position (what the renderer scrolls by).
    pub fn get_pos(&self) -> (p: usize)
        ensures
            p as int == self@.scroll.position,
    {
        self.scroll.get()
    }

    /// What the buffer displays: the pending error if one is set, else the
    /// text.
    pub fn get_content(&self) -> (r: String)
        ensures
            r@ == spec_displayed(self@),
    {
        match &self.status {
            Status::Error(err) => err.clone(),
            Status::Good => string_from_chars(&self.command),
        }
    }

    /// History navigation: step to the previous entry.
    pub fn scroll_up(&mut self)
        requires
            old(self)@.wf(),
        ensures
            final(self)@ == spec_hist_prev(old(self)@),
            final(self)@.wf(),
    {
        self.prev_from_history();
    }

    /// History navigation: step to the next entry.
    pub fn scroll_down(&mut self)
        requires
            old(self)@.wf(),
        ensures
            final(self)@ == spec_hist_next(old(self)@),
            final(self)@.wf(),
    {
        self.next_from_history();
    }

    /// Dispatch one keystroke: characters edit, arrows and Home/End move the
    /// cursor, `Enter` submits, anything else is ignored.
    pub fn handle_event(&mut self, code: Key, _ctrl: bool) -> (r: Signal)
        requires
            old(self)@.wf(),
        ensures
            final(self)@ == spec_command_step(old(self)@, code),
            final(self)@.wf(),
            r@ == spec_command_signal(code),
    {
        match code {
            Key::Char(c) => {
                self.push(c);
                Signal::Nop
            },
            Key::Backspace => {
                self.backspace();
                Signal::Nop
            },
            Key::Delete => {
                self.delete();
                Signal::Nop
            },
            Key::Enter => Signal::Run,
            Key::Left => {
                self.cursor.prev();
                proof {
                    assert(final(self)@ =~~= spec_command_step(old(self)@, code));
                }
                Signal::Nop
            },
            Key::Home => {
                self.cursor.set_position(0);
                proof {
                    assert(final(self)@ =~~= spec_command_step(old(self)@, code));
                }
                Signal::Nop
            },
            Key::Right => {
                self.cursor.next();
                proof {
                    assert(final(self)@ =~~= spec_command_step(old(self)@, code));
                }
                Signal::Nop
            },
            Key::End => {
                self.tail_cursor();
                Signal::Nop
            },
            _ => Signal::Nop,
        }
    }
}

/// An owned copy of a character vector.
fn copy_chars(v: &Vec<char>) -> (r: Vec<char>)
    ensures
        r@ == v@,
{
    let mut r: Vec<char> = Vec::new();
    let mut i: usize = 0;
    while i < v.len()
        invariant
            i <= v@.len(),
            r@ == v@.take(i as int),
        decreases v@.len() - i,
    {
        r.push(v[i]);
        i = i + 1;
        proof {
            assert(r@ =~= v@.take(i as int));
        }
    }
    proof {
        assert(v@.take(i as int) =~= v@);
    }
    r
}

} // verus!
