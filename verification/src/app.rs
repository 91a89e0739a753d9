//! Top-level session state: the outward [`Signal`] an event handler returns,
//! the interaction [`Mode`], a command buffer's [`Status`], the [`Panel`]
//! identifiers for the focusable regions, and the [`State`] that owns every
//! pane and routes work between them.

use crate::bookmarks::{spec_add, spec_bookmarks_scroll_down, spec_bookmarks_scroll_up,
    spec_bookmarks_signal, spec_bookmarks_step, Bookmarks, BookmarksView};
use crate::command::{spec_clear, spec_command_signal, spec_command_step, spec_displayed,
    spec_hist_next, spec_hist_prev, spec_record, Command, CommandView};
use crate::content::{spec_content_scroll_down, spec_content_scroll_up, spec_content_step,
    Content, ContentView, PatternMode};
use crate::events::Key;
use crate::instructions::{view_result, Effect, EffectView};
use crate::scroller::ScrollerView;
use crate::text::lines_of;
use vstd::prelude::*;

verus! {

/// An outward instruction returned by event handling for the host loop to act
/// on.
#[derive(Debug, PartialEq, Eq)]
pub enum Signal {
    Quit,
    Nop,
    Run,
    AddBookmark,
    LoadBookmark(String),
}

/// Spec-level value of a [`Signal`].
#[verifier::ext_equal]
pub ghost enum SignalView {
    Quit,
    Nop,
    Run,
    AddBookmark,
    LoadBookmark(Seq<char>),
}

impl View for Signal {
    type V = SignalView;

    open spec fn view(&self) -> SignalView {
        match *self {
            Signal::Quit => SignalView::Quit,
            Signal::Nop => SignalView::Nop,
            Signal::Run => SignalView::Run,
            Signal::AddBookmark => SignalView::AddBookmark,
            Signal::LoadBookmark(s) => SignalView::LoadBookmark(s@),
        }
    }
}

/// Top-level interaction state: which command line is active and whether an
/// overlay (Help, Bookmarks) is shown.
#[derive(Clone, Copy, Debug, PartialEq, Eq, Structural)]
pub enum Mode {
    Internal,
    Shell,
    Help,
    Bookmarks,
}

/// A command buffer either shows its text or a pending error message.
#[derive(Debug)]
pub enum Status {
    Error(String),
    Good,
}

impl View for Status {
    type V = Option<Seq<char>>;

    open spec fn view(&self) -> Option<Seq<char>> {
        match self {
            Status::Error(e) => Some(e@),
            Status::Good => None,
        }
    }
}

/// Identifier of a focusable visual region.
#[derive(Clone, Copy, Debug, PartialEq, Eq, Structural)]
pub enum Panel {
    Source,
    Output,
    Command,
    Bookmarks,
    Help,
}

/// Spec-level value of the whole session.
#[verifier::ext_equal]
pub ghost struct StateView {
    pub output: ContentView,
    pub source: ContentView,
    pub filename: Seq<char>,
    pub command: CommandView,
    pub internal: CommandView,
    pub bookmarks: BookmarksView,
    pub active: Panel,
    pub mode: Mode,
}

/// The session: every pane, the focus, and the interaction mode. Exactly one
/// instance exists for the life of the process, owned by the host loop.
pub struct State {
    /// The result of the last query run.
    pub output: Content,
    /// The loaded document.
    pub source: Content,
    /// Path of the document the query engine reads.
    pub filename: String,
    command: Command,
    internal: Command,
    /// The saved-queries overlay.
    pub bookmarks: Bookmarks,
    active: Panel,
    mode: Mode,
}

impl View for State {
    type V = StateView;

    closed spec fn view(&self) -> StateView {
        StateView {
            output: self.output@,
            source: self.source@,
            filename: self.filename@,
            command: self.command@,
            internal: self.internal@,
            bookmarks: self.bookmarks@,
            active: self.active,
            mode: self.mode,
        }
    }
}

/// Which pane receives non-global keystrokes: the Bookmarks and Help overlays
/// capture focus while their mode is active, otherwise the focused panel (any
/// other focus value falls back to the command line).
pub open spec fn spec_active_panel(s: StateView) -> Panel {
    if s.mode is Bookmarks {
        Panel::Bookmarks
    } else if s.mode is Help {
        Panel::Help
    } else if s.active is Source {
        Panel::Source
    } else if s.active is Output {
        Panel::Output
    } else {
        Panel::Command
    }
}

/// The command buffer the current mode presents as "the command line".
pub open spec fn spec_command_buffer(s: StateView) -> CommandView {
    if s.mode is Internal {
        s.internal
    } else {
        s.command
    }
}

/// Mode toggling on `Esc`: Shell and Internal alternate, an overlay falls
/// back to Shell.
pub open spec fn spec_switch_mode(m: Mode) -> Mode {
    match m {
        Mode::Shell => Mode::Internal,
        Mode::Internal => Mode::Shell,
        Mode::Help => Mode::Shell,
        Mode::Bookmarks => Mode::Shell,
    }
}

/// A non-global keystroke lands in the active pane; the session changes only
/// there, and the pane's signal is passed up.
pub open spec fn spec_route(s: StateView, key: Key, ctrl: bool) -> (StateView, SignalView) {
    match spec_active_panel(s) {
        Panel::Bookmarks => (
            StateView { bookmarks: spec_bookmarks_step(s.bookmarks, key, ctrl), ..s },
            spec_bookmarks_signal(s.bookmarks, key),
        ),
        Panel::Help => (s, SignalView::Nop),
        Panel::Source => (
            StateView { source: spec_content_step(s.source, key, ctrl), ..s },
            SignalView::Nop,
        ),
        Panel::Output => (
            StateView { output: spec_content_step(s.output, key, ctrl), ..s },
            SignalView::Nop,
        ),
        Panel::Command => if s.mode is Internal {
            (
                StateView { internal: spec_command_step(s.internal, key), ..s },
                spec_command_signal(key),
            )
        } else {
            (
                StateView { command: spec_command_step(s.command, key), ..s },
                spec_command_signal(key),
            )
        },
    }
}

/// A scroll-up keystroke moves the active pane one step up (for the command
/// line: one history entry back).
pub open spec fn spec_scroll_up(s: StateView) -> StateView {
    match spec_active_panel(s) {
        Panel::Bookmarks => StateView { bookmarks: spec_bookmarks_scroll_up(s.bookmarks), ..s },
        Panel::Help => s,
        Panel::Source => StateView { source: spec_content_scroll_up(s.source), ..s },
        Panel::Output => StateView { output: spec_content_scroll_up(s.output), ..s },
        Panel::Command => if s.mode is Internal {
            StateView { internal: spec_hist_prev(s.internal), ..s }
        } else {
            StateView { command: spec_hist_prev(s.command), ..s }
        },
    }
}

/// A scroll-down keystroke moves the active pane one step down (for the
/// command line: one history entry forward).
pub open spec fn spec_scroll_down(s: StateView) -> StateView {
    match spec_active_panel(s) {
        Panel::Bookmarks => StateView { bookmarks: spec_bookmarks_scroll_down(s.bookmarks), ..s },
        Panel::Help => s,
        Panel::Source => StateView { source: spec_content_scroll_down(s.source), ..s },
        Panel::Output => StateView { output: spec_content_scroll_down(s.output), ..s },
        Panel::Command => if s.mode is Internal {
            StateView { internal: spec_hist_next(s.internal), ..s }
        } else {
            StateView { command: spec_hist_next(s.command), ..s }
        },
    }
}

/// A fresh pane showing `content`.
pub open spec fn spec_fresh_content(kind: Panel, content: Seq<char>) -> ContentView {
    ContentView {
        kind,
        mode: PatternMode::Inactive,
        pattern: Seq::<char>::empty(),
        highlight: 0,
        scroll: ScrollerView { position: 0, max: lines_of(content).len() as int },
        content,
    }
}

/// Running the query: the query line is recorded into its history and the
/// output pane is rebuilt around the engine's text.
pub open spec fn spec_run_shell(s: StateView, output: Seq<char>) -> StateView {
    StateView {
        command: spec_record(s.command),
        output: spec_fresh_content(Panel::Output, output),
        ..s
    }
}

/// Running the internal line: it is recorded and cleared; a recognized
/// command hands its effect to the host, an unrecognized one leaves its error
/// message on the internal line.
pub open spec fn spec_run_internal_command(s: StateView) -> (StateView, Option<EffectView>) {
    let m = spec_record(s.internal);
    let cmdtext = spec_displayed(m);
    let res = crate::actions::spec_run_internal(cmdtext, StateView { internal: m, ..s });
    let cleared = spec_clear(m);
    match res {
        Ok(ev) => (StateView { internal: cleared, ..s }, Some(ev)),
        Err(msg) => (
            StateView { internal: CommandView { error: Some(msg), ..cleared }, ..s },
            None,
        ),
    }
}

/// What submitting the current command line asks of the host: in Shell mode a
/// query run, in Internal mode whatever the internal command decides, in an
/// overlay nothing.
pub open spec fn spec_run_current(s: StateView) -> (StateView, Option<EffectView>) {
    match s.mode {
        Mode::Shell => (s, Some(EffectView::Rerun)),
        Mode::Internal => spec_run_internal_command(s),
        Mode::Help => (s, None),
        Mode::Bookmarks => (s, None),
    }
}

/// An `Option` of effects, at the spec level.
pub open spec fn view_opt_effect(e: Option<Effect>) -> Option<EffectView> {
    match e {
        Some(x) => Some(x@),
        None => None,
    }
}

impl State {
    /// Every pane is well-formed. Established by [`State::new`] and kept by
    /// every method.
    pub closed spec fn inv(&self) -> bool {
        &&& self.output.inv()
        &&& self.source.inv()
        &&& self@.command.wf()
        &&& self@.internal.wf()
        &&& self@.bookmarks.wf()
    }

    /// A fresh session over a loaded document: the query line is seeded with
    /// `.|keys`, the internal line is empty, focus is on the command line in
    /// Shell mode, and the output pane is empty until the first run.
    pub fn new(filename: &str, source: &str) -> (s: State)
        ensures
            s.inv(),
            s@ == (StateView {
                output: spec_fresh_content(Panel::Output, Seq::<char>::empty()),
                source: spec_fresh_content(Panel::Source, source@),
                filename: filename@,
                command: CommandView {
                    scroll: ScrollerView { position: 0, max: 0 },
                    cursor: ScrollerView {
                        position: ".|keys"@.len() as int,
                        max: ".|keys"@.len() as int,
                    },
                    history: seq![".|keys"@],
                    text: ".|keys"@,
                    error: None,
                },
                internal: CommandView {
                    scroll: ScrollerView { position: 0, max: 0 },
                    cursor: ScrollerView { position: 0, max: 0 },
                    history: seq![Seq::<char>::empty()],
                    text: Seq::<char>::empty(),
                    error: None,
                },
                bookmarks: BookmarksView {
                    items: Seq::<Seq<char>>::empty(),
                    scroll: ScrollerView { position: 0, max: 0 },
                },
                active: Panel::Command,
                mode: Mode::Shell,
            }),
    {
        let command = Command::new(".|keys".to_owned());
        let internal = Command::new(String::new());
        let s = State {
            filename: filename.to_owned(),
            source: Content::new(source.to_owned(), Panel::Source),
            output: Content::new(String::new(), Panel::Output),
            command,
            internal,
            bookmarks: Bookmarks::new(),
            active: Panel::Command,
            mode: Mode::Shell,
        };
        proof {
            assert(s@ =~~= (StateView {
                output: spec_fresh_content(Panel::Output, Seq::<char>::empty()),
                source: spec_fresh_content(Panel::Source, source@),
                filename: filename@,
                command: CommandView {
                    scroll: ScrollerView { position: 0, max: 0 },
                    cursor: ScrollerView {
                        position: ".|keys"@.len() as int,
                        max: ".|keys"@.len() as int,
                    },
                    history: seq![".|keys"@],
                    text: ".|keys"@,
                    error: None,
                },
                internal: CommandView {
                    scroll: ScrollerView { position: 0, max: 0 },
                    cursor: ScrollerView { position: 0, max: 0 },
                    history: seq![Seq::<char>::empty()],
                    text: Seq::<char>::empty(),
                    error: None,
                },
                bookmarks: BookmarksView {
                    items: Seq::<Seq<char>>::empty(),
                    scroll: ScrollerView { position: 0, max: 0 },
                },
                active: Panel::Command,
                mode: Mode::Shell,
            }));
        }
        s
    }

    /// The current interaction mode.
    pub fn mode(&self) -> (r: &Mode)
        ensures
            *r == self@.mode,
    {
        &self.mode
    }

    /// Toggle between Shell and Internal; an overlay falls back to Shell.
    pub fn switch_mode(&mut self)
        ensures
            final(self)@ == (StateView { mode: spec_switch_mode(old(self)@.mode), ..old(self)@ }),
            old(self).inv() ==> final(self).inv(),
    {
        match self.mode {
            Mode::Shell => self.set_mode(Mode::Internal),
            Mode::Internal => self.set_mode(Mode::Shell),
            Mode::Help => self.set_mode(Mode::Shell),
            Mode::Bookmarks => self.set_mode(Mode::Shell),
        }
        proof {
            assert(final(self)@ =~~= (StateView {
                mode: spec_switch_mode(old(self)@.mode),
                ..old(self)@
            }));
        }
    }

    /// Enter `mode`.
    pub fn set_mode(&mut self, mode: Mode)
        ensures
            final(self)@ == (StateView { mode: mode, ..old(self)@ }),
            old(self).inv() ==> final(self).inv(),
    {
        self.mode = mode;
        proof {
            assert(final(self)@ =~~= (StateView { mode: mode, ..old(self)@ }));
        }
    }

    /// The command buffer the current mode presents.
    pub fn command(&self) -> (r: &Command)
        ensures
            r@ == spec_command_buffer(self@),
    {
        match self.mode {
            Mode::Internal => &self.internal,
            Mode::Shell => &self.command,
            Mode::Help => &self.command,
            Mode::Bookmarks => &self.command,
        }
    }

    /// The output pane.
    pub fn output_pane(&self) -> (r: &Content)
        ensures
            r@ == self@.output,
    {
        &self.output
    }

    /// The query line, whatever the mode.
    pub fn jq(&self) -> (r: &Command)
        ensures
            r@ == self@.command,
    {
        &self.command
    }

    /// Which pane receives non-global keystrokes right now.
    pub fn get_active(&self) -> (p: Panel)
        ensures
            p == spec_active_panel(self@),
    {
        if self.mode == Mode::Bookmarks {
            return Panel::Bookmarks;
        }
        if self.mode == Mode::Help {
            return Panel::Help;
        }
        if self.active == Panel::Source {
            return Panel::Source;
        }
        if self.active == Panel::Output {
            return Panel::Output;
        }
        Panel::Command
    }

    /// Move focus.
    pub fn set_active(&mut self, active: Panel)
        ensures
            final(self)@ == (StateView { active: active, ..old(self)@ }),
            old(self).inv() ==> final(self).inv(),
    {
        self.active = active;
        proof {
            assert(final(self)@ =~~= (StateView { active: active, ..old(self)@ }));
        }
    }

    /// Forward a non-global keystroke to the active pane and hand its signal
    /// up.
    pub fn handle_active_event(&mut self, code: Key, ctrl: bool) -> (r: Signal)
        requires
            old(self).inv(),
        ensures
            final(self).inv(),
            final(self)@ == spec_route(old(self)@, code, ctrl).0,
            r@ == spec_route(old(self)@, code, ctrl).1,
    {
        if self.mode == Mode::Bookmarks {
            let r = self.bookmarks.handle_event(code, ctrl);
            proof {
                assert(final(self)@ =~~= spec_route(old(self)@, code, ctrl).0);
            }
            return r;
        }
        if self.mode == Mode::Help {
            return Signal::Nop;
        }
        if self.active == Panel::Source {
            let r = self.source.handle_event(code, ctrl);
            proof {
                assert(final(self)@ =~~= spec_route(old(self)@, code, ctrl).0);
            }
            return r;
        }
        if self.active == Panel::Output {
            let r = self.output.handle_event(code, ctrl);
            proof {
                assert(final(self)@ =~~= spec_route(old(self)@, code, ctrl).0);
            }
            return r;
        }
        if self.mode == Mode::Internal {
            let r = self.internal.handle_event(code, ctrl);
            proof {
                assert(final(self)@ =~~= spec_route(old(self)@, code, ctrl).0);
            }
            return r;
        }
        let r = self.command.handle_event(code, ctrl);
        proof {
            assert(final(self)@ =~~= spec_route(old(self)@, code, ctrl).0);
        }
        r
    }

    /// Scroll the active pane one step up.
    pub fn scroll_active_up(&mut self)
        requires
            old(self).inv(),
        ensures
            final(self).inv(),
            final(self)@ == spec_scroll_up(old(self)@),
    {
        if self.mode == Mode::Bookmarks {
            self.bookmarks.scroll_up();
        } else if self.mode == Mode::Help {
        } else if self.active == Panel::Source {
            self.source.scroll_up();
        } else if self.active == Panel::Output {
            self.output.scroll_up();
        } else if self.mode == Mode::Internal {
            self.internal.scroll_up();
        } else {
            self.command.scroll_up();
        }
        proof {
            assert(final(self)@ =~~= spec_scroll_up(old(self)@));
        }
    }

    /// Scroll the active pane one step down.
    pub fn scroll_active_down(&mut self)
        requires
            old(self).inv(),
        ensures
            final(self).inv(),
            final(self)@ == spec_scroll_down(old(self)@),
    {
        if self.mode == Mode::Bookmarks {
            self.bookmarks.scroll_down();
        } else if self.mode == Mode::Help {
        } else if self.active == Panel::Source {
            self.source.scroll_down();
        } else if self.active == Panel::Output {
            self.output.scroll_down();
        } else if self.mode == Mode::Internal {
            self.internal.scroll_down();
        } else {
            self.command.scroll_down();
        }
        proof {
            assert(final(self)@ =~~= spec_scroll_down(old(self)@));
        }
    }

    /// Submit the current command line: tells the host what to do next (run
    /// the query, write a file) after recording and housekeeping.
    pub fn run_current_command(&mut self) -> (eff: Option<Effect>)
        requires
            old(self).inv(),
        ensures
            final(self).inv(),
            final(self)@ == spec_run_current(old(self)@).0,
            view_opt_effect(eff) == spec_run_current(old(self)@).1,
    {
        match self.mode {
            Mode::Shell => Some(Effect::Rerun),
            Mode::Internal => self.run_internal_command(),
            Mode::Help => None,
            Mode::Bookmarks => None,
        }
    }

    /// Record and run the internal command line, clear it, and leave any
    /// error message on it; a recognized command's effect goes to the host.
    pub fn run_internal_command(&mut self) -> (eff: Option<Effect>)
        requires
            old(self).inv(),
        ensures
            final(self).inv(),
            final(self)@ == spec_run_internal_command(old(self)@).0,
            view_opt_effect(eff) == spec_run_internal_command(old(self)@).1,
    {
        self.internal.record();
        let cmd = self.internal.get_content();
        let result = crate::actions::run_internal(cmd.as_str(), self);
        self.internal.clear();
        match result {
            Ok(eff) => {
                proof {
                    assert(final(self)@ =~~= spec_run_internal_command(old(self)@).0);
                }
                Some(eff)
            },
            Err(msg) => {
                self.internal.set_error(msg.as_str());
                proof {
                    assert(final(self)@ =~~= spec_run_internal_command(old(self)@).0);
                }
                None
            },
        }
    }

    /// Record the query into its history and show the engine's text in a
    /// fresh output pane. The host calls this with what the query engine
    /// returned (stdout, or stderr when stdout was empty).
    pub fn run_shell_command(&mut self, output: String)
        requires
            old(self).inv(),
        ensures
            final(self).inv(),
            final(self)@ == spec_run_shell(old(self)@, output@),
    {
        self.command.record();
        self.output = Content::new(output, Panel::Output);
        proof {
            assert(final(self)@ =~~= spec_run_shell(old(self)@, output@));
        }
    }

    /// Show a failed internal action (an unwritable file) on the internal
    /// command line.
    pub fn set_internal_error(&mut self, msg: &str)
        requires
            old(self).inv(),
        ensures
            final(self).inv(),
            final(self)@ == (StateView {
                internal: CommandView { error: Some(msg@), ..old(self)@.internal },
                ..old(self)@
            }),
    {
        self.internal.set_error(msg);
        proof {
            assert(final(self)@ =~~= (StateView {
                internal: CommandView { error: Some(msg@), ..old(self)@.internal },
                ..old(self)@
            }));
        }
    }

    /// Save the query line's current content as a bookmark (a no-op when it
    /// is already saved).
    pub fn add_bookmark(&mut self)
        requires
            old(self).inv(),
        ensures
            final(self).inv(),
            final(self)@ == (StateView {
                bookmarks: spec_add(old(self)@.bookmarks, spec_displayed(old(self)@.command)),
                ..old(self)@
            }),
    {
        let text = self.command.get_content();
        self.bookmarks.add(text.as_str());
        proof {
            assert(final(self)@ =~~= (StateView {
                bookmarks: spec_add(old(self)@.bookmarks, spec_displayed(old(self)@.command)),
                ..old(self)@
            }));
        }
    }

    /// Put a saved query on the query line and return to Shell mode with the
    /// command line focused.
    pub fn load_bookmark(&mut self, bm: String)
        requires
            old(self).inv(),
        ensures
            final(self).inv(),
            final(self)@ == (StateView {
                command: CommandView {
                    text: bm@,
                    cursor: ScrollerView { position: bm@.len() as int, max: bm@.len() as int },
                    ..old(self)@.command
                },
                mode: Mode::Shell,
                active: Panel::Command,
                ..old(self)@
            }),
    {
        self.command.replace(bm);
        self.mode = Mode::Shell;
        self.active = Panel::Command;
        proof {
            assert(final(self)@ =~~= (StateView {
                command: CommandView {
                    text: bm@,
                    cursor: ScrollerView { position: bm@.len() as int, max: bm@.len() as int },
                    ..old(self)@.command
                },
                mode: Mode::Shell,
                active: Panel::Command,
                ..old(self)@
            }));
        }
    }
}

} // verus!
