//! A read-mostly content pane: an immutable text body, a scroller bounded by
//! the body's line count, and an incremental, non-wrapping substring search.

use crate::app::{Panel, Signal, SignalView};
use crate::events::Key;
use crate::scroller::{spec_next, spec_prev, Scroller, ScrollerView};
use crate::text::{chars_of, contains_pat, line_contains, lines_of, split_lines, string_from_chars};
use vstd::prelude::*;

verus! {

/// Where the search sub-state-machine stands: no search, pattern being typed,
/// or pattern confirmed and matches being navigated.
#[derive(Clone, Copy, Debug, PartialEq, Eq, Structural)]
pub enum PatternMode {
    Inactive,
    Entering,
    Active,
}

/// Spec-level state of a [`Content`] pane.
#[verifier::ext_equal]
pub ghost struct ContentView {
    pub kind: Panel,
    pub mode: PatternMode,
    pub pattern: Seq<char>,
    pub highlight: int,
    pub scroll: ScrollerView,
    pub content: Seq<char>,
}

impl ContentView {
    /// The pane's invariant: the scroll bound equals the body's line count and
    /// no pattern lingers while the search is inactive.
    pub open spec fn wf(self) -> bool {
        &&& self.scroll.wf()
        &&& self.scroll.max == lines_of(self.content).len()
        &&& (self.mode is Inactive ==> self.pattern.len() == 0)
    }
}

/// First line index at or after `i` whose line contains `pat`; `lines.len()`
/// when there is none.
pub open spec fn find_from(lines: Seq<Seq<char>>, pat: Seq<char>, i: int) -> int
    decreases lines.len() - i
        when 0 <= i <= lines.len()
{
    if i >= lines.len() {
        lines.len() as int
    } else if line_contains(lines[i], pat) {
        i
    } else {
        find_from(lines, pat, i + 1)
    }
}

/// Last line index at or before `i` whose line contains `pat`; `-1` when there
/// is none.
pub open spec fn find_back(lines: Seq<Seq<char>>, pat: Seq<char>, i: int) -> int
    decreases i + 1
        when -1 <= i < lines.len()
{
    if i < 0 {
        -1
    } else if line_contains(lines[i], pat) {
        i
    } else {
        find_back(lines, pat, i - 1)
    }
}

/// Jump to the first matching line strictly after the current scroll line; if
/// no later line matches, nothing changes (the search does not wrap).
pub open spec fn spec_find_next(v: ContentView) -> ContentView {
    let lines = lines_of(v.content);
    if v.scroll.position + 1 <= lines.len() {
        let j = find_from(lines, v.pattern, v.scroll.position + 1);
        if j < lines.len() {
            ContentView { scroll: ScrollerView { position: j, ..v.scroll }, highlight: j, ..v }
        } else {
            v
        }
    } else {
        v
    }
}

/// Jump to the last matching line strictly before the current scroll line; if
/// no earlier line matches, nothing changes (the search does not wrap).
pub open spec fn spec_find_prev(v: ContentView) -> ContentView {
    let lines = lines_of(v.content);
    let j = find_back(lines, v.pattern, v.scroll.position - 1);
    if j >= 0 {
        ContentView { scroll: ScrollerView { position: j, ..v.scroll }, highlight: j, ..v }
    } else {
        v
    }
}

/// `find_back` never returns an index above its starting point.
pub proof fn lemma_find_back_le(lines: Seq<Seq<char>>, pat: Seq<char>, i: int)
    requires
        -1 <= i < lines.len(),
    ensures
        -1 <= find_back(lines, pat, i) <= i,
    decreases i + 1,
{
    if i < 0 {
    } else if line_contains(lines[i], pat) {
    } else {
        lemma_find_back_le(lines, pat, i - 1);
    }
}

/// Leave the search: pattern and highlight are cleared, the scroll position
/// stays where the search left it.
pub open spec fn spec_reset_search(v: ContentView) -> ContentView {
    ContentView { mode: PatternMode::Inactive, pattern: Seq::<char>::empty(), highlight: 0, ..v }
}

/// Scroll one line up.
pub open spec fn spec_content_scroll_up(v: ContentView) -> ContentView {
    ContentView { scroll: spec_prev(v.scroll), ..v }
}

/// Scroll one line down.
pub open spec fn spec_content_scroll_down(v: ContentView) -> ContentView {
    ContentView { scroll: spec_next(v.scroll), ..v }
}

/// How a keystroke routed to a content pane changes it; such a pane never
/// raises a signal of its own.
pub open spec fn spec_content_step(v: ContentView, key: Key, ctrl: bool) -> ContentView {
    match key {
        Key::Esc => if v.mode is Entering || v.mode is Active {
            spec_reset_search(v)
        } else {
            v
        },
        Key::Enter => match v.mode {
            PatternMode::Entering => spec_find_next(
                ContentView { mode: PatternMode::Active, ..v },
            ),
            PatternMode::Active => spec_find_next(v),
            PatternMode::Inactive => v,
        },
        Key::Backspace => if v.mode is Entering {
            ContentView {
                pattern: if v.pattern.len() > 0 {
                    v.pattern.drop_last()
                } else {
                    v.pattern
                },
                ..v
            }
        } else {
            v
        },
        Key::Char(c) => if c == '/' {
            if v.mode is Inactive {
                ContentView { mode: PatternMode::Entering, ..v }
            } else {
                v
            }
        } else if c == 'l' && ctrl {
            spec_reset_search(v)
        } else if c == 'n' && v.mode is Active {
            spec_find_next(v)
        } else if c == 'N' && v.mode is Active {
            spec_find_prev(v)
        } else if v.mode is Entering {
            ContentView { pattern: v.pattern.push(c), ..v }
        } else {
            v
        },
        _ => v,
    }
}

/// Display of a static text body (the source document or the last query
/// result), combining a scroller with a search state.
pub struct Content {
    kind: Panel,
    /// Search sub-state; the renderer reads it to decide what to draw.
    pub mode: PatternMode,
    pattern: Vec<char>,
    /// The line to highlight; meaningful while a search is active.
    pub highlight: usize,
    scroll: Scroller,
    content: String,
    lines: Vec<Vec<char>>,
}

impl View for Content {
    type V = ContentView;

    closed spec fn view(&self) -> ContentView {
        ContentView {
            kind: self.kind,
            mode: self.mode,
            pattern: self.pattern@,
            highlight: self.highlight as int,
            scroll: self.scroll@,
            content: self.content@,
        }
    }
}

impl Content {
    /// The pane's invariant, plus consistency of the cached line split.
    pub open spec fn inv(&self) -> bool {
        &&& self@.wf()
        &&& self.lines_cached()
    }

    /// The stored line vector is exactly the body's line decomposition.
    pub closed spec fn lines_cached(&self) -> bool {
        self.lines.deep_view() == lines_of(self.content@)
    }

    /// A fresh pane over `content`: scroll bound = number of lines, search
    /// inactive.
    pub fn new(content: String, kind: Panel) -> (c: Content)
        ensures
            c@ == (ContentView {
                kind: kind,
                mode: PatternMode::Inactive,
                pattern: Seq::<char>::empty(),
                highlight: 0,
                scroll: ScrollerView {
                    position: 0,
                    max: lines_of(content@).len() as int,
                },
                content: content@,
            }),
            c.inv(),
    {
        let cs = chars_of(content.as_str());
        let lines = split_lines(&cs);
        let scroll = Scroller::new(lines.len());
        let c = Content {
            kind,
            mode: PatternMode::Inactive,
            pattern: Vec::new(),
            highlight: 0,
            scroll,
            content,
            lines,
        };
        proof {
            assert(c.lines.deep_view().len() == lines_of(c.content@).len());
        }
        c
    }

    /// The search pattern as typed so far.
    pub fn pattern(&self) -> (r: String)
        ensures
            r@ == self@.pattern,
    {
        string_from_chars(&self.pattern)
    }

    /// Append a character to the search pattern.
    fn push(&mut self, c: char)
        ensures
            final(self)@ == (ContentView { pattern: old(self)@.pattern.push(c), ..old(self)@ }),
            old(self).inv() && !(old(self)@.mode is Inactive) ==> final(self).inv(),
    {
        self.pattern.push(c);
        proof {
            assert(final(self)@ =~~= (ContentView {
                pattern: old(self)@.pattern.push(c),
                ..old(self)@
            }));
        }
    }

    /// Drop the last character of the search pattern, if any.
    fn pop(&mut self)
        ensures
            final(self)@ == (ContentView {
                pattern: if old(self)@.pattern.len() > 0 {
                    old(self)@.pattern.drop_last()
                } else {
                    old(self)@.pattern
                },
                ..old(self)@
            }),
            old(self).inv() ==> final(self).inv(),
    {
        let _ = self.pattern.pop();
        proof {
            assert(final(self)@ =~~= (ContentView {
                pattern: if old(self)@.pattern.len() > 0 {
                    old(self)@.pattern.drop_last()
                } else {
                    old(self)@.pattern
                },
                ..old(self)@
            }));
        }
    }

    /// Scan forward from the line after the current scroll position and move
    /// to the first line containing the pattern; do nothing if none matches.
    fn find_next(&mut self)
        requires
            old(self).inv(),
        ensures
            final(self).inv(),
            final(self)@ == spec_find_next(old(self)@),
    {
        let pos = self.scroll.get();
        let n = self.lines.len();
        if pos >= n {
            return ;
        }
        let j = search_from(&self.lines, &self.pattern, pos + 1);
        if j < n {
            self.scroll.set_position(j);
            self.highlight = j;
        }
        proof {
            assert(final(self)@ =~~= spec_find_next(old(self)@));
        }
    }

    /// Scan backward from the line before the current scroll position and
    /// move to the last line containing the pattern; do nothing if none
    /// matches.
    fn find_prev(&mut self)
        requires
            old(self).inv(),
        ensures
            final(self).inv(),
            final(self)@ == spec_find_prev(old(self)@),
    {
        let pos = self.scroll.get();
        proof {
            lemma_find_back_le(lines_of(self.content@), self.pattern@, pos - 1);
        }
        match search_back(&self.lines, &self.pattern, pos) {
            Some(j) => {
                self.scroll.set_position(j);
                self.highlight = j;
            },
            None => {},
        }
        proof {
            assert(final(self)@ =~~= spec_find_prev(old(self)@));
        }
    }

    /// Cancel the search: pattern and highlight cleared, scroll untouched.
    fn reset_search(&mut self)
        ensures
            final(self)@ == spec_reset_search(old(self)@),
            old(self).inv() ==> final(self).inv(),
    {
        self.mode = PatternMode::Inactive;
        self.pattern = Vec::new();
        self.highlight = 0;
        proof {
            assert(final(self)@ =~~= spec_reset_search(old(self)@));
        }
    }

    /// Scroll one line up.
    pub fn scroll_up(&mut self)
        ensures
            final(self)@ == spec_content_scroll_up(old(self)@),
            old(self).inv() ==> final(self).inv(),
    {
        self.scroll.prev();
        proof {
            assert(final(self)@ =~~= spec_content_scroll_up(old(self)@));
        }
    }

    /// Scroll one line down, saturating at the line count.
    pub fn scroll_down(&mut self)
        ensures
            final(self)@ == spec_content_scroll_down(old(self)@),
            old(self).inv() ==> final(self).inv(),
    {
        self.scroll.next();
        proof {
            assert(final(self)@ =~~= spec_content_scroll_down(old(self)@));
        }
    }

    /// The scroll offset for the renderer.
    pub fn get_pos(&self) -> (p: usize)
        ensures
            p as int == self@.scroll.position,
    {
        self.scroll.get()
    }

    /// Which panel this pane displays.
    pub fn get_type(&self) -> (k: Panel)
        ensures
            k == self@.kind,
    {
        self.kind
    }

    /// The immutable text body.
    pub fn get_content(&self) -> (r: String)
        ensures
            r@ == self@.content,
    {
        self.content.clone()
    }

    /// Dispatch one keystroke to the search state machine; a content pane
    /// never signals outward.
    pub fn handle_event(&mut self, code: Key, ctrl: bool) -> (r: Signal)
        requires
            old(self).inv(),
        ensures
            final(self).inv(),
            final(self)@ == spec_content_step(old(self)@, code, ctrl),
            r@ == SignalView::Nop,
    {
        match code {
            Key::Esc => {
                if !(self.mode == PatternMode::Inactive) {
                    self.reset_search();
                }
            },
            Key::Enter => {
                match self.mode {
                    PatternMode::Entering => {
                        self.mode = PatternMode::Active;
                        proof {
                            assert(self@ =~~= (ContentView {
                                mode: PatternMode::Active,
                                ..old(self)@
                            }));
                        }
                        self.find_next();
                    },
                    PatternMode::Active => {
                        self.find_next();
                    },
                    PatternMode::Inactive => {},
                }
            },
            Key::Backspace => {
                if self.mode == PatternMode::Entering {
                    self.pop();
                }
            },
            Key::Char(c) => {
                if c == '/' {
                    if self.mode == PatternMode::Inactive {
                        self.mode = PatternMode::Entering;
                        proof {
                            assert(final(self)@ =~~= spec_content_step(old(self)@, code, ctrl));
                        }
                    }
                } else if c == 'l' && ctrl {
                    self.reset_search();
                } else if c == 'n' && self.mode == PatternMode::Active {
                    self.find_next();
                } else if c == 'N' && self.mode == PatternMode::Active {
                    self.find_prev();
                } else if self.mode == PatternMode::Entering {
                    self.push(c);
                }
            },
            _ => {},
        }
        Signal::Nop
    }
}

/// First index at or after `start` of a line that contains `pat`, or the line
/// count when no such line exists.
#[verifier::loop_isolation(false)]
fn search_from(lines: &Vec<Vec<char>>, pat: &Vec<char>, start: usize) -> (j: usize)
    requires
        start <= lines.deep_view().len(),
    ensures
        j as int == find_from(lines.deep_view(), pat@, start as int),
{
    let ghost ls = lines.deep_view();
    let n = lines.len();
    let mut i: usize = start;
    while i < n
        invariant
            start <= i <= n,
            find_from(ls, pat@, start as int) == find_from(ls, pat@, i as int),
        decreases n - i,
    {
        proof {
            assert(lines@[i as int]@ =~= ls[i as int]);
        }
        if contains_pat(&lines[i], pat) {
            proof {
                assert(find_from(ls, pat@, i as int) == i);
            }
            return i;
        }
        proof {
            assert(find_from(ls, pat@, i as int) == find_from(ls, pat@, i + 1));
        }
        i = i + 1;
    }
    n
}

/// Last index strictly before `pos` of a line that contains `pat`, or `None`
/// when no such line exists.
#[verifier::loop_isolation(false)]
fn search_back(lines: &Vec<Vec<char>>, pat: &Vec<char>, pos: usize) -> (j: Option<usize>)
    requires
        pos <= lines.deep_view().len(),
    ensures
        match j {
            Some(k) => k as int == find_back(lines.deep_view(), pat@, pos - 1),
            None => find_back(lines.deep_view(), pat@, pos - 1) == -1,
        },
{
    let ghost ls = lines.deep_view();
    let mut i: usize = pos;
    while i > 0
        invariant
            i <= pos,
            find_back(ls, pat@, pos - 1) == find_back(ls, pat@, i - 1),
        decreases i,
    {
        let idx = i - 1;
        proof {
            assert(lines@[idx as int]@ =~= ls[idx as int]);
        }
        if contains_pat(&lines[idx], pat) {
            proof {
                assert(find_back(ls, pat@, idx as int) == idx);
            }
            return Some(idx);
        }
        proof {
            assert(find_back(ls, pat@, idx as int) == find_back(ls, pat@, idx - 1));
        }
        i = idx;
    }
    None
}

} // verus!
