//! The bookmark list: an ordered, duplicate-free collection of saved command
//! strings, navigated by a scroller, together with its plain-text persistence
//! format (one bookmark per line; empty lines are discarded on load).

use crate::app::{Signal, SignalView};
use crate::events::Key;
use crate::scroller::{spec_next, spec_prev, Scroller, ScrollerView};
use crate::text::{chars_of, lines_of, split_lines, string_from_chars};
use vstd::prelude::*;
use vstd::string::StringExecFns;

verus! {

/// Spec-level state of a [`Bookmarks`] list.
#[verifier::ext_equal]
pub ghost struct BookmarksView {
    pub items: Seq<Seq<char>>,
    pub scroll: ScrollerView,
}

impl BookmarksView {
    /// The list's invariant: the scroller ranges over the item indices (with
    /// bound 0 when the list is empty).
    pub open spec fn wf(self) -> bool {
        &&& self.scroll.wf()
        &&& self.scroll.max == if self.items.len() == 0 {
            0int
        } else {
            self.items.len() - 1
        }
    }
}

/// The bookmark under the scroller, or the empty string when the list is
/// empty.
pub open spec fn spec_current(b: BookmarksView) -> Seq<char> {
    if b.scroll.position < b.items.len() {
        b.items[b.scroll.position]
    } else {
        Seq::<char>::empty()
    }
}

/// Append `bm` unless it is already present, then re-bound the scroller to the
/// last index.
pub open spec fn spec_add(b: BookmarksView, bm: Seq<char>) -> BookmarksView {
    let items = if b.items.contains(bm) {
        b.items
    } else {
        b.items.push(bm)
    };
    BookmarksView {
        items,
        scroll: ScrollerView {
            position: if b.scroll.position > items.len() - 1 {
                items.len() - 1
            } else {
                b.scroll.position
            },
            max: items.len() - 1,
        },
    }
}

/// Remove the item under the scroller, if any, and re-bound the scroller.
pub open spec fn spec_del_current(b: BookmarksView) -> BookmarksView {
    if 0 <= b.scroll.position < b.items.len() {
        let items = b.items.remove(b.scroll.position);
        let max = if items.len() == 0 {
            0int
        } else {
            items.len() - 1
        };
        BookmarksView {
            items,
            scroll: ScrollerView {
                position: if b.scroll.position > max {
                    max
                } else {
                    b.scroll.position
                },
                max,
            },
        }
    } else {
        b
    }
}

/// Adding a value that is already present changes nothing of the item count:
/// adding the same value twice leaves the list length as after the first add.
pub proof fn lemma_add_twice_same_len(b: BookmarksView, bm: Seq<char>)
    ensures
        spec_add(spec_add(b, bm), bm).items.len() == spec_add(b, bm).items.len(),
{
    let once = spec_add(b, bm);
    if !b.items.contains(bm) {
        assert(once.items[b.items.len() as int] == bm);
        assert(once.items.contains(bm));
    }
}

/// Move the selection one entry up.
pub open spec fn spec_bookmarks_scroll_up(b: BookmarksView) -> BookmarksView {
    BookmarksView { scroll: spec_prev(b.scroll), ..b }
}

/// Move the selection one entry down.
pub open spec fn spec_bookmarks_scroll_down(b: BookmarksView) -> BookmarksView {
    BookmarksView { scroll: spec_next(b.scroll), ..b }
}

/// How a keystroke routed to the bookmark list changes it: `Delete` or Ctrl+d
/// removes the selected entry, everything else leaves the list alone.
pub open spec fn spec_bookmarks_step(b: BookmarksView, key: Key, ctrl: bool) -> BookmarksView {
    if key == Key::Delete || (key == Key::Char('d') && ctrl) {
        spec_del_current(b)
    } else {
        b
    }
}

/// The signal the bookmark list raises: `Enter` asks the host to load the
/// selected entry into the query line.
pub open spec fn spec_bookmarks_signal(b: BookmarksView, key: Key) -> SignalView {
    if key == Key::Enter {
        SignalView::LoadBookmark(spec_current(b))
    } else {
        SignalView::Nop
    }
}

/// The ordered, duplicate-free list of saved commands.
pub struct Bookmarks {
    items: Vec<String>,
    scroll: Scroller,
}

impl View for Bookmarks {
    type V = BookmarksView;

    closed spec fn view(&self) -> BookmarksView {
        BookmarksView { items: self.items.deep_view(), scroll: self.scroll@ }
    }
}

/// Whether `bm` occurs in `items` (exact string equality).
fn contains_item(items: &Vec<String>, bm: &String) -> (b: bool)
    ensures
        b == items.deep_view().contains(bm@),
{
    let n = items.len();
    let mut i: usize = 0;
    while i < n
        invariant
            n == items@.len(),
            i <= n,
            forall|t: int| 0 <= t < i ==> items.deep_view()[t] != bm@,
        decreases n - i,
    {
        if bm.eq(&items[i]) {
            proof {
                assert(items.deep_view()[i as int] == bm@);
            }
            return true;
        }
        i = i + 1;
    }
    proof {
        assert(forall|t: int|
            0 <= t < items.deep_view().len() ==> items.deep_view()[t] != bm@);
    }
    false
}

impl Bookmarks {
    /// A fresh, empty list. The host loads persisted entries by `add`ing them.
    pub fn new() -> (b: Bookmarks)
        ensures
            b@ == (BookmarksView {
                items: Seq::<Seq<char>>::empty(),
                scroll: ScrollerView { position: 0, max: 0 },
            }),
            b@.wf(),
    {
        let b = Bookmarks { items: Vec::new(), scroll: Scroller::new(0) };
        proof {
            assert(b@.items =~~= Seq::<Seq<char>>::empty());
        }
        b
    }

    /// Append `bm` unless it is already present (set-like uniqueness by exact
    /// string equality); the scroller bound follows the new last index.
    pub fn add(&mut self, bm: &str)
        requires
            old(self)@.wf(),
        ensures
            final(self)@ == spec_add(old(self)@, bm@),
            final(self)@.wf(),
    {
        let s = bm.to_owned();
        if !contains_item(&self.items, &s) {
            let ghost prev = self.items.deep_view();
            self.items.push(s);
            proof {
                assert(self.items.deep_view() =~~= prev.push(bm@));
            }
        }
        self.scroll.set_max(self.items.len() - 1);
        proof {
            assert(final(self)@ =~~= spec_add(old(self)@, bm@));
        }
    }

    /// The saved commands, oldest first.
    pub fn items(&self) -> (r: &Vec<String>)
        ensures
            r.deep_view() == self@.items,
    {
        &self.items
    }

    /// The bookmark under the scroller, or `""` when the list is empty.
    pub fn get_current_item(&self) -> (r: String)
        ensures
            r@ == spec_current(self@),
    {
        let idx = self.scroll.get();
        self.get(idx)
    }

    /// Remove the bookmark under the scroller; reports whether anything was
    /// removed (`false` on an empty list, which is left untouched).
    pub fn del_current_item(&mut self) -> (r: bool)
        requires
            old(self)@.wf(),
        ensures
            final(self)@ == spec_del_current(old(self)@),
            final(self)@.wf(),
            r == (old(self)@.scroll.position < old(self)@.items.len()),
            old(self)@.items.len() == 0 ==> r == false && final(self)@ == old(self)@,
    {
        let idx = self.scroll.get();
        self.del(idx)
    }

    /// The bookmark at `idx`, or `""` when out of range.
    fn get(&self, idx: usize) -> (r: String)
        ensures
            r@ == if idx < self@.items.len() {
                self@.items[idx as int]
            } else {
                Seq::<char>::empty()
            },
    {
        if idx < self.items.len() {
            let r = self.items[idx].clone();
            proof {
                assert(r@ == self@.items[idx as int]);
            }
            r
        } else {
            String::new()
        }
    }

    /// Remove the bookmark at `idx`, if in range, and re-bound the scroller.
    fn del(&mut self, idx: usize) -> (r: bool)
        requires
            old(self)@.wf(),
            idx as int == old(self)@.scroll.position,
        ensures
            final(self)@ == spec_del_current(old(self)@),
            final(self)@.wf(),
            r == (old(self)@.scroll.position < old(self)@.items.len()),
    {
        if idx < self.items.len() {
            let ghost prev = self.items.deep_view();
            self.items.remove(idx);
            proof {
                assert(self.items.deep_view() =~~= prev.remove(idx as int));
            }
            let n = self.items.len();
            if n == 0 {
                self.scroll.set_max(0);
            } else {
                self.scroll.set_max(n - 1);
            }
            proof {
                assert(final(self)@ =~~= spec_del_current(old(self)@));
            }
            true
        } else {
            false
        }
    }

    /// The scroller's position (the selected row).
    pub fn get_pos(&self) -> (p: usize)
        ensures
            p as int == self@.scroll.position,
    {
        self.scroll.get()
    }

    /// Move the selection one entry up.
    pub fn scroll_up(&mut self)
        ensures
            final(self)@ == spec_bookmarks_scroll_up(old(self)@),
            old(self)@.wf() ==> final(self)@.wf(),
    {
        self.scroll.prev();
        proof {
            assert(final(self)@ =~~= spec_bookmarks_scroll_up(old(self)@));
        }
    }

    /// Move the selection one entry down.
    pub fn scroll_down(&mut self)
        ensures
            final(self)@ == spec_bookmarks_scroll_down(old(self)@),
            old(self)@.wf() ==> final(self)@.wf(),
    {
        self.scroll.next();
        proof {
            assert(final(self)@ =~~= spec_bookmarks_scroll_down(old(self)@));
        }
    }

    /// The overlay's display text: every bookmark on one tab-indented line.
    pub fn get_content(&self) -> (r: String)
        ensures
            r@ == spec_listing(self@.items),
    {
        let ghost its = self@.items;
        let n = self.items.len();
        let mut out = String::new();
        let mut i: usize = 0;
        while i < n
            invariant
                n == self.items@.len(),
                i <= n,
                its == self.items.deep_view(),
                out@ == spec_listing(its.take(i as int)),
            decreases n - i,
        {
            out.append("\t");
            out.append(self.items[i].as_str());
            out.append("\n");
            proof {
                reveal_strlit("\t");
                reveal_strlit("\n");
                assert("\t"@ =~= seq!['\t']);
                assert("\n"@ =~= seq!['\n']);
                assert(its.take(i + 1) =~~= its.take(i as int).push(its[i as int]));
                lemma_listing_push(its.take(i as int), its[i as int]);
                assert(out@ =~= spec_listing(its.take(i + 1)));
            }
            i = i + 1;
        }
        proof {
            assert(its.take(n as int) =~~= its);
        }
        out
    }

    /// Dispatch one keystroke: `Enter` asks the host to load the selected
    /// bookmark into the query line, `Delete` or Ctrl+d removes it.
    pub fn handle_event(&mut self, code: Key, ctrl: bool) -> (r: Signal)
        requires
            old(self)@.wf(),
        ensures
            final(self)@.wf(),
            final(self)@ == spec_bookmarks_step(old(self)@, code, ctrl),
            r@ == spec_bookmarks_signal(old(self)@, code),
    {
        match code {
            Key::Enter => Signal::LoadBookmark(self.get_current_item()),
            Key::Delete => {
                self.del_current_item();
                Signal::Nop
            },
            Key::Char(c) => {
                if c == 'd' && ctrl {
                    self.del_current_item();
                }
                Signal::Nop
            },
            _ => Signal::Nop,
        }
    }
}

/// The overlay's listing: every bookmark on one tab-indented line.
pub open spec fn spec_listing(items: Seq<Seq<char>>) -> Seq<char>
    decreases items.len(),
{
    if items.len() == 0 {
        Seq::<char>::empty()
    } else {
        seq!['\t'] + items[0] + seq!['\n'] + spec_listing(items.drop_first())
    }
}

/// One more listed item lands at the end of the listing.
proof fn lemma_listing_push(items: Seq<Seq<char>>, x: Seq<char>)
    ensures
        spec_listing(items.push(x)) == spec_listing(items) + seq!['\t'] + x + seq!['\n'],
    decreases items.len(),
{
    reveal_with_fuel(spec_listing, 3);
    if items.len() == 0 {
        assert(items.push(x).drop_first() =~~= Seq::<Seq<char>>::empty());
        assert(items.push(x)[0] == x);
        assert(spec_listing(items.push(x)) =~= spec_listing(items) + seq!['\t'] + x + seq![
            '\n'
        ]);
    } else {
        assert(items.push(x).drop_first() =~~= items.drop_first().push(x));
        lemma_listing_push(items.drop_first(), x);
        assert(spec_listing(items.push(x)) =~= spec_listing(items) + seq!['\t'] + x + seq![
            '\n'
        ]);
    }
}

/// The persisted form: every bookmark followed by one newline.
pub open spec fn spec_render(items: Seq<Seq<char>>) -> Seq<char>
    decreases items.len(),
{
    if items.len() == 0 {
        Seq::<char>::empty()
    } else {
        items[0] + seq!['\n'] + spec_render(items.drop_first())
    }
}

/// What loading keeps of a stored file: its lines, without the empty ones.
pub open spec fn spec_parse_lines(ls: Seq<Seq<char>>) -> Seq<Seq<char>>
    decreases ls.len(),
{
    if ls.len() == 0 {
        Seq::<Seq<char>>::empty()
    } else {
        let rest = spec_parse_lines(ls.drop_first());
        if ls[0].len() == 0 {
            rest
        } else {
            seq![ls[0]] + rest
        }
    }
}

/// The bookmarks held in a stored file.
pub open spec fn spec_parse(s: Seq<char>) -> Seq<Seq<char>> {
    spec_parse_lines(lines_of(s))
}

/// One more rendered item lands at the end of the file text.
proof fn lemma_render_push(items: Seq<Seq<char>>, x: Seq<char>)
    ensures
        spec_render(items.push(x)) == spec_render(items) + x + seq!['\n'],
    decreases items.len(),
{
    reveal_with_fuel(spec_render, 3);
    if items.len() == 0 {
        assert(items.push(x).drop_first() =~~= Seq::<Seq<char>>::empty());
        assert(items.push(x)[0] == x);
        assert(spec_render(items.push(x)) =~= spec_render(items) + x + seq!['\n']);
    } else {
        assert(items.push(x).drop_first() =~~= items.drop_first().push(x));
        lemma_render_push(items.drop_first(), x);
        assert(spec_render(items.push(x)) =~= spec_render(items) + x + seq!['\n']);
    }
}

/// One more parsed line lands at the end of the item list (or nowhere, if
/// empty).
proof fn lemma_parse_lines_push(ls: Seq<Seq<char>>, x: Seq<char>)
    ensures
        spec_parse_lines(ls.push(x)) == if x.len() == 0 {
            spec_parse_lines(ls)
        } else {
            spec_parse_lines(ls).push(x)
        },
    decreases ls.len(),
{
    reveal_with_fuel(spec_parse_lines, 3);
    if ls.len() == 0 {
        assert(ls.push(x).drop_first() =~~= Seq::<Seq<char>>::empty());
        assert(ls.push(x)[0] == x);
        if x.len() != 0 {
            assert(spec_parse_lines(ls.push(x)) =~~= spec_parse_lines(ls).push(x));
        }
    } else {
        assert(ls.push(x).drop_first() =~~= ls.drop_first().push(x));
        lemma_parse_lines_push(ls.drop_first(), x);
        if x.len() == 0 {
        } else {
            assert(spec_parse_lines(ls.push(x)) =~~= spec_parse_lines(ls).push(x));
        }
    }
}

/// Prepending one newline-free line and a newline prepends exactly that line
/// to the decomposition.
proof fn lemma_lines_of_line_concat(a: Seq<char>, b: Seq<char>)
    requires
        !a.contains('\n'),
    ensures
        lines_of(a + seq!['\n'] + b) == seq![a] + lines_of(b),
    decreases a.len(),
{
    let s = a + seq!['\n'] + b;
    if a.len() == 0 {
        assert(s[0] == '\n');
        assert(s.skip(1) =~= b);
        assert(lines_of(s) =~~= seq![a] + lines_of(b));
    } else {
        assert(a[0] != '\n');
        assert(s[0] == a[0]);
        assert(s.skip(1) =~= a.skip(1) + seq!['\n'] + b);
        assert(forall|i: int| 0 <= i < a.skip(1).len() ==> a.skip(1)[i] == a[i + 1]);
        assert(!a.skip(1).contains('\n'));
        lemma_lines_of_line_concat(a.skip(1), b);
        let rest = lines_of(a.skip(1) + seq!['\n'] + b);
        assert(rest[0] == a.skip(1));
        assert(seq![a[0]] + rest[0] =~= a);
        assert(rest.skip(1) =~~= lines_of(b));
        assert(lines_of(s) =~~= seq![a] + lines_of(b));
    }
}

/// A saved-then-reloaded list equals the in-memory list at save time, for
/// lists whose entries are the kind the dashboard records: non-empty and
/// without embedded newlines.
pub proof fn lemma_save_load_round_trip(items: Seq<Seq<char>>)
    requires
        forall|i: int| 0 <= i < items.len() ==> #[trigger] items[i].len() > 0,
        forall|i: int| 0 <= i < items.len() ==> !(#[trigger] items[i]).contains('\n'),
    ensures
        spec_parse(spec_render(items)) == items,
    decreases items.len(),
{
    reveal_with_fuel(spec_render, 3);
    reveal_with_fuel(spec_parse_lines, 3);
    reveal_with_fuel(lines_of, 3);
    if items.len() == 0 {
        assert(spec_render(items) =~= Seq::<char>::empty());
        assert(lines_of(Seq::<char>::empty()) =~~= seq![Seq::<char>::empty()]);
        assert(spec_parse(spec_render(items)) =~~= items);
    } else {
        let hd = items[0];
        let tl = items.drop_first();
        assert(forall|i: int| 0 <= i < tl.len() ==> tl[i] == items[i + 1]);
        lemma_save_load_round_trip(tl);
        assert(items[0].len() > 0);
        assert(!items[0].contains('\n'));
        lemma_lines_of_line_concat(hd, spec_render(tl));
        assert(spec_render(items) =~= hd + seq!['\n'] + spec_render(tl));
        assert(lines_of(spec_render(items)) =~~= seq![hd] + lines_of(spec_render(tl)));
        let ls = lines_of(spec_render(tl));
        assert((seq![hd] + ls).drop_first() =~~= ls);
        assert(spec_parse_lines(seq![hd] + ls) =~~= seq![hd] + spec_parse_lines(ls));
        assert(spec_parse(spec_render(items)) =~~= items);
    }
}

/// The text written to the bookmark store: one entry per line.
pub fn render_bookmarks(items: &Vec<String>) -> (r: String)
    ensures
        r@ == spec_render(items.deep_view()),
{
    let ghost its = items.deep_view();
    let n = items.len();
    let mut out = String::new();
    let mut i: usize = 0;
    while i < n
        invariant
            n == items@.len(),
            i <= n,
            its == items.deep_view(),
            out@ == spec_render(its.take(i as int)),
        decreases n - i,
    {
        out.append(items[i].as_str());
        out.append("\n");
        proof {
            reveal_strlit("\n");
            assert("\n"@ =~= seq!['\n']);
            assert(its.take(i + 1) =~~= its.take(i as int).push(its[i as int]));
            lemma_render_push(its.take(i as int), its[i as int]);
            assert(out@ =~= spec_render(its.take(i + 1)));
        }
        i = i + 1;
    }
    proof {
        assert(its.take(n as int) =~~= its);
    }
    out
}

/// The entries held in a bookmark store's text: its lines, without the empty
/// ones.
pub fn parse_bookmarks(raw: &str) -> (r: Vec<String>)
    ensures
        r.deep_view() == spec_parse(raw@),
{
    let cs = chars_of(raw);
    let lines = split_lines(&cs);
    let ghost ls = lines.deep_view();
    let n = lines.len();
    let mut out: Vec<String> = Vec::new();
    let mut i: usize = 0;
    while i < n
        invariant
            n == lines@.len(),
            i <= n,
            ls == lines.deep_view(),
            out.deep_view() == spec_parse_lines(ls.take(i as int)),
        decreases n - i,
    {
        proof {
            assert(lines@[i as int]@ =~= ls[i as int]);
            assert(ls.take(i + 1) =~~= ls.take(i as int).push(ls[i as int]));
            lemma_parse_lines_push(ls.take(i as int), ls[i as int]);
        }
        if lines[i].len() > 0 {
            let ghost prev = out.deep_view();
            let entry = string_from_chars(&lines[i]);
            out.push(entry);
            proof {
                assert(out.deep_view() =~~= prev.push(ls[i as int]));
            }
        }
        i = i + 1;
    }
    proof {
        assert(ls.take(n as int) =~~= ls);
    }
    out
}

} // verus!
