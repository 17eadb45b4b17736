//! The message picker: choose one or more of the agent's recent messages,
//! newest first. The newest assistant message (or the newest candidate when
//! there is none) is already open behind it.

use vstd::prelude::*;
use vstd::string::*;

use crate::last::{
    first_assistant, first_assistant_from, lemma_first_assistant, message_source, message_source_of, messages_source,
    messages_source_of,
};
use crate::geometry::PickRect;
use crate::message::{DocumentSource, Message, ProvenanceView, Role};
use crate::text::{decimal, decimal_string};

verus! {

/// What the screen is doing.
#[derive(Clone, Copy, Debug, PartialEq, Eq, Structural)]
pub enum Mode {
    /// Reading the open document.
    Browse,
    /// Choosing among the candidate messages.
    Pick,
}

/// Why the picker could not open.
#[derive(Clone, Copy, Debug, PartialEq, Eq, Structural)]
pub enum PickError {
    /// There was no candidate message to open.
    NoMessage,
}

/// The status shown when the picker is asked to open nothing.
pub const PICK_EMPTY_STATUS: &'static str = "select at least one message before opening";

/// A key press, as the picker reads it.
#[derive(Clone, Copy, Debug, PartialEq, Eq, Structural)]
pub enum PickKey {
    Char(char),
    Up,
    Down,
    Enter,
    Esc,
    /// Any other key, which the picker ignores.
    Other,
}

/// A mouse event, as the picker reads it: whether it is a press of the left
/// button, and the cell it happened at.
#[derive(Clone, Copy, Debug, PartialEq, Eq, Structural)]
pub struct PickMouse {
    pub left_press: bool,
    pub column: u16,
    pub row: u16,
}

/// The number of set flags in `s`.
pub open spec fn count_true(s: Seq<bool>) -> nat
    decreases s.len(),
{
    if s.len() == 0 {
        0
    } else {
        count_true(s.drop_last()) + if s.last() {
            1nat
        } else {
            0nat
        }
    }
}

/// The index of the first set flag of `s` at or after `from`, or `s.len()`.
pub open spec fn first_true_from(s: Seq<bool>, from: int) -> int
    decreases s.len() - from,
{
    if from < 0 || from >= s.len() {
        s.len() as int
    } else if s[from] {
        from
    } else {
        first_true_from(s, from + 1)
    }
}

/// The candidates of `c` whose flag in `s` is set, in the order of `c`.
pub open spec fn selected_of(c: Seq<Message>, s: Seq<bool>) -> Seq<Message>
    decreases s.len(),
{
    if s.len() == 0 {
        Seq::empty()
    } else if s.last() {
        selected_of(c, s.drop_last()).push(c[s.len() - 1])
    } else {
        selected_of(c, s.drop_last())
    }
}

/// The candidates opened for a selection are exactly the selected ones, in
/// candidate order, one per set flag: the law gives the indices `idx` they
/// come from, strictly increasing, each selected, and covering every
/// selected index.
pub proof fn law_selected_candidates(c: Seq<Message>, s: Seq<bool>) -> (idx: Seq<int>)
    requires
        s.len() <= c.len(),
    ensures
        selected_of(c, s).len() == count_true(s),
        idx.len() == selected_of(c, s).len(),
        forall|k: int| 0 <= k < idx.len() ==> 0 <= #[trigger] idx[k] < s.len() && s[idx[k]],
        forall|k: int| 0 <= k < idx.len() ==> #[trigger] selected_of(c, s)[k] == c[idx[k]],
        forall|k: int, l: int| 0 <= k < l < idx.len() ==> #[trigger] idx[k] < #[trigger] idx[l],
        forall|i: int| 0 <= i < s.len() && #[trigger] s[i] ==> idx.contains(i),
        forall|i: int| 0 <= i < s.len() && s[i] ==> selected_of(c, s).contains(#[trigger] c[i]),
    decreases s.len(),
{
    if s.len() == 0 {
        Seq::empty()
    } else {
        let t = s.drop_last();
        let prev = law_selected_candidates(c, t);
        let n = s.len() - 1;
        let idx = if s.last() {
            prev.push(n)
        } else {
            prev
        };
        assert forall|i: int| 0 <= i < s.len() && #[trigger] s[i] implies idx.contains(i) by {
            if i < n {
                assert(t[i] == s[i]);
                let k = choose|k: int| 0 <= k < prev.len() && prev[k] == i;
                assert(idx[k] == i);
            } else {
                assert(idx[idx.len() - 1] == i);
            }
        }
        assert forall|i: int| 0 <= i < s.len() && s[i] implies selected_of(c, s).contains(
            #[trigger] c[i],
        ) by {
            assert(idx.contains(i));
            let k = choose|k: int| 0 <= k < idx.len() && idx[k] == i;
            assert(selected_of(c, s)[k] == c[i]);
        }
        idx
    }
}

/// The first drawn row, at or after `from`, whose top row holds the cell.
pub open spec fn first_hit_from(rows: Seq<(PickRect, usize)>, column: u16, row: u16, from: int) -> int
    decreases rows.len() - from,
{
    if from < 0 || from >= rows.len() {
        rows.len() as int
    } else if rows[from].0.hits_top_row(column, row) {
        from
    } else {
        first_hit_from(rows, column, row, from + 1)
    }
}

proof fn lemma_count_true_bound(s: Seq<bool>)
    ensures
        count_true(s) <= s.len(),
        count_true(s) > 0 ==> first_true_from(s, 0) < s.len(),
    decreases s.len(),
{
    if s.len() > 0 {
        let t = s.drop_last();
        lemma_count_true_bound(t);
        if count_true(s) > 0 {
            lemma_first_true_prefix(s, 0);
        }
    }
}

proof fn lemma_first_true_prefix(s: Seq<bool>, from: int)
    requires
        0 <= from < s.len(),
    ensures
        first_true_from(s, from) < s.len() || (forall|j: int| from <= j < s.len() ==> !#[trigger] s[j]),
        first_true_from(s.drop_last(), from) < s.len() - 1 ==> first_true_from(s, from)
            == first_true_from(s.drop_last(), from),
        first_true_from(s.drop_last(), from) == s.len() - 1 ==> first_true_from(s, from) == (
        if s.last() {
            s.len() - 1
        } else {
            s.len() as int
        }),
    decreases s.len() - from,
{
    if from + 1 < s.len() {
        assert(s.drop_last()[from] == s[from]);
        if !s[from] {
            lemma_first_true_prefix(s, from + 1);
        }
    } else {
        assert(s.last() == s[from]);
        assert(first_true_from(s, from + 1) == s.len());
    }
}

/// Whatever the picker opens is transient, never written to the data
/// directory, and names the host and transcript the candidates came from.
pub proof fn law_opened_selection_is_transient(old: App, new: App)
    requires
        App::opened_selection(&old, &new),
        count_true(old.pick_selected@) > 0,
    ensures
        new.open.transient,
        new.open@.provenance matches ProvenanceView::AgentMessage { host, session, .. } && host
            == old.message_host@ && session == Some(old.message_transcript@),
{
}

/// Flipping the same candidate twice restores the selection.
pub proof fn law_toggle_twice(s: Seq<bool>, i: int)
    ensures
        toggled(toggled(s, i), i) == s,
{
    if 0 <= i < s.len() {
        assert(toggled(toggled(s, i), i) =~= s);
    }
}

proof fn lemma_count_true_update(s: Seq<bool>, i: int, b: bool)
    requires
        0 <= i < s.len(),
    ensures
        count_true(s.update(i, b)) + (if s[i] {
            1int
        } else {
            0int
        }) == count_true(s) + (if b {
            1int
        } else {
            0int
        }),
    decreases s.len(),
{
    let u = s.update(i, b);
    if i == s.len() - 1 {
        assert(u.drop_last() =~= s.drop_last());
    } else {
        assert(u.drop_last() =~= s.drop_last().update(i, b));
        lemma_count_true_update(s.drop_last(), i, b);
    }
}

/// Flipping a candidate changes the number of selected candidates by one:
/// up when it was not selected, down when it was.
pub proof fn law_toggle_count(s: Seq<bool>, i: int)
    requires
        0 <= i < s.len(),
    ensures
        count_true(toggled(s, i)) == (if s[i] {
            count_true(s) - 1
        } else {
            count_true(s) + 1int
        }),
{
    lemma_count_true_update(s, i, !s[i]);
}

/// The status after opening candidate `index` of `n` on its own.
pub open spec fn one_selected_status(index: nat, n: nat) -> Seq<char> {
    "message "@ + decimal(index + 1) + " of "@ + decimal(n)
}

/// The status after opening `k` selected candidates together.
pub open spec fn many_selected_status(k: nat) -> Seq<char> {
    decimal(k) + " messages selected"@
}

/// The open review screen with its message picker.
pub struct App {
    /// The document on screen.
    pub open: DocumentSource,
    /// The layout width the document was opened at.
    pub width: usize,
    pub mode: Mode,
    pub status: Option<String>,
    pub quit: bool,
    pub scroll: usize,
    pub selected: usize,
    pub cursor: (usize, usize),
    pub rail_cursor: usize,
    /// The host and transcript the candidates came from.
    pub message_host: String,
    pub message_transcript: String,
    /// The candidate messages, newest first.
    pub candidates: Vec<Message>,
    /// Which candidates are selected, one flag per candidate.
    pub pick_selected: Vec<bool>,
    /// The candidate under the picker's cursor.
    pub pick_cursor: usize,
    /// The screen row of each listed candidate, as last drawn.
    pub pick_rows: Vec<(PickRect, usize)>,
}

/// The last index of a list of `n` items, or 0 when it is empty.
pub open spec fn last_index(n: nat) -> nat {
    if n == 0 {
        0
    } else {
        (n - 1) as nat
    }
}

/// `s` with the flag at `i` flipped; unchanged when `i` is out of range.
pub open spec fn toggled(s: Seq<bool>, i: int) -> Seq<bool> {
    if 0 <= i < s.len() {
        s.update(i, !s[i])
    } else {
        s
    }
}

impl App {
    /// One selection flag per candidate, the cursor on a candidate (or at 0),
    /// and every drawn row naming a candidate.
    pub open spec fn wf(&self) -> bool {
        &&& self.pick_selected@.len() == self.candidates@.len()
        &&& self.pick_cursor <= last_index(self.candidates@.len())
        &&& forall|k: int|
            0 <= k < self.pick_rows@.len() ==> #[trigger] self.pick_rows@[k].1
                < self.candidates@.len()
    }

    /// The same document on screen, at the same place.
    pub open spec fn same_document(&self, other: &App) -> bool {
        &&& self.open == other.open
        &&& self.scroll == other.scroll
        &&& self.selected == other.selected
        &&& self.cursor == other.cursor
        &&& self.rail_cursor == other.rail_cursor
    }

    /// The same candidates, from the same place, drawn at the same rows.
    pub open spec fn same_candidates(&self, other: &App) -> bool {
        &&& self.width == other.width
        &&& self.message_host == other.message_host
        &&& self.message_transcript == other.message_transcript
        &&& self.candidates == other.candidates
        &&& self.pick_rows == other.pick_rows
    }

    /// `new` is `old` with only the picker's cursor moved, to `cursor`.
    pub open spec fn cursor_moved(old: &App, new: &App, cursor: usize) -> bool {
        &&& new.pick_cursor == cursor
        &&& new.same_document(old)
        &&& new.same_candidates(old)
        &&& new.mode == old.mode
        &&& new.status == old.status
        &&& new.quit == old.quit
        &&& new.pick_selected == old.pick_selected
    }

    /// `new` is `old` with the selection of candidate `index` flipped: the
    /// status clears when there is such a candidate, and nothing else changes.
    pub open spec fn pick_toggled(old: &App, new: &App, index: usize) -> bool {
        &&& new.pick_selected@ == toggled(old.pick_selected@, index as int)
        &&& new.status == (if index < old.pick_selected@.len() {
            None
        } else {
            old.status
        })
        &&& new.same_document(old)
        &&& new.same_candidates(old)
        &&& new.mode == old.mode
        &&& new.quit == old.quit
        &&& new.pick_cursor == old.pick_cursor
    }

    /// `new` is `old` after asking to open what the picker has selected: with
    /// nothing selected the picker stays and says so; one selected candidate
    /// opens as itself; several open as one chronological conversation. The
    /// view then returns to browsing at the top of the new document.
    pub open spec fn opened_selection(old: &App, new: &App) -> bool {
        let sel = old.pick_selected@;
        let c = old.candidates@;
        let k = count_true(sel);
        &&& new.same_candidates(old)
        &&& new.pick_selected == old.pick_selected
        &&& new.pick_cursor == old.pick_cursor
        &&& new.quit == old.quit
        &&& if k == 0 {
            &&& new.same_document(old)
            &&& new.mode == old.mode
            &&& (new.status matches Some(t) && t@ == PICK_EMPTY_STATUS@)
        } else {
            &&& new.mode == Mode::Browse
            &&& new.scroll == 0 && new.selected == 0 && new.cursor == (0usize, 0usize)
                && new.rail_cursor == 0
            &&& new.open@ == (if k == 1 {
                message_source_of(old.message_host@, old.message_transcript@, c[first_true_from(sel, 0)])
            } else {
                messages_source_of(old.message_host@, old.message_transcript@, selected_of(c, sel))
            })
            &&& (new.status matches Some(t) && t@ == (if k == 1 {
                one_selected_status(first_true_from(sel, 0) as nat, c.len())
            } else {
                many_selected_status(k)
            }))
        }
    }

    /// What a key press does to the picker.
    pub open spec fn key_pressed(old: &App, new: &App, key: PickKey) -> bool {
        if key == PickKey::Char('j') || key == PickKey::Down {
            App::cursor_moved(old, new, if old.pick_cursor + 1 <= last_index(old.candidates@.len()) {
                (old.pick_cursor + 1) as usize
            } else {
                last_index(old.candidates@.len()) as usize
            })
        } else if key == PickKey::Char('k') || key == PickKey::Up {
            App::cursor_moved(old, new, old.pick_cursor.saturating_sub(1))
        } else if key == PickKey::Char(' ') {
            App::pick_toggled(old, new, old.pick_cursor)
        } else if key == PickKey::Enter {
            App::opened_selection(old, new)
        } else if key == PickKey::Esc {
            &&& new.status is None
            &&& new.mode == Mode::Browse
            &&& new.same_document(old)
            &&& new.same_candidates(old)
            &&& new.quit == old.quit
            &&& new.pick_selected == old.pick_selected
            &&& new.pick_cursor == old.pick_cursor
        } else if key == PickKey::Char('q') {
            &&& new.quit
            &&& new.same_document(old)
            &&& new.same_candidates(old)
            &&& new.mode == old.mode
            &&& new.status == old.status
            &&& new.pick_selected == old.pick_selected
            &&& new.pick_cursor == old.pick_cursor
        } else {
            *new == *old
        }
    }

    /// A screen showing `source`, with no candidates to pick from.
    pub fn open(source: DocumentSource, width: usize) -> (r: App)
        ensures
            r.open == source,
            r.width == width,
            r.mode == Mode::Browse,
            r.status is None,
            !r.quit,
            r.scroll == 0 && r.selected == 0 && r.cursor == (0usize, 0usize) && r.rail_cursor == 0,
            r.message_host@ == Seq::<char>::empty(),
            r.message_transcript@ == Seq::<char>::empty(),
            r.candidates@.len() == 0,
            r.pick_selected@.len() == 0,
            r.pick_cursor == 0,
            r.pick_rows@.len() == 0,
            r.wf(),
    {
        App {
            open: source,
            width,
            mode: Mode::Browse,
            status: None,
            quit: false,
            scroll: 0,
            selected: 0,
            cursor: (0, 0),
            rail_cursor: 0,
            message_host: String::new(),
            message_transcript: String::new(),
            candidates: Vec::new(),
            pick_selected: Vec::new(),
            pick_cursor: 0,
            pick_rows: Vec::new(),
        }
    }

    /// Open with `messages` (newest first) as candidates, showing the newest
    /// assistant message, or the newest message when no assistant message is
    /// among them; the picker shows when there is a choice to make.
    pub fn open_message(host: &str, transcript: &str, messages: Vec<Message>, width: usize) -> (r:
        Result<App, PickError>)
        ensures
            messages@.len() == 0 <==> r is Err,
            r matches Err(e) ==> e == PickError::NoMessage,
            r matches Ok(app) ==> {
                let shown = if first_assistant(messages@) < messages@.len() {
                    first_assistant(messages@)
                } else {
                    0
                };
                &&& app.open@ == message_source_of(host@, transcript@, messages@[shown])
                &&& app.width == width
                &&& app.mode == (if messages@.len() > 1 {
                    Mode::Pick
                } else {
                    Mode::Browse
                })
                &&& app.status is None
                &&& !app.quit
                &&& app.scroll == 0 && app.selected == 0 && app.cursor == (0usize, 0usize)
                    && app.rail_cursor == 0
                &&& app.message_host@ == host@
                &&& app.message_transcript@ == transcript@
                &&& app.candidates@ == messages@
                &&& app.pick_selected@ == Seq::new(messages@.len(), |i: int| false)
                &&& app.pick_cursor == 0
                &&& app.pick_rows@.len() == 0
                &&& app.wf()
            },
    {
        let n = messages.len();
        if n == 0 {
            return Err(PickError::NoMessage);
        }
        proof {
            lemma_first_assistant(messages@, 0);
        }
        let mut i: usize = 0;
        while i < n && messages[i].role != Role::Assistant
            invariant
                n == messages@.len(),
                i <= n,
                first_assistant(messages@) == first_assistant_from(messages@, i as int),
            decreases n - i,
        {
            i = i + 1;
        }
        let shown = if i < n {
            i
        } else {
            0
        };
        let source = message_source(host, transcript, &messages[shown]);
        let mut app = App::open(source, width);
        app.message_host = host.to_owned();
        app.message_transcript = transcript.to_owned();
        app.pick_selected = vec![false; n];
        app.candidates = messages;
        if app.candidates.len() > 1 {
            app.mode = Mode::Pick;
        }
        assert(app.pick_selected@ =~= Seq::new(n as nat, |i: int| false));
        Ok(app)
    }

    /// Flip the selection of candidate `index`; nothing happens when there is
    /// no such candidate.
    pub fn toggle_pick(&mut self, index: usize)
        requires
            old(self).wf(),
        ensures
            final(self).wf(),
            App::pick_toggled(&*old(self), &*final(self), index),
    {
        if index < self.pick_selected.len() {
            let flag = self.pick_selected[index];
            self.pick_selected.set(index, !flag);
            self.status = None;
        }
    }

    /// Show the picker again, when there is a choice to make.
    pub fn reopen_picker(&mut self)
        ensures
            final(self).mode == (if old(self).candidates@.len() > 1 {
                Mode::Pick
            } else {
                old(self).mode
            }),
            final(self).status == old(self).status,
            final(self).quit == old(self).quit,
            final(self).pick_selected == old(self).pick_selected,
            final(self).pick_cursor == old(self).pick_cursor,
            final(self).same_document(&*old(self)),
            final(self).same_candidates(&*old(self)),
    {
        if self.candidates.len() > 1 {
            self.mode = Mode::Pick;
        }
    }
}

impl App {
    /// The number of selected candidates.
    pub(crate) fn selected_count(&self) -> (r: usize)
        ensures
            r == count_true(self.pick_selected@),
    {
        let n = self.pick_selected.len();
        let mut count: usize = 0;
        let mut i: usize = 0;
        while i < n
            invariant
                n == self.pick_selected@.len(),
                i <= n,
                count == count_true(self.pick_selected@.take(i as int)),
                count <= i,
            decreases n - i,
        {
            proof {
                assert(self.pick_selected@.take(i + 1).drop_last() =~= self.pick_selected@.take(
                    i as int,
                ));
            }
            if self.pick_selected[i] {
                count = count + 1;
            }
            i = i + 1;
        }
        assert(self.pick_selected@.take(n as int) =~= self.pick_selected@);
        count
    }

    /// Swap the open document for the message or messages selected in the
    /// picker.
    pub fn open_selected(&mut self)
        requires
            old(self).wf(),
        ensures
            final(self).wf(),
            App::opened_selection(&*old(self), &*final(self)),
    {
        let selected_count = self.selected_count();
        if selected_count == 0 {
            self.status = Some(PICK_EMPTY_STATUS.to_owned());
            return ;
        }
        let ghost sel = self.pick_selected@;
        let n = self.candidates.len();
        let (source, status) = if selected_count == 1 {
            proof {
                lemma_count_true_bound(sel);
            }
            let mut index: usize = 0;
            while index < n && !self.pick_selected[index]
                invariant
                    n == self.candidates@.len(),
                    n == sel.len(),
                    sel == self.pick_selected@,
                    index <= n,
                    first_true_from(sel, 0) == first_true_from(sel, index as int),
                decreases n - index,
            {
                index = index + 1;
            }
            let source = message_source(
                self.message_host.as_str(),
                self.message_transcript.as_str(),
                &self.candidates[index],
            );
            let mut status = "message ".to_owned();
            let shown = decimal_string(index + 1);
            status.append(shown.as_str());
            status.append(" of ");
            let total = decimal_string(n);
            status.append(total.as_str());
            (source, status)
        } else {
            let mut messages: Vec<Message> = Vec::new();
            let mut i: usize = 0;
            while i < n
                invariant
                    n == self.candidates@.len(),
                    n == sel.len(),
                    sel == self.pick_selected@,
                    i <= n,
                    messages@ == selected_of(self.candidates@, sel.take(i as int)),
                decreases n - i,
            {
                proof {
                    assert(sel.take(i + 1).drop_last() =~= sel.take(i as int));
                }
                if self.pick_selected[i] {
                    messages.push(self.candidates[i].clone());
                }
                i = i + 1;
            }
            assert(sel.take(n as int) =~= sel);
            let source = messages_source(
                self.message_host.as_str(),
                self.message_transcript.as_str(),
                messages.as_slice(),
            );
            let mut status = decimal_string(selected_count);
            status.append(" messages selected");
            (source, status)
        };
        self.open = source;
        self.scroll = 0;
        self.selected = 0;
        self.cursor = (0, 0);
        self.rail_cursor = 0;
        self.mode = Mode::Browse;
        self.status = Some(status);
    }

    /// Move, select or open in the picker as the key asks.
    pub fn pick_key(&mut self, key: PickKey)
        requires
            old(self).wf(),
        ensures
            final(self).wf(),
            App::key_pressed(&*old(self), &*final(self), key),
    {
        let last = self.candidates.len().saturating_sub(1);
        match key {
            PickKey::Char('j') | PickKey::Down => {
                let next = self.pick_cursor + 1;
                self.pick_cursor = if next <= last {
                    next
                } else {
                    last
                };
            },
            PickKey::Char('k') | PickKey::Up => {
                self.pick_cursor = self.pick_cursor.saturating_sub(1);
            },
            PickKey::Char(' ') => {
                let cursor = self.pick_cursor;
                self.toggle_pick(cursor);
            },
            PickKey::Enter => {
                self.open_selected();
            },
            PickKey::Esc => {
                self.status = None;
                self.mode = Mode::Browse;
            },
            PickKey::Char('q') => {
                self.quit = true;
            },
            _ => {},
        }
    }

    /// A left click on a listed candidate moves the cursor there and flips its
    /// selection; any other mouse event is ignored.
    pub fn pick_mouse(&mut self, mouse: PickMouse)
        requires
            old(self).wf(),
        ensures
            final(self).wf(),
            ({
                let hit = first_hit_from(old(self).pick_rows@, mouse.column, mouse.row, 0);
                if mouse.left_press && hit < old(self).pick_rows@.len() {
                    let index = old(self).pick_rows@[hit].1;
                    &&& final(self).pick_cursor == index
                    &&& final(self).pick_selected@ == toggled(old(self).pick_selected@, index as int)
                    &&& final(self).status is None
                    &&& final(self).same_document(&*old(self))
                    &&& final(self).same_candidates(&*old(self))
                    &&& final(self).mode == old(self).mode
                    &&& final(self).quit == old(self).quit
                } else {
                    *final(self) == *old(self)
                }
            }),
    {
        if !mouse.left_press {
            return ;
        }
        let n = self.pick_rows.len();
        let mut k: usize = 0;
        while k < n && !(self.pick_rows[k].0.y == mouse.row && mouse.column >= self.pick_rows[k].0.x
            && mouse.column < self.pick_rows[k].0.right())
            invariant
                n == self.pick_rows@.len(),
                k <= n,
                first_hit_from(self.pick_rows@, mouse.column, mouse.row, 0) == first_hit_from(
                    self.pick_rows@,
                    mouse.column,
                    mouse.row,
                    k as int,
                ),
            decreases n - k,
        {
            k = k + 1;
        }
        if k < n {
            let index = self.pick_rows[k].1;
            self.pick_cursor = index;
            self.toggle_pick(index);
        }
    }
}

} // verus!
