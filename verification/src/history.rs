//! A linear undo/redo history: an ordered list of past values with a
//! cursor marking the current one, and a three-state push mode that
//! lets a drag gesture coalesce into a single history entry.

use vstd::prelude::*;

verus! {

/// How the next `push` treats the history.
#[derive(Clone, Copy, PartialEq, Eq, Structural, Debug)]
pub enum Mode {
    /// Each pushed value becomes a new history entry.
    Normal,
    /// A block was opened: the next push appends one new entry, then
    /// switches to `InBlock`.
    StartBlock,
    /// Inside a block: every push overwrites the current entry.
    InBlock,
}

/// The mathematical model of an undo history: the entries, the cursor
/// marking the current one, and the push mode.
pub struct HistoryModel<T> {
    pub entries: Seq<T>,
    pub cursor: int,
    pub mode: Mode,
}

impl<T> HistoryModel<T> {
    /// There is always at least one entry and the cursor is in range.
    pub open spec fn wf(self) -> bool {
        0 <= self.cursor < self.entries.len()
    }

    /// The entry the cursor marks.
    pub open spec fn current(self) -> T {
        self.entries[self.cursor]
    }
}

/// Entries after a truncating append: any redo tail beyond the cursor
/// is dropped and the new entry goes at the back.
pub open spec fn truncate_push<T>(entries: Seq<T>, cursor: int, entry: T) -> Seq<T> {
    entries.take(cursor + 1).push(entry)
}

/// What `push` does to the whole history, by mode: `Normal` and
/// `StartBlock` append (clearing any redo tail) and advance the
/// cursor, `StartBlock` then entering `InBlock`; `InBlock` overwrites
/// the current entry in place.
pub open spec fn spec_push<T>(m: HistoryModel<T>, entry: T) -> HistoryModel<T> {
    match m.mode {
        Mode::Normal => HistoryModel {
            entries: truncate_push(m.entries, m.cursor, entry),
            cursor: m.cursor + 1,
            mode: Mode::Normal,
        },
        Mode::StartBlock => HistoryModel {
            entries: truncate_push(m.entries, m.cursor, entry),
            cursor: m.cursor + 1,
            mode: Mode::InBlock,
        },
        Mode::InBlock => HistoryModel {
            entries: m.entries.update(m.cursor, entry),
            cursor: m.cursor,
            mode: Mode::InBlock,
        },
    }
}

/// What `undo` does: step the cursor back, clamped at the oldest entry.
pub open spec fn spec_undo<T>(m: HistoryModel<T>) -> HistoryModel<T> {
    if m.cursor >= 1 {
        HistoryModel { entries: m.entries, cursor: m.cursor - 1, mode: m.mode }
    } else {
        m
    }
}

/// What `redo` does: step the cursor forward, clamped at the newest entry.
pub open spec fn spec_redo<T>(m: HistoryModel<T>) -> HistoryModel<T> {
    if m.cursor < m.entries.len() - 1 {
        HistoryModel { entries: m.entries, cursor: m.cursor + 1, mode: m.mode }
    } else {
        m
    }
}

/// What `start_undo_block` does: set the mode, whatever it was.
pub open spec fn spec_start_block<T>(m: HistoryModel<T>) -> HistoryModel<T> {
    HistoryModel { entries: m.entries, cursor: m.cursor, mode: Mode::StartBlock }
}

/// What `close_undo_block` does: return to `Normal`, whatever the mode was.
pub open spec fn spec_close_block<T>(m: HistoryModel<T>) -> HistoryModel<T> {
    HistoryModel { entries: m.entries, cursor: m.cursor, mode: Mode::Normal }
}

/// `vs` pushed one after the other, oldest first.
pub open spec fn spec_push_all<T>(m: HistoryModel<T>, vs: Seq<T>) -> HistoryModel<T>
    decreases vs.len(),
{
    if vs.len() == 0 {
        m
    } else {
        spec_push(spec_push_all(m, vs.drop_last()), vs.last())
    }
}

/// `undo` applied `n` times.
pub open spec fn spec_undo_n<T>(m: HistoryModel<T>, n: nat) -> HistoryModel<T>
    decreases n,
{
    if n == 0 {
        m
    } else {
        spec_undo(spec_undo_n(m, (n - 1) as nat))
    }
}

/// `redo` applied `n` times.
pub open spec fn spec_redo_n<T>(m: HistoryModel<T>, n: nat) -> HistoryModel<T>
    decreases n,
{
    if n == 0 {
        m
    } else {
        spec_redo(spec_redo_n(m, (n - 1) as nat))
    }
}

/// Law: a push outside a block leaves the cursor on the newest entry,
/// so a `redo` right after it is a no-op and the current entry is the
/// value just pushed — a new edit clears the redo tail.
pub proof fn lemma_push_clears_redo<T>(m: HistoryModel<T>, entry: T)
    requires
        m.wf(),
        m.mode != Mode::InBlock,
    ensures
        spec_push(m, entry).wf(),
        spec_push(m, entry).cursor == spec_push(m, entry).entries.len() - 1,
        spec_redo(spec_push(m, entry)) == spec_push(m, entry),
        spec_push(m, entry).current() == entry,
{
}

/// In `Normal` mode, pushing with the cursor already on the newest
/// entry appends each value in order and keeps the cursor there.
proof fn lemma_push_all_normal_at_tip<T>(m: HistoryModel<T>, vs: Seq<T>)
    requires
        m.wf(),
        m.mode == Mode::Normal,
        m.cursor == m.entries.len() - 1,
    ensures
        spec_push_all(m, vs).entries == m.entries + vs,
        spec_push_all(m, vs).cursor == m.cursor + vs.len(),
        spec_push_all(m, vs).mode == Mode::Normal,
        spec_push_all(m, vs).wf(),
    decreases vs.len(),
{
    if vs.len() == 0 {
        assert(m.entries + vs =~= m.entries);
    } else {
        lemma_push_all_normal_at_tip(m, vs.drop_last());
        let mid = spec_push_all(m, vs.drop_last());
        assert(mid.entries.take(mid.cursor + 1) =~= mid.entries);
        assert((m.entries + vs.drop_last()).push(vs.last()) =~= m.entries + vs);
    }
}

/// Law (history linearity): starting from a single-entry history in
/// `Normal` mode, pushing `vs` one by one yields `vs.len() + 1`
/// entries — the seed followed by the pushed values in order — with
/// the cursor on the newest.
pub proof fn lemma_history_linearity<T>(seed: T, vs: Seq<T>)
    ensures
        ({
            let m = spec_push_all(
                HistoryModel { entries: seq![seed], cursor: 0, mode: Mode::Normal },
                vs,
            );
            &&& m.cursor == vs.len()
            &&& m.entries.len() == vs.len() + 1
            &&& m.entries == seq![seed] + vs
            &&& m.mode == Mode::Normal
        }),
{
    lemma_push_all_normal_at_tip(
        HistoryModel { entries: seq![seed], cursor: 0, mode: Mode::Normal },
        vs,
    );
}

/// From an opened block, any nonempty run of pushes leaves exactly one
/// new entry after the old cursor, holding the last pushed value.
proof fn lemma_push_all_in_block<T>(m: HistoryModel<T>, vs: Seq<T>)
    requires
        m.wf(),
        m.mode == Mode::StartBlock,
        vs.len() >= 1,
    ensures
        spec_push_all(m, vs) == (HistoryModel {
            entries: m.entries.take(m.cursor + 1).push(vs.last()),
            cursor: m.cursor + 1,
            mode: Mode::InBlock,
        }),
    decreases vs.len(),
{
    if vs.len() == 1 {
        assert(vs.drop_last().len() == 0);
    } else {
        lemma_push_all_in_block(m, vs.drop_last());
        let mid = spec_push_all(m, vs.drop_last());
        assert(mid.entries.update(mid.cursor, vs.last()) =~= m.entries.take(m.cursor + 1).push(
            vs.last(),
        ));
    }
}

/// Law (stroke coalescing): wrapping any nonempty run of pushes in a
/// block adds exactly one history entry, holding the last pushed
/// value; the entries up to and including the pre-stroke current one
/// are untouched, and a single `undo` restores that pre-stroke entry.
pub proof fn lemma_stroke_coalescing<T>(m: HistoryModel<T>, vs: Seq<T>)
    requires
        m.wf(),
        vs.len() >= 1,
    ensures
        ({
            let m1 = spec_close_block(spec_push_all(spec_start_block(m), vs));
            &&& m1.wf()
            &&& m1.entries.len() == m.cursor + 2
            &&& m1.entries.take(m.cursor + 1) == m.entries.take(m.cursor + 1)
            &&& m1.current() == vs.last()
            &&& m1.mode == Mode::Normal
            &&& spec_undo(m1).current() == m.current()
        }),
{
    lemma_push_all_in_block(spec_start_block(m), vs);
    let m1 = spec_close_block(spec_push_all(spec_start_block(m), vs));
    assert(m1.entries.take(m.cursor + 1) =~= m.entries.take(m.cursor + 1));
    assert(spec_undo(m1).current() == m1.entries[m.cursor]);
    assert(m1.entries[m.cursor] == m.entries.take(m.cursor + 1)[m.cursor]);
}

/// Law (block coalescing): from a single-entry history, a block of
/// three pushes yields exactly two entries with the last pushed value
/// current; one `undo` restores the pre-block entry, not an
/// intermediate one.
pub proof fn lemma_block_coalescing<T>(m: HistoryModel<T>, a: T, b: T, c: T)
    requires
        m.entries.len() == 1,
        m.cursor == 0,
    ensures
        ({
            let m1 = spec_close_block(
                spec_push(spec_push(spec_push(spec_start_block(m), a), b), c),
            );
            &&& m1.wf()
            &&& m1.entries.len() == 2
            &&& m1.current() == c
            &&& spec_undo(m1).current() == m.entries[0]
        }),
{
    let vs = seq![a, b, c];
    let s0 = spec_start_block(m);
    assert(vs.drop_last() =~= seq![a, b]);
    assert(seq![a, b].drop_last() =~= seq![a]);
    assert(seq![a].drop_last() =~= Seq::<T>::empty());
    assert(vs.last() == c);
    assert(seq![a, b].last() == b);
    assert(seq![a].last() == a);
    assert(spec_push_all(s0, Seq::<T>::empty()) == s0);
    assert(spec_push_all(s0, seq![a]) == spec_push(s0, a));
    assert(spec_push_all(s0, seq![a, b]) == spec_push(spec_push(s0, a), b));
    assert(spec_push_all(s0, vs) == spec_push(spec_push(spec_push(s0, a), b), c));
    lemma_stroke_coalescing(m, vs);
}

/// Law (idempotent clamping): repeated `undo` never moves the cursor
/// below the oldest entry and repeated `redo` never moves it past the
/// newest; from `cursor` (resp. `len - 1 - cursor`) repetitions on,
/// more repetitions change nothing, and neither operation ever
/// touches the entries or the mode.
pub proof fn lemma_undo_redo_clamped<T>(m: HistoryModel<T>, n: nat)
    requires
        m.wf(),
    ensures
        spec_undo_n(m, n).entries == m.entries,
        spec_undo_n(m, n).mode == m.mode,
        spec_undo_n(m, n).cursor == if n <= m.cursor {
            m.cursor - n
        } else {
            0
        },
        spec_redo_n(m, n).entries == m.entries,
        spec_redo_n(m, n).mode == m.mode,
        spec_redo_n(m, n).cursor == if m.cursor + n < m.entries.len() {
            m.cursor + n
        } else {
            m.entries.len() - 1
        },
    decreases n,
{
    if n > 0 {
        lemma_undo_redo_clamped(m, (n - 1) as nat);
    }
}

/// A linear undo/redo stack over values of `T`.
pub struct UndoQueue<T: Clone> {
    queue: Vec<T>,
    index: usize,
    mode: Mode,
}

impl<T: Clone> View for UndoQueue<T> {
    type V = HistoryModel<T>;

    closed spec fn view(&self) -> HistoryModel<T> {
        HistoryModel { entries: self.queue@, cursor: self.index as int, mode: self.mode }
    }
}

impl<T: Clone> UndoQueue<T> {
    /// A history holding just `entry`, current, in `Normal` mode.
    pub fn new(entry: T) -> (r: UndoQueue<T>)
        ensures
            r@.wf(),
            r@.entries == seq![entry],
            r@.cursor == 0,
            r@.mode == Mode::Normal,
    {
        let mut queue: Vec<T> = Vec::new();
        queue.push(entry);
        UndoQueue { queue, index: 0, mode: Mode::Normal }
    }

    /// A copy of the current entry.
    pub fn current(&self) -> (r: T)
        requires
            self@.wf(),
        ensures
            vstd::pervasive::cloned::<T>(self@.current(), r),
    {
        self.queue[self.index].clone()
    }

    /// How many entries the history holds.
    pub fn len(&self) -> (r: usize)
        ensures
            r == self@.entries.len(),
    {
        self.queue.len()
    }

    /// The cursor position: the index of the current entry.
    pub fn cursor(&self) -> (r: usize)
        ensures
            r == self@.cursor,
    {
        self.index
    }

    /// Open a coalescing block (a drag gesture): the next push appends
    /// one entry, every later one overwrites it, until the block closes.
    pub fn start_undo_block(&mut self)
        ensures
            final(self)@ == spec_start_block(old(self)@),
    {
        self.mode = Mode::StartBlock;
    }

    /// Close a coalescing block: back to `Normal`, whatever the mode was.
    pub fn close_undo_block(&mut self)
        ensures
            final(self)@ == spec_close_block(old(self)@),
    {
        self.mode = Mode::Normal;
    }

    /// Record `entry` according to the current mode (see `spec_push`).
    pub fn push(&mut self, entry: T)
        requires
            old(self)@.wf(),
        ensures
            final(self)@.wf(),
            final(self)@ == spec_push(old(self)@, entry),
    {
        // Reading the length pins `queue@.len()` within `usize`, so
        // advancing the cursor below cannot overflow.
        let _len = self.queue.len();
        match self.mode {
            Mode::Normal => {
                self.queue.truncate(self.index + 1);
                self.queue.push(entry);
                self.index = self.index + 1;
            },
            Mode::StartBlock => {
                self.queue.truncate(self.index + 1);
                self.queue.push(entry);
                self.index = self.index + 1;
                self.mode = Mode::InBlock;
            },
            Mode::InBlock => {
                self.queue[self.index] = entry;
            },
        }
    }

    /// Step the cursor back one entry, clamped at the oldest.
    pub fn undo(&mut self)
        requires
            old(self)@.wf(),
        ensures
            final(self)@.wf(),
            final(self)@ == spec_undo(old(self)@),
    {
        if self.index >= 1 {
            self.index = self.index - 1;
        }
    }

    /// Step the cursor forward one entry, clamped at the newest.
    pub fn redo(&mut self)
        requires
            old(self)@.wf(),
        ensures
            final(self)@.wf(),
            final(self)@ == spec_redo(old(self)@),
    {
        let len = self.queue.len();
        if self.index < len - 1 {
            self.index = self.index + 1;
        }
    }
}

} // verus!
