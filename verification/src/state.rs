//! One editing session: a grid history driven by pixel edits, with
//! undo/redo and drag-gesture coalescing.

use crate::grid::CanvasError;
use crate::grid::Color;
use crate::grid::Image;
use crate::grid::default_color;
use crate::history::HistoryModel;
use crate::history::Mode;
use crate::history::UndoQueue;
use crate::history::spec_close_block;
use crate::history::spec_push;
use crate::history::spec_redo;
use crate::history::spec_start_block;
use crate::history::spec_undo;
use vstd::prelude::*;

verus! {

/// One editing session for one canvas.
pub struct InternalState {
    undo_queue: UndoQueue<Image>,
}

impl View for InternalState {
    type V = HistoryModel<Image>;

    closed spec fn view(&self) -> HistoryModel<Image> {
        self.undo_queue@
    }
}

/// What recording one pixel write at cell `idx` with color `c` does
/// to the session: nothing when the current grid already holds `c`
/// there; otherwise the edited grid — equal to the current one
/// everywhere but at `idx` — is pushed according to the history mode.
pub open spec fn brushed(
    pre: HistoryModel<Image>,
    post: HistoryModel<Image>,
    idx: int,
    c: Color,
) -> bool {
    if pre.current()@[idx] == c {
        post == pre
    } else {
        &&& post == spec_push(pre, post.current())
        &&& post.current()@ == pre.current()@.update(idx, c)
        &&& post.current().wf()
    }
}

impl InternalState {
    /// The session's fixed canvas width.
    pub open spec fn spec_width(&self) -> int {
        self@.entries[0].spec_width()
    }

    /// The session's fixed canvas height.
    pub open spec fn spec_height(&self) -> int {
        self@.entries[0].spec_height()
    }

    /// The history is well formed and every entry is a well-formed
    /// grid of the session's dimensions.
    pub open spec fn wf(&self) -> bool {
        &&& self@.wf()
        &&& forall|i: int|
            0 <= i < self@.entries.len() ==> (#[trigger] self@.entries[i]).wf()
                && self@.entries[i].spec_width() == self.spec_width()
                && self@.entries[i].spec_height() == self.spec_height()
    }

    /// Start a session on a fresh `width` x `height` canvas, every
    /// cell holding the background color.
    pub fn new(width: usize, height: usize) -> (r: InternalState)
        requires
            1 <= width,
            1 <= height,
            width * height <= usize::MAX,
        ensures
            r.wf(),
            r.spec_width() == width,
            r.spec_height() == height,
            r@.entries.len() == 1,
            r@.cursor == 0,
            r@.mode == Mode::Normal,
            r@.current()@ == Seq::new((width * height) as nat, |i: int| default_color()),
    {
        InternalState { undo_queue: UndoQueue::new(Image::new(width, height)) }
    }

    /// Start a session, rejecting empty dimensions: `Err` exactly when
    /// a dimension is zero.
    pub fn try_new(width: usize, height: usize) -> (r: Result<InternalState, CanvasError>)
        requires
            width * height <= usize::MAX,
        ensures
            match r {
                Ok(s) => {
                    &&& 1 <= width
                    &&& 1 <= height
                    &&& s.wf()
                    &&& s.spec_width() == width
                    &&& s.spec_height() == height
                    &&& s@.entries.len() == 1
                    &&& s@.cursor == 0
                    &&& s@.mode == Mode::Normal
                    &&& s@.current()@ == Seq::new((width * height) as nat, |i: int| default_color())
                },
                Err(e) => {
                    &&& e == CanvasError::InvalidDimension
                    &&& (width == 0 || height == 0)
                },
            },
    {
        if width == 0 || height == 0 {
            Err(CanvasError::InvalidDimension)
        } else {
            Ok(Self::new(width, height))
        }
    }

    /// A copy of the current grid (cheap: it shares cell storage).
    pub fn image(&self) -> (r: Image)
        requires
            self.wf(),
        ensures
            r.wf(),
            r@ == self@.current()@,
            r.spec_width() == self.spec_width(),
            r.spec_height() == self.spec_height(),
    {
        self.undo_queue.current()
    }

    /// The canvas width, constant for the session.
    pub fn width(&self) -> (r: usize)
        requires
            self.wf(),
        ensures
            r == self.spec_width(),
    {
        self.undo_queue.current().width()
    }

    /// The canvas height, constant for the session.
    pub fn height(&self) -> (r: usize)
        requires
            self.wf(),
        ensures
            r == self.spec_height(),
    {
        self.undo_queue.current().height()
    }

    /// Move the history cursor back one entry, clamped at the oldest;
    /// grid contents are never touched.
    pub fn undo(&mut self)
        requires
            old(self).wf(),
        ensures
            final(self).wf(),
            final(self)@ == spec_undo(old(self)@),
    {
        self.undo_queue.undo();
    }

    /// Move the history cursor forward one entry, clamped at the newest.
    pub fn redo(&mut self)
        requires
            old(self).wf(),
        ensures
            final(self).wf(),
            final(self)@ == spec_redo(old(self)@),
    {
        self.undo_queue.redo();
    }

    /// Begin a drag gesture: edits until `close_undo_block` coalesce
    /// into a single history entry.
    pub fn start_undo_block(&mut self)
        requires
            old(self).wf(),
        ensures
            final(self).wf(),
            final(self)@ == spec_start_block(old(self)@),
    {
        self.undo_queue.start_undo_block();
    }

    /// End a drag gesture: later edits make their own history entries.
    pub fn close_undo_block(&mut self)
        requires
            old(self).wf(),
        ensures
            final(self).wf(),
            final(self)@ == spec_close_block(old(self)@),
    {
        self.undo_queue.close_undo_block();
    }

    /// Paint the pixel (x, y) with `color` on the current grid and
    /// record the result: a no-change write leaves the session
    /// untouched, any other write is pushed according to the history
    /// mode.
    pub fn brush(&mut self, x: usize, y: usize, color: Vec<u8>)
        requires
            old(self).wf(),
            x < old(self).spec_width(),
            y < old(self).spec_height(),
            color@.len() == 3,
        ensures
            final(self).wf(),
            final(self).spec_width() == old(self).spec_width(),
            final(self).spec_height() == old(self).spec_height(),
            brushed(
                old(self)@,
                final(self)@,
                y * old(self).spec_width() + x,
                Color { r: color@[0], g: color@[1], b: color@[2] },
            ),
    {
        let image = self.undo_queue.current();
        let optional_image = image.brush(x, y, color);
        match optional_image {
            None => (),
            Some(new_image) => {
                self.undo_queue.push(new_image);
            },
        }
    }

    /// Paint the pixel (x, y), rejecting out-of-range coordinates:
    /// `Err(OutOfBounds)` exactly when (x, y) lies outside the grid,
    /// and the session is then unchanged.
    pub fn try_brush(&mut self, x: usize, y: usize, color: Vec<u8>) -> (r: Result<
        (),
        CanvasError,
    >)
        requires
            old(self).wf(),
            color@.len() == 3,
        ensures
            final(self).wf(),
            final(self).spec_width() == old(self).spec_width(),
            final(self).spec_height() == old(self).spec_height(),
            match r {
                Ok(_) => {
                    &&& x < old(self).spec_width()
                    &&& y < old(self).spec_height()
                    &&& brushed(
                        old(self)@,
                        final(self)@,
                        y * old(self).spec_width() + x,
                        Color { r: color@[0], g: color@[1], b: color@[2] },
                    )
                },
                Err(e) => {
                    &&& e == CanvasError::OutOfBounds
                    &&& (x >= old(self).spec_width() || y >= old(self).spec_height())
                    &&& final(self)@ == old(self)@
                },
            },
    {
        let w = self.width();
        let h = self.height();
        if x < w && y < h {
            self.brush(x, y, color);
            Ok(())
        } else {
            Err(CanvasError::OutOfBounds)
        }
    }
}

} // verus!
