//! The immutable image grid: a width x height buffer of RGB cells,
//! stored in a persistent vector so that editing one pixel yields a
//! new grid value sharing all unmodified storage with its source.

use vstd::prelude::*;

verus! {

/// One cell of the canvas: an RGB triple with 8-bit channels.
#[derive(Clone, Copy, PartialEq, Eq, Structural, Debug)]
pub struct Color {
    pub r: u8,
    pub g: u8,
    pub b: u8,
}

/// The background color every cell starts from.
pub open spec fn default_color() -> Color {
    Color { r: 200, g: 200, b: 255 }
}

/// A rejected canvas operation.
#[derive(Clone, Copy, PartialEq, Eq, Structural, Debug)]
pub enum CanvasError {
    /// A pixel coordinate lies outside the grid.
    OutOfBounds,
    /// A grid dimension is zero.
    InvalidDimension,
}

#[verifier::external_type_specification]
#[verifier::external_body]
#[verifier::reject_recursive_types(A)]
pub struct ExImVector<A>(im::Vector<A>);

/// The cells an `im::Vector<Color>` holds, in order.
pub uninterp spec fn vector_model(v: im::Vector<Color>) -> Seq<Color>;

/// Relies on `im::Vector::new`: constructs the empty vector.
#[verifier::external_body]
fn vector_new() -> (r: im::Vector<Color>)
    ensures
        vector_model(r) == Seq::<Color>::empty(),
{
    im::Vector::new()
}

/// Relies on `im::Vector::push_back`: appends one cell at the back.
#[verifier::external_body]
fn vector_push_back(v: &mut im::Vector<Color>, c: Color)
    ensures
        vector_model(*final(v)) == vector_model(*old(v)).push(c),
{
    v.push_back(c)
}

/// Relies on `im::Vector`'s `Index` impl: the cell at `i`, defined
/// (and panic-free) when `i` is in range.
#[verifier::external_body]
fn vector_get(v: &im::Vector<Color>, i: usize) -> (r: Color)
    requires
        i < vector_model(*v).len(),
    ensures
        r == vector_model(*v)[i as int],
{
    v[i]
}

/// Relies on `im::Vector::update`: a new vector differing only at `i`,
/// sharing unmodified structure with `v`; panic-free when `i` is in range.
#[verifier::external_body]
fn vector_update(v: &im::Vector<Color>, i: usize, c: Color) -> (r: im::Vector<Color>)
    requires
        i < vector_model(*v).len(),
    ensures
        vector_model(r) == vector_model(*v).update(i as int, c),
{
    v.update(i, c)
}

/// Relies on `im::Vector`'s `Clone` impl: an O(1) copy holding the
/// same cells, backed by the same shared storage.
#[verifier::external_body]
fn vector_clone(v: &im::Vector<Color>) -> (r: im::Vector<Color>)
    ensures
        vector_model(r) == vector_model(*v),
{
    v.clone()
}

/// One immutable snapshot of the canvas.
pub struct Image {
    width: usize,
    height: usize,
    cells: im::Vector<Color>,
}

impl View for Image {
    type V = Seq<Color>;

    /// The cells, row-major: the cell at (x, y) is at index `y * width + x`.
    closed spec fn view(&self) -> Seq<Color> {
        vector_model(self.cells)
    }
}

impl Image {
    pub closed spec fn spec_width(&self) -> int {
        self.width as int
    }

    pub closed spec fn spec_height(&self) -> int {
        self.height as int
    }

    /// The row-major cell index of the coordinate (x, y).
    pub open spec fn cell_index(&self, x: int, y: int) -> int {
        y * self.spec_width() + x
    }

    /// A grid is well formed when its cell count matches its dimensions
    /// (so every row-major index computed from them fits in `usize`).
    pub open spec fn wf(&self) -> bool {
        &&& self@.len() == self.spec_width() * self.spec_height()
        &&& self.spec_width() * self.spec_height() <= usize::MAX
    }

    /// Create a `width` x `height` canvas with every cell set to the
    /// background color.
    pub fn new(width: usize, height: usize) -> (r: Image)
        requires
            1 <= width,
            1 <= height,
            width * height <= usize::MAX,
        ensures
            r.wf(),
            r.spec_width() == width,
            r.spec_height() == height,
            r@ == Seq::new((width * height) as nat, |i: int| default_color()),
    {
        let n = width * height;
        let mut cells = vector_new();
        let mut i: usize = 0;
        while i < n
            invariant
                i <= n,
                n == width * height,
                vector_model(cells) == Seq::new(i as nat, |j: int| default_color()),
            decreases n - i,
        {
            vector_push_back(&mut cells, Color { r: 200, g: 200, b: 255 });
            proof {
                assert(vector_model(cells) =~= Seq::new((i + 1) as nat, |j: int| default_color()));
            }
            i = i + 1;
        }
        Image { width, height, cells }
    }

    /// The grid width, constant across edits.
    pub fn width(&self) -> (r: usize)
        ensures
            r == self.spec_width(),
    {
        self.width
    }

    /// The grid height, constant across edits.
    pub fn height(&self) -> (r: usize)
        ensures
            r == self.spec_height(),
    {
        self.height
    }

    /// Create a canvas, rejecting empty dimensions: `Err` exactly when
    /// a dimension is zero.
    pub fn try_new(width: usize, height: usize) -> (r: Result<Image, CanvasError>)
        requires
            width * height <= usize::MAX,
        ensures
            match r {
                Ok(img) => {
                    &&& 1 <= width
                    &&& 1 <= height
                    &&& img.wf()
                    &&& img.spec_width() == width
                    &&& img.spec_height() == height
                    &&& img@ == Seq::new((width * height) as nat, |i: int| default_color())
                },
                Err(e) => {
                    &&& e == CanvasError::InvalidDimension
                    &&& (width == 0 || height == 0)
                },
            },
    {
        if width == 0 || height == 0 {
            Err(CanvasError::InvalidDimension)
        } else {
            Ok(Self::new(width, height))
        }
    }

    /// What a pixel write at cell `idx` with color `c` returns: `None`
    /// exactly when the grid already holds `c` there; otherwise a
    /// well-formed grid of the same dimensions, equal to this one
    /// everywhere but at `idx`, which holds `c`.
    pub open spec fn set_pixel_result(self, r: Option<Image>, idx: int, c: Color) -> bool {
        match r {
            None => self@[idx] == c,
            Some(img) => {
                &&& self@[idx] != c
                &&& img.wf()
                &&& img.spec_width() == self.spec_width()
                &&& img.spec_height() == self.spec_height()
                &&& img@ == self@.update(idx, c)
            },
        }
    }

    /// Paint the cell at (x, y): `None` when the cell already holds
    /// `color` (the no-change case, absorbed by callers so that it is
    /// never recorded in a history); otherwise a new grid, equal to
    /// this one everywhere but at (x, y), sharing unmodified storage.
    pub fn brush(&self, x: usize, y: usize, color: Vec<u8>) -> (r: Option<Image>)
        requires
            self.wf(),
            x < self.spec_width(),
            y < self.spec_height(),
            color@.len() == 3,
        ensures
            self.set_pixel_result(
                r,
                self.cell_index(x as int, y as int),
                Color { r: color@[0], g: color@[1], b: color@[2] },
            ),
    {
        proof {
            lemma_row_major_in_range(x as int, y as int, self.spec_width(), self.spec_height());
        }
        let index = y * self.width + x;
        let c = Color { r: color[0], g: color[1], b: color[2] };
        let cell = vector_get(&self.cells, index);
        if cell == c {
            None
        } else {
            let new_cells = vector_update(&self.cells, index, c);
            Some(Image { width: self.width, height: self.height, cells: new_cells })
        }
    }

    /// Paint the cell at (x, y), rejecting out-of-range coordinates
    /// instead of indexing out of bounds: `Err(OutOfBounds)` exactly
    /// when (x, y) lies outside the grid; otherwise as `brush`.
    pub fn try_brush(&self, x: usize, y: usize, color: Vec<u8>) -> (r: Result<
        Option<Image>,
        CanvasError,
    >)
        requires
            self.wf(),
            color@.len() == 3,
        ensures
            match r {
                Ok(opt) => {
                    &&& x < self.spec_width()
                    &&& y < self.spec_height()
                    &&& self.set_pixel_result(
                        opt,
                        self.cell_index(x as int, y as int),
                        Color { r: color@[0], g: color@[1], b: color@[2] },
                    )
                },
                Err(e) => {
                    &&& e == CanvasError::OutOfBounds
                    &&& (x >= self.spec_width() || y >= self.spec_height())
                },
            },
    {
        if x < self.width && y < self.height {
            Ok(self.brush(x, y, color))
        } else {
            Err(CanvasError::OutOfBounds)
        }
    }

    /// The grid as flat bytes: three per cell (R, G, B), row-major —
    /// the bit-exact representation a renderer consumes.
    pub fn cells(&self) -> (r: Vec<u8>)
        requires
            self.wf(),
        ensures
            r@ == bytes_of(self@),
            r@.len() == self.spec_width() * self.spec_height() * 3,
    {
        let n = self.width * self.height;
        let mut out: Vec<u8> = Vec::new();
        let mut i: usize = 0;
        while i < n
            invariant
                i <= n,
                n == self.spec_width() * self.spec_height(),
                self.wf(),
                out@ == bytes_of(self@.take(i as int)),
            decreases n - i,
        {
            let cell = vector_get(&self.cells, i);
            out.push(cell.r);
            out.push(cell.g);
            out.push(cell.b);
            proof {
                assert forall|k: int| 0 <= k < 3 * (i + 1) implies bytes_of(
                    self@.take((i + 1) as int),
                )[k] == out@[k] by {
                    assert(0 <= k / 3 <= i);
                    if k / 3 < i {
                        assert(self@.take((i + 1) as int)[k / 3] == self@.take(i as int)[k / 3]);
                    } else {
                        assert(k / 3 == i);
                        assert(self@.take((i + 1) as int)[k / 3] == self@[i as int]);
                    }
                }
                assert(out@ =~= bytes_of(self@.take((i + 1) as int)));
            }
            i = i + 1;
        }
        proof {
            assert(self@.take(n as int) =~= self@);
        }
        out
    }
}

impl Clone for Image {
    /// An O(1) copy: both values share the same cell storage.
    fn clone(&self) -> (r: Self)
        ensures
            r@ == self@,
            r.spec_width() == self.spec_width(),
            r.spec_height() == self.spec_height(),
    {
        Image { width: self.width, height: self.height, cells: vector_clone(&self.cells) }
    }
}

/// The grid contents as bytes: three per cell, R then G then B, in
/// cell order.
pub open spec fn bytes_of(s: Seq<Color>) -> Seq<u8> {
    Seq::new(
        s.len() * 3,
        |i: int|
            if i % 3 == 0 {
                s[i / 3].r
            } else if i % 3 == 1 {
                s[i / 3].g
            } else {
                s[i / 3].b
            },
    )
}

/// A row-major index lies strictly inside the cell buffer.
proof fn lemma_row_major_in_range(x: int, y: int, w: int, h: int)
    requires
        0 <= x < w,
        0 <= y < h,
    ensures
        0 <= y * w + x < w * h,
{
    assert(0 <= y * w + x < w * h) by (nonlinear_arith)
        requires
            0 <= x < w,
            0 <= y < h,
    ;
}

/// Law (structural sharing, observably): a pixel write changes only
/// the target cell — every other cell of the result is value-equal to
/// the corresponding cell of the source grid, and the length is kept.
pub proof fn lemma_set_pixel_preserves_rest(before: Seq<Color>, idx: int, c: Color, j: int)
    requires
        0 <= idx < before.len(),
        0 <= j < before.len(),
        j != idx,
    ensures
        before.update(idx, c)[j] == before[j],
        before.update(idx, c).len() == before.len(),
        before.update(idx, c)[idx] == c,
{
}

} // verus!
