//! Fixed-size pixel and depth buffers.
//!
//! A buffer is a grid of `width` by `height` cells stored row by row. Reads
//! and writes are checked against the bounds; nothing resizes a buffer
//! after it has been made.

use crate::buffer::ops::Fill;
use crate::buffer::ops::GetPixel;
use crate::buffer::ops::SetPixel;
use crate::buffer::ops::ToArray;
use crate::scalar::Binary32;
use vstd::prelude::*;

pub mod ops;

verus! {

/// Why a buffer refused an access.
#[derive(Debug, Clone, Copy, PartialEq, Eq, Structural)]
pub enum BufferError {
    /// The coordinates lie outside the buffer.
    OutOfBounds,
}

impl BufferError {
    /// The text shown for the error, which is empty.
    pub fn message(&self) -> (text: String)
        ensures
            text@ == Seq::<char>::empty(),
    {
        String::new()
    }
}

/// What a buffer holds, as mathematics: its dimensions and its cells, row
/// after row.
pub struct Grid<T> {
    pub width: nat,
    pub height: nat,
    pub cells: Seq<T>,
}

impl<T> Grid<T> {
    /// There is one cell for each place of the grid.
    pub open spec fn wf(self) -> bool {
        self.cells.len() == self.width * self.height
    }

    /// Whether the grid has a cell in column `x` of row `y`.
    pub open spec fn contains(self, x: int, y: int) -> bool {
        0 <= x < self.width && 0 <= y < self.height
    }

    /// Where the cell in column `x` of row `y` stands among the cells.
    pub open spec fn index_of(self, x: int, y: int) -> int {
        y * self.width + x
    }

    /// The cell in column `x` of row `y`.
    pub open spec fn at(self, x: int, y: int) -> T {
        self.cells[self.index_of(x, y)]
    }

    /// The grid with `value` in column `x` of row `y` and every other cell
    /// as it was.
    pub open spec fn put(self, x: int, y: int, value: T) -> Grid<T> {
        Grid {
            width: self.width,
            height: self.height,
            cells: self.cells.update(self.index_of(x, y), value),
        }
    }

    /// The grid of the given dimensions with `value` in every cell.
    pub open spec fn filled(width: nat, height: nat, value: T) -> Grid<T> {
        Grid { width, height, cells: Seq::new(width * height, |i: int| value) }
    }
}

/// Every place of a well-formed grid has its own index among the cells.
pub proof fn lemma_index_in_range<T>(grid: Grid<T>, x: int, y: int)
    requires
        grid.wf(),
        grid.contains(x, y),
    ensures
        0 <= grid.index_of(x, y) < grid.cells.len(),
{
    assert(y * grid.width + x < grid.width * grid.height) by (nonlinear_arith)
        requires
            0 <= x < grid.width,
            0 <= y < grid.height,
    ;
    assert(0 <= y * grid.width) by (nonlinear_arith)
        requires
            0 <= y,
            0 <= grid.width,
    ;
}

/// Two places of a grid share an index only if they are the same place.
pub proof fn lemma_index_injective<T>(grid: Grid<T>, x1: int, y1: int, x2: int, y2: int)
    requires
        grid.contains(x1, y1),
        grid.contains(x2, y2),
        grid.index_of(x1, y1) == grid.index_of(x2, y2),
    ensures
        x1 == x2,
        y1 == y2,
{
    let w = grid.width as int;
    if y1 < y2 {
        assert(y1 * w + w <= y2 * w) by (nonlinear_arith)
            requires
                y1 < y2,
                0 <= w,
        ;
    } else if y2 < y1 {
        assert(y2 * w + w <= y1 * w) by (nonlinear_arith)
            requires
                y2 < y1,
                0 <= w,
        ;
    }
}

/// Writing one place and reading any place: the written place reads as the
/// new value, every other place as before.
pub proof fn lemma_put_then_at<T>(grid: Grid<T>, x: int, y: int, value: T, x2: int, y2: int)
    requires
        grid.wf(),
        grid.contains(x, y),
        grid.contains(x2, y2),
    ensures
        grid.put(x, y, value).wf(),
        grid.put(x, y, value).at(x2, y2) == (if x2 == x && y2 == y {
            value
        } else {
            grid.at(x2, y2)
        }),
{
    lemma_index_in_range(grid, x, y);
    lemma_index_in_range(grid, x2, y2);
    if grid.index_of(x, y) == grid.index_of(x2, y2) {
        lemma_index_injective(grid, x, y, x2, y2);
    }
}

/// Every place of a filled grid reads as the value it was filled with.
pub proof fn lemma_filled_at<T>(width: nat, height: nat, value: T, x: int, y: int)
    requires
        0 <= x < width,
        0 <= y < height,
    ensures
        Grid::filled(width, height, value).wf(),
        Grid::filled(width, height, value).at(x, y) == value,
{
    lemma_index_in_range(Grid::filled(width, height, value), x, y);
}

/// Overwrites every element of `cells` with `value`; the length stays.
fn overwrite<T: Copy>(cells: &mut Vec<T>, value: T)
    ensures
        final(cells)@ == Seq::new(old(cells)@.len(), |i: int| value),
    no_unwind
{
    let n = cells.len();
    let mut i: usize = 0;
    while i < n
        invariant
            i <= n,
            n == cells.len(),
            forall|j: int| 0 <= j < i ==> cells[j] == value,
        decreases n - i,
    {
        cells[i] = value;
        i += 1;
    }
    assert(cells@ =~= Seq::new(n as nat, |i: int| value));
}

/// A buffer that can be made blank, and made blank again.
pub trait Buffer: Sized {
    /// The numbers of columns and of rows.
    spec fn dimensions(&self) -> (nat, nat);

    /// Whether the buffer has the given dimensions and holds its default
    /// value in every cell.
    spec fn is_blank(&self, width: nat, height: nat) -> bool;

    /// A blank buffer of the given dimensions.
    fn new(width: usize, height: usize) -> (buffer: Self)
        requires
            width * height <= usize::MAX,
        ensures
            buffer.dimensions() == (width as nat, height as nat),
            buffer.is_blank(width as nat, height as nat),
    ;

    /// Makes the buffer blank again; its dimensions stay.
    fn clear(&mut self)
        ensures
            final(self).dimensions() == old(self).dimensions(),
            final(self).is_blank(old(self).dimensions().0, old(self).dimensions().1),
    ;
}

/// A buffer of colours, one `u32` for each pixel. Blank is colour 0.
#[derive(Debug)]
pub struct FrameBuffer {
    width: usize,
    height: usize,
    buffer: Vec<u32>,
}

impl View for FrameBuffer {
    type V = Grid<u32>;

    closed spec fn view(&self) -> Grid<u32> {
        Grid { width: self.width as nat, height: self.height as nat, cells: self.buffer@ }
    }
}

impl FrameBuffer {
    #[verifier::type_invariant]
    spec fn well_formed(self) -> bool {
        self.buffer.len() == self.width * self.height
    }

    /// The number of columns.
    pub fn width(&self) -> (width: usize)
        ensures
            width == self@.width,
            self@.wf(),
    {
        proof {
            use_type_invariant(self);
        }
        self.width
    }

    /// The number of rows.
    pub fn height(&self) -> (height: usize)
        ensures
            height == self@.height,
            self@.wf(),
    {
        proof {
            use_type_invariant(self);
        }
        self.height
    }
}

impl Buffer for FrameBuffer {
    open spec fn dimensions(&self) -> (nat, nat) {
        (self@.width, self@.height)
    }

    open spec fn is_blank(&self, width: nat, height: nat) -> bool {
        self@ == Grid::filled(width, height, 0u32)
    }

    fn new(width: usize, height: usize) -> (buffer: FrameBuffer) {
        let buffer = FrameBuffer { width, height, buffer: vec![0; width * height] };
        assert(buffer@.cells =~= Grid::filled(width as nat, height as nat, 0u32).cells);
        buffer
    }

    fn clear(&mut self) {
        self.fill(0);
    }
}

impl Fill<u32> for FrameBuffer {
    fn fill(&mut self, color: u32) {
        proof {
            use_type_invariant(&*self);
        }
        overwrite(&mut self.buffer, color);
    }
}

impl SetPixel<u32> for FrameBuffer {
    fn set_pixel(&mut self, x: usize, y: usize, color: u32) -> (result: Result<(), BufferError>) {
        proof {
            use_type_invariant(&*self);
        }
        if x < self.width && y < self.height {
            proof {
                lemma_index_in_range(self@, x as int, y as int);
            }
            self.buffer[y * self.width + x] = color;
            Ok(())
        } else {
            Err(BufferError::OutOfBounds)
        }
    }
}

impl GetPixel<u32> for FrameBuffer {
    fn get_pixel(&self, x: usize, y: usize) -> (result: Result<u32, BufferError>) {
        proof {
            use_type_invariant(self);
        }
        if x < self.width && y < self.height {
            proof {
                lemma_index_in_range(self@, x as int, y as int);
            }
            Ok(self.buffer[y * self.width + x])
        } else {
            Err(BufferError::OutOfBounds)
        }
    }
}

impl ToArray<u32> for FrameBuffer {
    fn to_array(&self) -> (result: Result<&[u32], BufferError>) {
        proof {
            use_type_invariant(self);
        }
        Ok(self.buffer.as_slice())
    }
}

/// A buffer of depths, one scalar for each pixel. Blank is positive
/// infinity: farther away than anything that can be drawn.
#[derive(Debug)]
pub struct DepthBuffer {
    width: usize,
    height: usize,
    buffer: Vec<Binary32>,
}

impl View for DepthBuffer {
    type V = Grid<Binary32>;

    closed spec fn view(&self) -> Grid<Binary32> {
        Grid { width: self.width as nat, height: self.height as nat, cells: self.buffer@ }
    }
}

impl DepthBuffer {
    #[verifier::type_invariant]
    spec fn well_formed(self) -> bool {
        self.buffer.len() == self.width * self.height
    }

    /// The number of columns.
    pub fn width(&self) -> (width: usize)
        ensures
            width == self@.width,
            self@.wf(),
    {
        proof {
            use_type_invariant(self);
        }
        self.width
    }

    /// The number of rows.
    pub fn height(&self) -> (height: usize)
        ensures
            height == self@.height,
            self@.wf(),
    {
        proof {
            use_type_invariant(self);
        }
        self.height
    }
}

impl Buffer for DepthBuffer {
    open spec fn dimensions(&self) -> (nat, nat) {
        (self@.width, self@.height)
    }

    open spec fn is_blank(&self, width: nat, height: nat) -> bool {
        self@ == Grid::filled(width, height, Binary32::infinity())
    }

    fn new(width: usize, height: usize) -> (buffer: DepthBuffer) {
        let buffer = DepthBuffer {
            width,
            height,
            buffer: vec![Binary32::infinity(); width * height],
        };
        assert(buffer@.cells =~= Grid::filled(
            width as nat,
            height as nat,
            Binary32::infinity(),
        ).cells);
        buffer
    }

    fn clear(&mut self) {
        proof {
            use_type_invariant(&*self);
        }
        overwrite(&mut self.buffer, Binary32::infinity());
    }
}

impl SetPixel<Binary32> for DepthBuffer {
    fn set_pixel(&mut self, x: usize, y: usize, depth: Binary32) -> (result: Result<
        (),
        BufferError,
    >) {
        proof {
            use_type_invariant(&*self);
        }
        if x < self.width && y < self.height {
            proof {
                lemma_index_in_range(self@, x as int, y as int);
            }
            self.buffer[y * self.width + x] = depth;
            Ok(())
        } else {
            Err(BufferError::OutOfBounds)
        }
    }
}

impl GetPixel<Binary32> for DepthBuffer {
    fn get_pixel(&self, x: usize, y: usize) -> (result: Result<Binary32, BufferError>) {
        proof {
            use_type_invariant(self);
        }
        if x < self.width && y < self.height {
            proof {
                lemma_index_in_range(self@, x as int, y as int);
            }
            Ok(self.buffer[y * self.width + x])
        } else {
            Err(BufferError::OutOfBounds)
        }
    }
}

} // verus!
