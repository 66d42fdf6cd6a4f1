//! What can be done to the cells of a buffer.

use crate::buffer::BufferError;
use crate::buffer::Grid;
use vstd::prelude::*;

verus! {

/// Overwriting every cell at once.
pub trait Fill<T>: View<V = Grid<T>> {
    /// Puts `color` into every cell; the dimensions stay.
    fn fill(&mut self, color: T)
        ensures
            old(self)@.wf(),
            final(self)@ == Grid::filled(old(self)@.width, old(self)@.height, color),
    ;
}

/// Writing one cell.
pub trait SetPixel<T>: View<V = Grid<T>> {
    /// Puts `color` into column `x` of row `y` and leaves every other cell
    /// alone. Coordinates outside the buffer are refused, and then nothing
    /// changes.
    fn set_pixel(&mut self, x: usize, y: usize, color: T) -> (result: Result<(), BufferError>)
        ensures
            old(self)@.wf(),
            old(self)@.contains(x as int, y as int) ==> result == Ok::<(), BufferError>(())
                && final(self)@ == old(self)@.put(x as int, y as int, color),
            !old(self)@.contains(x as int, y as int) ==> result == Err::<(), BufferError>(
                BufferError::OutOfBounds,
            ) && final(self)@ == old(self)@,
    ;
}

/// Reading one cell.
pub trait GetPixel<T>: View<V = Grid<T>> {
    /// The value in column `x` of row `y`. Coordinates outside the buffer
    /// are refused.
    fn get_pixel(&self, x: usize, y: usize) -> (result: Result<T, BufferError>)
        ensures
            self@.wf(),
            self@.contains(x as int, y as int) ==> result == Ok::<T, BufferError>(
                self@.at(x as int, y as int),
            ),
            !self@.contains(x as int, y as int) ==> result == Err::<T, BufferError>(
                BufferError::OutOfBounds,
            ),
    ;
}

/// Reading all cells.
pub trait ToArray<T>: View<V = Grid<T>> {
    /// The cells, row after row. This never fails.
    fn to_array(&self) -> (result: Result<&[T], BufferError>)
        ensures
            self@.wf(),
            result is Ok,
            result.unwrap()@ == self@.cells,
    ;
}

} // verus!
