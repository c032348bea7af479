//! Reading a wavetable: which samples a lookup blends. A lookup at a position
//! in [0, 1] lands on the sample whose index is the whole part of
//! `position * (len - 1)`; it blends that sample with the next one, except at
//! the last sample, which is read as it is.
use vstd::prelude::*;

verus! {

/// The samples a table lookup reads.
#[derive(Debug, Clone, Copy, PartialEq, Eq, Structural)]
pub enum SampleWindow {
    /// The table is empty; the lookup gives 0.
    Empty,
    /// Only the sample at this index, the last one of the table.
    Single(usize),
    /// The sample at this index blended with the one after it.
    Between(usize),
}

/// The samples read by a lookup that lands on `index` in a table of `len`
/// samples. A position past the end of the table (`index >= len`) is not a
/// valid lookup.
pub fn sample_window(len: usize, index: usize) -> (w: SampleWindow)
    requires
        len == 0 || index < len,
    ensures
        len == 0 ==> w == SampleWindow::Empty,
        len > 0 && index == len - 1 ==> w == SampleWindow::Single(index),
        len > 0 && index < len - 1 ==> w == SampleWindow::Between(index),
        w matches SampleWindow::Single(i) ==> i < len,
        w matches SampleWindow::Between(i) ==> i + 1 < len,
{
    if len == 0 {
        SampleWindow::Empty
    } else if index == len - 1 {
        SampleWindow::Single(index)
    } else {
        SampleWindow::Between(index)
    }
}

} // verus!
