use vstd::prelude::*;

verus! {

/// Where the rows of a statement's result go.
pub trait ResultWriter {
    /// Writes a row of cells.
    fn add_row(&mut self, row: &[String]);

    /// Writes the header row.
    fn add_header_row(&mut self, row: &[String]);
}

/// A writer that drops every row.
pub struct NoopWriter {}

impl ResultWriter for NoopWriter {
    fn add_row(&mut self, row: &[String]) {
    }

    fn add_header_row(&mut self, row: &[String]) {
    }
}

} // verus!
