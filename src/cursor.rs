//! The navigation map: labelled rows that a two-dimensional cursor moves over.
use vstd::prelude::*;

verus! {

/// A navigation input that the shell has already applied to the cursor map.
#[derive(Clone, Copy, Debug, PartialEq, Eq, Structural)]
pub enum Motion {
    Up,
    Down,
    Left,
    Right,
}

/// The abstract state of a cursor map.
pub struct CursorModel {
    /// Labels of the navigable rows of column 0, row 0 first.
    pub labels: Seq<Seq<char>>,
    pub column: usize,
    pub row: usize,
}

impl CursorModel {
    /// Keeps the first `n` rows.
    pub open spec fn cleared_after(self, n: nat) -> CursorModel {
        CursorModel {
            labels: if self.labels.len() <= n { self.labels } else { self.labels.take(n as int) },
            ..self
        }
    }

    /// Appends rows with the given labels, in order.
    pub open spec fn with_rows(self, names: Seq<Seq<char>>) -> CursorModel {
        CursorModel { labels: self.labels + names, ..self }
    }

    pub open spec fn position(self) -> (usize, usize) {
        (self.column, self.row)
    }
}

/// The navigable rows of the views on screen together with the cursor that
/// moves over them.
pub struct CursorMap {
    labels: Vec<String>,
    column: usize,
    row: usize,
}

impl View for CursorMap {
    type V = CursorModel;

    closed spec fn view(&self) -> CursorModel {
        CursorModel {
            labels: self.labels@.map_values(|s: String| s@),
            column: self.column,
            row: self.row,
        }
    }
}

impl CursorMap {
    /// A map whose only row is `root`, with the cursor on it.
    pub fn new(root: String) -> (r: CursorMap)
        ensures
            r@.labels == seq![root@],
            r@.column == 0,
            r@.row == 0,
    {
        let mut labels: Vec<String> = Vec::new();
        labels.push(root);
        let r = CursorMap { labels, column: 0, row: 0 };
        assert(r@.labels =~= seq![root@]);
        r
    }

    /// Appends a navigable row with the given label below the existing rows.
    pub fn append_and_push(&mut self, label: String)
        ensures
            final(self)@ == old(self)@.with_rows(seq![label@]),
    {
        self.labels.push(label);
        assert(final(self)@.labels =~= old(self)@.labels + seq![label@]);
    }

    /// Drops every row after the first `n`.
    pub fn clear_after(&mut self, n: usize)
        ensures
            final(self)@ == old(self)@.cleared_after(n as nat),
    {
        self.labels.truncate(n);
        assert(final(self)@.labels =~= old(self)@.cleared_after(n as nat).labels);
    }

    /// Moves the cursor to the given column and row.
    pub fn set_position(&mut self, column: usize, row: usize)
        ensures
            final(self)@ == (CursorModel { column, row, ..old(self)@ }),
    {
        self.column = column;
        self.row = row;
    }

    /// The cursor's current `(column, row)`.
    pub fn get_position(&self) -> (r: (usize, usize))
        ensures
            r == self@.position(),
    {
        (self.column, self.row)
    }

    /// Number of navigable rows.
    pub fn len(&self) -> (r: usize)
        ensures
            r == self@.labels.len(),
    {
        self.labels.len()
    }

    /// The label of row `i`.
    pub fn label(&self, i: usize) -> (r: &String)
        requires
            i < self@.labels.len(),
        ensures
            r@ == self@.labels[i as int],
    {
        &self.labels[i]
    }
}

} // verus!
