//! The batch accumulator: one growable column per field, all of one length.

use vstd::prelude::*;
use crate::decode::Coordinate;
use crate::record::{
    coordinate_view, copy_coordinate, copy_text, text_view, Changeset, ChangesetView,
};

verus! {

/// The number of columns of a batch.
pub const COLUMNS: usize = 13;

/// A group of records in columnar layout: one column per field, the value of
/// record `i` at index `i` of each.
#[derive(Debug)]
pub struct Batch {
    id: Vec<i64>,
    created_at: Vec<Option<i64>>,
    closed_at: Vec<Option<i64>>,
    open: Vec<bool>,
    user: Vec<Option<String>>,
    uid: Vec<Option<i64>>,
    min_lat: Vec<Option<Coordinate>>,
    min_lon: Vec<Option<Coordinate>>,
    max_lat: Vec<Option<Coordinate>>,
    max_lon: Vec<Option<Coordinate>>,
    num_changes: Vec<u32>,
    comments_count: Vec<u32>,
    description: Vec<Option<String>>,
}

impl View for Batch {
    type V = Seq<ChangesetView>;

    /// The rows of the batch, as many as the identifier column is long.
    closed spec fn view(&self) -> Seq<ChangesetView> {
        Seq::new(self.id@.len(), |i: int| self.row_at(i))
    }
}

impl Batch {
    /// The record that stands at index `i` of every column.
    closed spec fn row_at(&self, i: int) -> ChangesetView {
        ChangesetView {
            id: self.id@[i],
            created_at: self.created_at@[i],
            closed_at: self.closed_at@[i],
            open: self.open@[i],
            user: text_view(self.user@[i]),
            uid: self.uid@[i],
            min_lat: coordinate_view(self.min_lat@[i]),
            min_lon: coordinate_view(self.min_lon@[i]),
            max_lat: coordinate_view(self.max_lat@[i]),
            max_lon: coordinate_view(self.max_lon@[i]),
            num_changes: self.num_changes@[i],
            comments_count: self.comments_count@[i],
            description: text_view(self.description@[i]),
        }
    }

    /// The length of each column, in column order.
    pub closed spec fn column_lengths(&self) -> Seq<nat> {
        seq![
            self.id@.len(),
            self.created_at@.len(),
            self.closed_at@.len(),
            self.open@.len(),
            self.user@.len(),
            self.uid@.len(),
            self.min_lat@.len(),
            self.min_lon@.len(),
            self.max_lat@.len(),
            self.max_lon@.len(),
            self.num_changes@.len(),
            self.comments_count@.len(),
            self.description@.len(),
        ]
    }

    /// Whether the batch is rectangular: there are thirteen columns and each
    /// is as long as there are rows.
    pub open spec fn wf(&self) -> bool {
        &&& self.column_lengths().len() == COLUMNS
        &&& forall|c: int|
            0 <= c < COLUMNS ==> #[trigger] self.column_lengths()[c] == self@.len()
    }

    /// In a rectangular batch every column is as long as there are rows.
    proof fn lemma_columns(self)
        requires
            self.wf(),
        ensures
            self.id@.len() == self@.len(),
            self.created_at@.len() == self@.len(),
            self.closed_at@.len() == self@.len(),
            self.open@.len() == self@.len(),
            self.user@.len() == self@.len(),
            self.uid@.len() == self@.len(),
            self.min_lat@.len() == self@.len(),
            self.min_lon@.len() == self@.len(),
            self.max_lat@.len() == self@.len(),
            self.max_lon@.len() == self@.len(),
            self.num_changes@.len() == self@.len(),
            self.comments_count@.len() == self@.len(),
            self.description@.len() == self@.len(),
    {
        let lengths = self.column_lengths();
        assert(lengths[0] == self@.len());
        assert(lengths[1] == self@.len());
        assert(lengths[2] == self@.len());
        assert(lengths[3] == self@.len());
        assert(lengths[4] == self@.len());
        assert(lengths[5] == self@.len());
        assert(lengths[6] == self@.len());
        assert(lengths[7] == self@.len());
        assert(lengths[8] == self@.len());
        assert(lengths[9] == self@.len());
        assert(lengths[10] == self@.len());
        assert(lengths[11] == self@.len());
        assert(lengths[12] == self@.len());
    }

    /// A batch without rows, with room for `capacity` of them.
    pub fn with_capacity(capacity: usize) -> (r: Batch)
        ensures
            r.wf(),
            r@ == Seq::<ChangesetView>::empty(),
    {
        let r = Batch {
            id: Vec::with_capacity(capacity),
            created_at: Vec::with_capacity(capacity),
            closed_at: Vec::with_capacity(capacity),
            open: Vec::with_capacity(capacity),
            user: Vec::with_capacity(capacity),
            uid: Vec::with_capacity(capacity),
            min_lat: Vec::with_capacity(capacity),
            min_lon: Vec::with_capacity(capacity),
            max_lat: Vec::with_capacity(capacity),
            max_lon: Vec::with_capacity(capacity),
            num_changes: Vec::with_capacity(capacity),
            comments_count: Vec::with_capacity(capacity),
            description: Vec::with_capacity(capacity),
        };
        assert(r@ =~= Seq::<ChangesetView>::empty());
        r
    }

    /// Adds one record as the last row: one value onto each column.
    pub fn push(&mut self, cs: &Changeset)
        requires
            old(self).wf(),
        ensures
            final(self).wf(),
            final(self)@ == old(self)@.push(cs@),
    {
        let ghost before = *self;
        proof {
            before.lemma_columns();
        }
        self.id.push(cs.id);
        self.created_at.push(cs.created_at);
        self.closed_at.push(cs.closed_at);
        self.open.push(cs.open);
        self.user.push(copy_text(&cs.user));
        self.uid.push(cs.uid);
        self.min_lat.push(copy_coordinate(&cs.min_lat));
        self.min_lon.push(copy_coordinate(&cs.min_lon));
        self.max_lat.push(copy_coordinate(&cs.max_lat));
        self.max_lon.push(copy_coordinate(&cs.max_lon));
        self.num_changes.push(cs.num_changes);
        self.comments_count.push(cs.comments_count);
        self.description.push(copy_text(&cs.description));
        assert(self@ =~= before@.push(cs@));
    }

    /// The number of rows.
    pub fn num_rows(&self) -> (n: usize)
        ensures
            n == self@.len(),
    {
        self.id.len()
    }

    /// A copy of row `i`.
    pub fn row(&self, i: usize) -> (r: Changeset)
        requires
            self.wf(),
            i < self@.len(),
        ensures
            r@ == self@[i as int],
    {
        proof {
            self.lemma_columns();
        }
        Changeset {
            id: self.id[i],
            created_at: self.created_at[i],
            closed_at: self.closed_at[i],
            open: self.open[i],
            user: copy_text(&self.user[i]),
            uid: self.uid[i],
            min_lat: copy_coordinate(&self.min_lat[i]),
            min_lon: copy_coordinate(&self.min_lon[i]),
            max_lat: copy_coordinate(&self.max_lat[i]),
            max_lon: copy_coordinate(&self.max_lon[i]),
            num_changes: self.num_changes[i],
            comments_count: self.comments_count[i],
            description: copy_text(&self.description[i]),
        }
    }
}

/// The column buffers of the batch in progress.
#[derive(Debug)]
pub struct BatchBuilders {
    columns: Batch,
    capacity: usize,
}

impl View for BatchBuilders {
    type V = Seq<ChangesetView>;

    /// The records buffered so far, oldest first.
    closed spec fn view(&self) -> Seq<ChangesetView> {
        self.columns@
    }
}

impl BatchBuilders {
    /// The length of each column buffer, in column order.
    pub closed spec fn column_lengths(&self) -> Seq<nat> {
        self.columns.column_lengths()
    }

    /// Whether the buffers are rectangular: thirteen columns, each as long as
    /// there are buffered records.
    pub open spec fn wf(&self) -> bool {
        &&& self.column_lengths().len() == COLUMNS
        &&& forall|c: int|
            0 <= c < COLUMNS ==> #[trigger] self.column_lengths()[c] == self@.len()
    }

    /// Empty buffers with room for `capacity` records each.
    pub fn with_capacity(capacity: usize) -> (r: BatchBuilders)
        ensures
            r.wf(),
            r@ == Seq::<ChangesetView>::empty(),
    {
        BatchBuilders { columns: Batch::with_capacity(capacity), capacity }
    }

    /// Appends one record: one value, or the absence of one, onto each column
    /// buffer.
    pub fn append(&mut self, cs: &Changeset)
        requires
            old(self).wf(),
        ensures
            final(self).wf(),
            final(self)@ == old(self)@.push(cs@),
    {
        self.columns.push(cs);
    }

    /// The number of buffered records.
    pub fn len(&self) -> (n: usize)
        ensures
            n == self@.len(),
    {
        self.columns.num_rows()
    }

    /// Whether no record is buffered.
    pub fn is_empty(&self) -> (r: bool)
        ensures
            r == (self@.len() == 0),
    {
        self.columns.num_rows() == 0
    }

    /// Whether at least `threshold` records are buffered.
    pub fn is_full(&self, threshold: usize) -> (r: bool)
        ensures
            r == (self@.len() >= threshold),
    {
        self.columns.num_rows() >= threshold
    }

    /// Drains the buffers into a batch that holds the buffered records in
    /// order, and leaves every buffer empty.
    pub fn finish_batch(&mut self) -> (batch: Batch)
        requires
            old(self).wf(),
            old(self)@.len() > 0,
        ensures
            batch.wf(),
            batch@ == old(self)@,
            final(self).wf(),
            final(self)@ == Seq::<ChangesetView>::empty(),
    {
        let mut batch = Batch::with_capacity(self.capacity);
        std::mem::swap(&mut self.columns, &mut batch);
        batch
    }
}

} // verus!
