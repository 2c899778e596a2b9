//! The stream driver: feeds records to the accumulator, flushes full
//! batches, and applies the recovery policy when the walk fails.

use vstd::prelude::*;
use crate::batch::{Batch, BatchBuilders};
use crate::error::{Error, ErrorView};
use crate::event::Token;
use crate::record::ChangesetView;
use crate::walker::{walk, walk_step, Cursor, CursorView, Walked, WalkedView};

verus! {

/// What is known of a run at the point where an error stopped it.
#[derive(Debug, PartialEq, Eq)]
pub struct Diagnostics {
    /// The byte offset of the token that brought the error.
    pub position: u64,
    /// The number of records assembled before the error.
    pub records: u64,
    /// The identifier of the last record assembled, zero where there is none.
    pub last_changeset_id: i64,
    /// The identifier of the record that the error ended, where the error
    /// ended one and its identifier had been decoded.
    pub record_id: Option<i64>,
    /// The error itself.
    pub error: Error,
}

/// [`Diagnostics`] as a mathematical value.
pub struct DiagnosticsView {
    pub position: u64,
    pub records: nat,
    pub last_changeset_id: i64,
    pub record_id: Option<i64>,
    pub error: ErrorView,
}

impl View for Diagnostics {
    type V = DiagnosticsView;

    open spec fn view(&self) -> DiagnosticsView {
        DiagnosticsView {
            position: self.position,
            records: self.records as nat,
            last_changeset_id: self.last_changeset_id,
            record_id: self.record_id,
            error: self.error@,
        }
    }
}

/// How a run ended.
#[derive(Debug, PartialEq, Eq)]
pub enum Outcome {
    /// The input was read to its end; `records` were assembled.
    Complete { records: u64 },
    /// An error stopped the reading; what had been assembled was flushed and
    /// the run counts as a success that carries a warning.
    Partial(Diagnostics),
    /// An error stopped the run; what was still buffered was not flushed.
    Failed(Diagnostics),
}

/// An [`Outcome`] as a mathematical value.
pub enum OutcomeView {
    Complete { records: nat },
    Partial(DiagnosticsView),
    Failed(DiagnosticsView),
}

impl View for Outcome {
    type V = OutcomeView;

    open spec fn view(&self) -> OutcomeView {
        match *self {
            Outcome::Complete { records } => OutcomeView::Complete { records: records as nat },
            Outcome::Partial(diagnostics) => OutcomeView::Partial(diagnostics@),
            Outcome::Failed(diagnostics) => OutcomeView::Failed(diagnostics@),
        }
    }
}

/// What the caller is to do after a token has been taken.
#[derive(Debug)]
pub enum Action {
    /// Read the next token.
    Read,
    /// Hand the batch to the sink, then read the next token.
    Write(Batch),
    /// Read no further: hand the batch to the sink where there is one, then
    /// end the run as the outcome says.
    Finish(Option<Batch>, Outcome),
}

/// An [`Action`] as a mathematical value, each batch as its rows.
pub enum ActionView {
    Read,
    Write(Seq<ChangesetView>),
    Finish(Option<Seq<ChangesetView>>, OutcomeView),
}

impl View for Action {
    type V = ActionView;

    open spec fn view(&self) -> ActionView {
        match *self {
            Action::Read => ActionView::Read,
            Action::Write(batch) => ActionView::Write(batch@),
            Action::Finish(Some(batch), outcome) => ActionView::Finish(Some(batch@), outcome@),
            Action::Finish(None, outcome) => ActionView::Finish(None, outcome@),
        }
    }
}

impl Action {
    /// Whether the batch that the action carries, if any, is rectangular.
    pub open spec fn wf(&self) -> bool {
        match *self {
            Action::Read => true,
            Action::Write(batch) => batch.wf(),
            Action::Finish(Some(batch), _) => batch.wf(),
            Action::Finish(None, _) => true,
        }
    }
}

/// The state of a run as a mathematical value.
pub struct DriverView {
    /// The number of records at which a batch is flushed, at least one.
    pub batch_size: nat,
    /// Whether an error that is not fatal ends the run as a partial success.
    pub continue_on_error: bool,
    /// The records appended since the last flush.
    pub buffered: Seq<ChangesetView>,
    /// Where the walk stands.
    pub cursor: CursorView,
    /// The number of records assembled.
    pub count: nat,
    /// The number of batches flushed.
    pub batch_num: nat,
    /// The identifier of the last record assembled.
    pub last_changeset_id: i64,
    /// Whether the run has ended.
    pub done: bool,
}

/// The batch size that is in effect for a configured one: at least one.
pub open spec fn effective_batch_size(batch_size: usize) -> nat {
    if batch_size == 0 {
        1
    } else {
        batch_size as nat
    }
}

impl DriverView {
    /// The state in which a run starts.
    pub open spec fn initial(batch_size: nat, continue_on_error: bool) -> DriverView {
        DriverView {
            batch_size,
            continue_on_error,
            buffered: Seq::empty(),
            cursor: CursorView::TopLevel,
            count: 0,
            batch_num: 0,
            last_changeset_id: 0,
            done: false,
        }
    }

    /// What holds of every state of a run: fewer records are buffered than
    /// fill a batch, and every flushed batch and every buffered record has
    /// been counted.
    pub open spec fn wf(self) -> bool {
        &&& self.batch_size >= 1
        &&& self.buffered.len() < self.batch_size
        &&& self.batch_num + self.buffered.len() <= self.count
    }

    /// The state and the batch after everything buffered has been flushed.
    pub open spec fn flushed(self) -> (DriverView, Option<Seq<ChangesetView>>) {
        if self.buffered.len() == 0 {
            (self, None)
        } else {
            (
                DriverView { buffered: Seq::empty(), batch_num: self.batch_num + 1, ..self },
                Some(self.buffered),
            )
        }
    }
}

/// Whether `error` ends the run in failure under the given policy: a
/// failure of the byte source always does, any other error unless the run
/// continues on errors.
pub open spec fn is_failure(error: ErrorView, continue_on_error: bool) -> bool {
    error is Io || !continue_on_error
}

/// What one token does to a run: the next state and the action for the
/// caller.
///
/// A completed record is appended and counted, and the buffer is flushed as
/// soon as it holds a full batch. The end of the input flushes what is left.
/// An error ends the run: as a failure it leaves the buffer as it is; as a
/// partial success it flushes what is left.
pub open spec fn step_spec(d: DriverView, token: Token) -> (DriverView, ActionView) {
    let (cursor, walked) = walk_step(d.cursor, token.event);
    let moved = DriverView { cursor, ..d };
    match walked {
        WalkedView::Nothing => (moved, ActionView::Read),
        WalkedView::Record(record) => {
            let buffered = d.buffered.push(record);
            let counted = DriverView {
                count: d.count + 1,
                last_changeset_id: record.id,
                ..moved
            };
            if buffered.len() >= d.batch_size {
                (
                    DriverView {
                        buffered: Seq::empty(),
                        batch_num: d.batch_num + 1,
                        ..counted
                    },
                    ActionView::Write(buffered),
                )
            } else {
                (DriverView { buffered, ..counted }, ActionView::Read)
            }
        },
        WalkedView::End => {
            let (flushed, batch) = moved.flushed();
            (
                DriverView { done: true, ..flushed },
                ActionView::Finish(batch, OutcomeView::Complete { records: d.count }),
            )
        },
        WalkedView::Failed(failure) => {
            let diagnostics = DiagnosticsView {
                position: token.position,
                records: d.count,
                last_changeset_id: d.last_changeset_id,
                record_id: failure.record_id,
                error: failure.error,
            };
            if is_failure(failure.error, d.continue_on_error) {
                (
                    DriverView { done: true, ..moved },
                    ActionView::Finish(None, OutcomeView::Failed(diagnostics)),
                )
            } else {
                let (flushed, batch) = moved.flushed();
                (
                    DriverView { done: true, ..flushed },
                    ActionView::Finish(batch, OutcomeView::Partial(diagnostics)),
                )
            }
        },
    }
}

/// A run in progress.
#[derive(Debug)]
pub struct Driver {
    batch_size: usize,
    continue_on_error: bool,
    builders: BatchBuilders,
    cursor: Cursor,
    count: u64,
    batch_num: u64,
    last_changeset_id: i64,
    done: bool,
}

impl View for Driver {
    type V = DriverView;

    closed spec fn view(&self) -> DriverView {
        DriverView {
            batch_size: self.batch_size as nat,
            continue_on_error: self.continue_on_error,
            buffered: self.builders@,
            cursor: self.cursor@,
            count: self.count as nat,
            batch_num: self.batch_num as nat,
            last_changeset_id: self.last_changeset_id,
            done: self.done,
        }
    }
}

impl Driver {
    /// Whether the state is one that a run can be in, with rectangular
    /// column buffers.
    pub closed spec fn wf(&self) -> bool {
        &&& self.builders.wf()
        &&& self@.wf()
    }

    /// Starts a run. A batch size of zero counts as one.
    pub fn new(batch_size: usize, continue_on_error: bool) -> (r: Driver)
        ensures
            r.wf(),
            r@ == DriverView::initial(effective_batch_size(batch_size), continue_on_error),
    {
        let effective: usize = if batch_size == 0 {
            1
        } else {
            batch_size
        };
        Driver {
            batch_size: effective,
            continue_on_error,
            builders: BatchBuilders::with_capacity(effective),
            cursor: Cursor::TopLevel,
            count: 0,
            batch_num: 0,
            last_changeset_id: 0,
            done: false,
        }
    }

    /// Whether the run has ended.
    pub fn is_done(&self) -> (r: bool)
        ensures
            r == self@.done,
    {
        self.done
    }

    /// The number of records assembled so far.
    pub fn records(&self) -> (r: u64)
        ensures
            r == self@.count,
    {
        self.count
    }

    /// The number of batches flushed so far.
    pub fn batches(&self) -> (r: u64)
        ensures
            r == self@.batch_num,
    {
        self.batch_num
    }

    /// The identifier of the last record assembled, zero before the first.
    pub fn last_changeset_id(&self) -> (r: i64)
        ensures
            r == self@.last_changeset_id,
    {
        self.last_changeset_id
    }

    /// Flushes what is buffered, if anything is.
    fn flush(&mut self) -> (batch: Option<Batch>)
        requires
            old(self).wf(),
        ensures
            final(self).wf(),
            batch matches Some(b) ==> b.wf(),
            (final(self)@, batch_view(batch)) == old(self)@.flushed(),
    {
        if self.builders.is_empty() {
            None
        } else {
            self.batch_num = self.batch_num + 1;
            Some(self.builders.finish_batch())
        }
    }

    /// Takes one token and says what the caller is to do next.
    ///
    /// The run must not have ended, and where the token completes a record
    /// the count of records must still fit its machine integer.
    pub fn step(&mut self, token: &Token) -> (action: Action)
        requires
            old(self).wf(),
            !old(self)@.done,
            old(self)@.count < u64::MAX || !(walk_step(old(self)@.cursor, token.event).1 is Record),
        ensures
            final(self).wf(),
            action.wf(),
            (final(self)@, action@) == step_spec(old(self)@, *token),
    {
        let mut cursor = Cursor::TopLevel;
        std::mem::swap(&mut self.cursor, &mut cursor);
        let (next, walked) = walk(cursor, &token.event);
        self.cursor = next;
        match walked {
            Walked::Nothing => Action::Read,
            Walked::Record(changeset) => {
                self.last_changeset_id = changeset.id;
                self.builders.append(&changeset);
                self.count = self.count + 1;
                if self.builders.is_full(self.batch_size) {
                    self.batch_num = self.batch_num + 1;
                    Action::Write(self.builders.finish_batch())
                } else {
                    Action::Read
                }
            },
            Walked::End => {
                let batch = self.flush();
                self.done = true;
                Action::Finish(batch, Outcome::Complete { records: self.count })
            },
            Walked::Failed(failure) => {
                let fails = failure.error.is_fatal() || !self.continue_on_error;
                let diagnostics = Diagnostics {
                    position: token.position,
                    records: self.count,
                    last_changeset_id: self.last_changeset_id,
                    record_id: failure.record_id,
                    error: failure.error,
                };
                if fails {
                    self.done = true;
                    Action::Finish(None, Outcome::Failed(diagnostics))
                } else {
                    let batch = self.flush();
                    self.done = true;
                    Action::Finish(batch, Outcome::Partial(diagnostics))
                }
            },
        }
    }
}

/// The rows of an optional batch.
pub open spec fn batch_view(batch: Option<Batch>) -> Option<Seq<ChangesetView>> {
    match batch {
        Some(b) => Some(b@),
        None => None,
    }
}

} // verus!
