//! A whole run over a sequence of tokens, and what holds of every run.

use vstd::prelude::*;
use crate::batch::Batch;
use crate::driver::{
    effective_batch_size, is_failure, step_spec, Action, ActionView, DiagnosticsView, Driver,
    DriverView, Outcome, OutcomeView,
};
use crate::event::{Event, Token};
use crate::record::ChangesetView;
use crate::walker::{walk_all, walk_step, CursorView, Walk, WalkedView};

verus! {

/// What a run hands over: the batches in the order in which they were
/// flushed, and how the run ended.
#[derive(Debug)]
pub struct Run {
    pub batches: Vec<Batch>,
    pub outcome: Outcome,
}

/// A [`Run`] as a mathematical value, each batch as its rows.
pub struct RunView {
    pub batches: Seq<Seq<ChangesetView>>,
    pub outcome: OutcomeView,
}

/// The rows of each batch of `batches`.
pub open spec fn rows_of_each(batches: Seq<Batch>) -> Seq<Seq<ChangesetView>> {
    Seq::new(batches.len(), |i: int| batches[i]@)
}

impl View for Run {
    type V = RunView;

    open spec fn view(&self) -> RunView {
        RunView { batches: rows_of_each(self.batches@), outcome: self.outcome@ }
    }
}

impl Run {
    /// Whether every batch of the run is rectangular.
    pub open spec fn wf(&self) -> bool {
        forall|i: int| 0 <= i < self.batches@.len() ==> (#[trigger] self.batches@[i]).wf()
    }
}

/// The pieces of `records`, in order, each `size` long but for the last,
/// which holds what is left and is never empty.
pub open spec fn chunks<T>(records: Seq<T>, size: nat) -> Seq<Seq<T>>
    decreases records.len(),
{
    if records.len() == 0 || size == 0 {
        Seq::empty()
    } else if records.len() <= size {
        seq![records]
    } else {
        seq![records.take(size as int)] + chunks(records.skip(size as int), size)
    }
}

/// The pieces of `records`, in order, that are `size` long: what is left
/// over at the end and does not fill a piece is not among them.
pub open spec fn full_chunks<T>(records: Seq<T>, size: nat) -> Seq<Seq<T>>
    decreases records.len(),
{
    if size == 0 || records.len() < size {
        Seq::empty()
    } else {
        seq![records.take(size as int)] + full_chunks(records.skip(size as int), size)
    }
}

/// All rows of `batches`, in order.
pub open spec fn all_rows<T>(batches: Seq<Seq<T>>) -> Seq<T>
    decreases batches.len(),
{
    if batches.len() == 0 {
        Seq::empty()
    } else {
        batches.first() + all_rows(batches.drop_first())
    }
}

/// The token that stands for the end of the input at position `end`.
pub open spec fn end_token(end: u64) -> Token {
    Token { position: end, event: Event::Eof }
}

/// The position at which a sequence of tokens that runs out has ended: that
/// of its last token, zero where there is none.
pub open spec fn end_position(tokens: Seq<Token>) -> u64 {
    if tokens.len() == 0 {
        0
    } else {
        tokens.last().position
    }
}

/// The run from state `d` over `tokens`, token by token: the batches of the
/// actions in order, up to the action that finishes. Where the tokens run out
/// before that, the input has ended at position `end`.
pub open spec fn run_from(d: DriverView, tokens: Seq<Token>, end: u64) -> RunView
    decreases tokens.len(),
{
    if tokens.len() == 0 {
        match step_spec(d, end_token(end)).1 {
            ActionView::Finish(Some(batch), outcome) => RunView { batches: seq![batch], outcome },
            ActionView::Finish(None, outcome) => RunView { batches: Seq::empty(), outcome },
            _ => RunView {
                batches: Seq::empty(),
                outcome: OutcomeView::Complete { records: d.count },
            },
        }
    } else {
        let (next, action) = step_spec(d, tokens.first());
        match action {
            ActionView::Finish(Some(batch), outcome) => RunView { batches: seq![batch], outcome },
            ActionView::Finish(None, outcome) => RunView { batches: Seq::empty(), outcome },
            ActionView::Write(batch) => {
                let rest = run_from(next, tokens.drop_first(), end);
                RunView { batches: seq![batch] + rest.batches, outcome: rest.outcome }
            },
            ActionView::Read => run_from(next, tokens.drop_first(), end),
        }
    }
}

/// What a run from state `d` comes to when the walk from there yields
/// `walk`: the records buffered in `d` followed by those of the walk, cut
/// into batches, and the outcome that the recovery policy gives.
///
/// Without an error, and with an error under which the run continues, every
/// record is flushed and the last batch may be short. With an error that
/// fails the run, only the batches that were full are flushed.
pub open spec fn outcome_of(d: DriverView, walk: Walk) -> RunView {
    let all = d.buffered + walk.records;
    let records = d.count + walk.records.len();
    match walk.error {
        None => RunView {
            batches: chunks(all, d.batch_size),
            outcome: OutcomeView::Complete { records },
        },
        Some((position, failure)) => {
            let diagnostics = DiagnosticsView {
                position,
                records,
                last_changeset_id: if walk.records.len() == 0 {
                    d.last_changeset_id
                } else {
                    walk.records.last().id
                },
                record_id: failure.record_id,
                error: failure.error,
            };
            if is_failure(failure.error, d.continue_on_error) {
                RunView {
                    batches: full_chunks(all, d.batch_size),
                    outcome: OutcomeView::Failed(diagnostics),
                }
            } else {
                RunView {
                    batches: chunks(all, d.batch_size),
                    outcome: OutcomeView::Partial(diagnostics),
                }
            }
        },
    }
}

/// What a run over `tokens` yields, from the first token on.
pub open spec fn run_spec(tokens: Seq<Token>, batch_size: usize, continue_on_error: bool) -> RunView {
    outcome_of(
        DriverView::initial(effective_batch_size(batch_size), continue_on_error),
        walk_all(CursorView::TopLevel, tokens, end_position(tokens)),
    )
}

/// Running token by token comes to the same as walking the whole stream and
/// cutting its records into batches.
pub proof fn lemma_run_from(d: DriverView, tokens: Seq<Token>, end: u64)
    requires
        d.wf(),
    ensures
        run_from(d, tokens, end) == outcome_of(d, walk_all(d.cursor, tokens, end)),
    decreases tokens.len(),
{
    let walk = walk_all(d.cursor, tokens, end);
    let all = d.buffered + walk.records;
    if tokens.len() == 0 {
        assert(all =~= d.buffered);
    } else {
        let token = tokens.first();
        let (cursor, walked) = walk_step(d.cursor, token.event);
        let (next, action) = step_spec(d, token);
        match walked {
            WalkedView::Nothing => {
                lemma_run_from(next, tokens.drop_first(), end);
            },
            WalkedView::Record(record) => {
                lemma_run_from(next, tokens.drop_first(), end);
                let rest = walk_all(cursor, tokens.drop_first(), end);
                let filled = d.buffered.push(record);
                assert(walk.records == seq![record] + rest.records);
                assert(all =~= filled + rest.records);
                if filled.len() >= d.batch_size {
                    assert(all.take(d.batch_size as int) =~= filled);
                    assert(all.skip(d.batch_size as int) =~= rest.records);
                    assert(Seq::<ChangesetView>::empty() + rest.records =~= rest.records);
                    if rest.records.len() == 0 {
                        assert(all =~= filled);
                        assert(chunks(all, d.batch_size) =~= seq![filled] + chunks(
                            rest.records,
                            d.batch_size,
                        ));
                    }
                }
            },
            WalkedView::End => {
                assert(all =~= d.buffered);
            },
            WalkedView::Failed(_) => {
                assert(all =~= d.buffered);
            },
        }
    }
}

/// Reads a whole stream: walks the tokens, assembles the records, and
/// flushes a batch whenever `batch_size` records are buffered (a size of zero
/// counts as one). Where the tokens run out without an end of input, the
/// input ends after the last token.
pub fn parse_and_write_changesets(
    tokens: &Vec<Token>,
    batch_size: usize,
    continue_on_error: bool,
) -> (run: Run)
    ensures
        run.wf(),
        run@ == run_spec(tokens@, batch_size, continue_on_error),
{
    let ghost start = DriverView::initial(effective_batch_size(batch_size), continue_on_error);
    let ghost end = end_position(tokens@);
    let mut driver = Driver::new(batch_size, continue_on_error);
    let mut batches: Vec<Batch> = Vec::new();
    let mut i: usize = 0;
    proof {
        lemma_run_from(start, tokens@, end);
        assert(tokens@.skip(0) =~= tokens@);
        assert(rows_of_each(batches@) + run_from(driver@, tokens@, end).batches =~= run_from(
            driver@,
            tokens@,
            end,
        ).batches);
    }
    while i < tokens.len()
        invariant
            0 <= i <= tokens.len(),
            driver.wf(),
            !driver@.done,
            driver@.count <= i,
            forall|j: int| 0 <= j < batches@.len() ==> (#[trigger] batches@[j]).wf(),
            end == end_position(tokens@),
            run_spec(tokens@, batch_size, continue_on_error).batches == rows_of_each(batches@)
                + run_from(driver@, tokens@.skip(i as int), end).batches,
            run_spec(tokens@, batch_size, continue_on_error).outcome == run_from(
                driver@,
                tokens@.skip(i as int),
                end,
            ).outcome,
        decreases tokens.len() - i,
    {
        let ghost before = driver@;
        let ghost flushed = rows_of_each(batches@);
        let ghost rest = tokens@.skip(i as int);
        assert(rest.first() == tokens@[i as int]);
        assert(rest.drop_first() =~= tokens@.skip(i + 1));
        match driver.step(&tokens[i]) {
            Action::Read => {},
            Action::Write(batch) => {
                batches.push(batch);
                assert(rows_of_each(batches@) =~= flushed.push(batch@));
                assert(flushed.push(batch@) + run_from(driver@, rest.drop_first(), end).batches
                    =~= flushed + (seq![batch@] + run_from(
                    driver@,
                    rest.drop_first(),
                    end,
                ).batches));
            },
            Action::Finish(batch, outcome) => {
                match batch {
                    Some(b) => {
                        batches.push(b);
                        assert(rows_of_each(batches@) =~= flushed + seq![b@]);
                    },
                    None => {
                        assert(rows_of_each(batches@) =~= flushed + Seq::<
                            Seq<ChangesetView>,
                        >::empty());
                    },
                }
                return Run { batches, outcome };
            },
        }
        i = i + 1;
    }
    let position: u64 = if tokens.len() == 0 {
        0
    } else {
        tokens[tokens.len() - 1].position
    };
    let last = Token { position, event: Event::Eof };
    let ghost flushed = rows_of_each(batches@);
    assert(tokens@.skip(i as int).len() == 0);
    match driver.step(&last) {
        Action::Finish(batch, outcome) => {
            match batch {
                Some(b) => {
                    batches.push(b);
                    assert(rows_of_each(batches@) =~= flushed + seq![b@]);
                },
                None => {
                    assert(rows_of_each(batches@) =~= flushed + Seq::<Seq<ChangesetView>>::empty());
                },
            }
            Run { batches, outcome }
        },
        _ => {
            assert(false);
            Run { batches, outcome: Outcome::Complete { records: 0 } }
        },
    }
}

} // verus!
