//! What holds of every run, whatever the stream: which records reach the
//! sink, in which batches, under each recovery policy.

use vstd::prelude::*;
use vstd::arithmetic::div_mod::{
    lemma_basic_div, lemma_div_minus_one, lemma_mod_bound, lemma_mod_decreases,
    lemma_mod_sub_multiples_vanish, lemma_small_mod,
};
use crate::driver::{effective_batch_size, is_failure, OutcomeView};
use crate::error::FailureView;
use crate::event::Token;
use crate::record::ChangesetView;
use crate::run::{all_rows, chunks, end_position, full_chunks, run_spec};
use crate::walker::{walk_all, CursorView, Walk};

verus! {

/// The walk that a run over `tokens` makes.
pub open spec fn stream_walk(tokens: Seq<Token>) -> Walk {
    walk_all(CursorView::TopLevel, tokens, end_position(tokens))
}

/// Cutting records into batches loses none and keeps their order.
pub proof fn lemma_chunks_hold_every_record<T>(records: Seq<T>, size: nat)
    requires
        size >= 1,
    ensures
        all_rows(chunks(records, size)) == records,
    decreases records.len(),
{
    let pieces = chunks(records, size);
    if records.len() == 0 {
        assert(pieces.len() == 0);
        assert(all_rows(pieces).len() == 0);
        assert(all_rows(pieces) =~= records);
    } else if records.len() <= size {
        assert(pieces.first() == records);
        assert(all_rows(pieces.drop_first()) =~= Seq::<T>::empty());
        assert(all_rows(pieces) =~= records);
    } else {
        let head = records.take(size as int);
        let tail = records.skip(size as int);
        lemma_chunks_hold_every_record(tail, size);
        assert(pieces.first() == head);
        assert(pieces.drop_first() =~= chunks(tail, size));
        assert(head + tail =~= records);
    }
}

/// Every batch but the last holds exactly `size` records; the last holds at
/// least one and at most `size`.
pub proof fn lemma_chunk_sizes<T>(records: Seq<T>, size: nat, i: int)
    requires
        size >= 1,
        0 <= i < chunks(records, size).len(),
    ensures
        1 <= chunks(records, size)[i].len() <= size,
        i + 1 < chunks(records, size).len() ==> chunks(records, size)[i].len() == size,
        i + 1 == chunks(records, size).len() ==> chunks(records, size)[i].len() == records.len()
            - i * size,
    decreases records.len(),
{
    if records.len() > size {
        let tail = records.skip(size as int);
        let pieces = chunks(records, size);
        assert(pieces =~= seq![records.take(size as int)] + chunks(tail, size));
        if i > 0 {
            lemma_chunk_sizes(tail, size, i - 1);
            assert(pieces[i] == chunks(tail, size)[i - 1]);
            assert((i - 1) * size == i * size - size) by (nonlinear_arith);
        } else {
            assert(chunks(tail, size).len() > 0);
        }
    }
}

/// The full batches are as many as `size` goes into the number of records,
/// each holds exactly `size` of them, and together they hold the records up
/// to the last multiple of `size`, in order.
pub proof fn lemma_full_chunks<T>(records: Seq<T>, size: nat)
    requires
        size >= 1,
    ensures
        full_chunks(records, size).len() == records.len() / size,
        forall|i: int|
            0 <= i < full_chunks(records, size).len() ==> (#[trigger] full_chunks(
                records,
                size,
            )[i]).len() == size,
        all_rows(full_chunks(records, size)) == records.take(
            records.len() - records.len() % size,
        ),
    decreases records.len(),
{
    let pieces = full_chunks(records, size);
    let n = records.len() as int;
    let s = size as int;
    if n < s {
        lemma_basic_div(n, s);
        lemma_small_mod(records.len(), size);
        assert(all_rows(pieces) =~= records.take(0));
    } else {
        let head = records.take(s);
        let tail = records.skip(s);
        lemma_full_chunks(tail, size);
        lemma_div_minus_one(n, s);
        lemma_mod_sub_multiples_vanish(n, s);
        lemma_mod_bound(n, s);
        assert(n - s == -s + n);
        assert(pieces.first() == head);
        assert(pieces.drop_first() =~= full_chunks(tail, size));
        let kept = n - s - n % s;
        assert(tail.len() == n - s);
        assert(tail.len() - tail.len() % size == kept);
        let joined = head + tail.take(kept);
        let wanted = records.take(n - n % s);
        assert(0 <= kept <= tail.len()) by {
            lemma_mod_decreases(tail.len(), size);
        }
        assert(joined.len() == wanted.len());
        assert forall|i: int| 0 <= i < joined.len() implies joined[i] == wanted[i] by {
            if i >= s {
                assert(joined[i] == tail.take(kept)[i - s]);
                assert(tail[i - s] == records[i]);
            }
        }
        assert(joined =~= wanted);
        assert forall|i: int| 0 <= i < pieces.len() implies (#[trigger] pieces[i]).len()
            == size by {
            if i > 0 {
                assert(pieces[i] == full_chunks(tail, size)[i - 1]);
            }
        }
    }
}

/// Where no error stops the walk, the batches hold exactly the records of
/// the stream, in order, and the run reports their number.
pub proof fn lemma_complete_run(tokens: Seq<Token>, batch_size: usize, continue_on_error: bool)
    requires
        stream_walk(tokens).error is None,
    ensures
        all_rows(run_spec(tokens, batch_size, continue_on_error).batches) == stream_walk(
            tokens,
        ).records,
        run_spec(tokens, batch_size, continue_on_error).outcome == (OutcomeView::Complete {
            records: stream_walk(tokens).records.len(),
        }),
{
    let records = stream_walk(tokens).records;
    assert(Seq::<ChangesetView>::empty() + records =~= records);
    lemma_chunks_hold_every_record(records, effective_batch_size(batch_size));
}

/// Where an error stops the walk and the run continues on errors, the run
/// is a partial success unless the byte source failed, and the batches hold
/// exactly the records assembled before the error, in order.
pub proof fn lemma_partial_run(tokens: Seq<Token>, batch_size: usize)
    requires
        stream_walk(tokens).error matches Some((_, failure)) && !(failure.error is Io),
    ensures
        run_spec(tokens, batch_size, true).outcome matches OutcomeView::Partial(diagnostics)
            && diagnostics.records == stream_walk(tokens).records.len()
            && stream_walk(tokens).error == Some(
            (
                diagnostics.position,
                FailureView { error: diagnostics.error, record_id: diagnostics.record_id },
            ),
        ),
        all_rows(run_spec(tokens, batch_size, true).batches) == stream_walk(tokens).records,
{
    let records = stream_walk(tokens).records;
    assert(Seq::<ChangesetView>::empty() + records =~= records);
    lemma_chunks_hold_every_record(records, effective_batch_size(batch_size));
}

/// Where an error fails the run, the batches are those that had been full
/// before the error: each holds exactly the batch size, there are none where
/// fewer records than fill one had been assembled, and what was still
/// buffered is not among them.
pub proof fn lemma_failed_run(tokens: Seq<Token>, batch_size: usize, continue_on_error: bool)
    requires
        stream_walk(tokens).error matches Some((_, failure)) && is_failure(
            failure.error,
            continue_on_error,
        ),
    ensures
        run_spec(tokens, batch_size, continue_on_error).outcome matches OutcomeView::Failed(
            diagnostics,
        ) && diagnostics.records == stream_walk(tokens).records.len()
            && stream_walk(tokens).error == Some(
            (
                diagnostics.position,
                FailureView { error: diagnostics.error, record_id: diagnostics.record_id },
            ),
        ),
        run_spec(tokens, batch_size, continue_on_error).batches.len() == stream_walk(
            tokens,
        ).records.len() / effective_batch_size(batch_size),
        forall|i: int|
            0 <= i < run_spec(tokens, batch_size, continue_on_error).batches.len() ==> (
            #[trigger] run_spec(tokens, batch_size, continue_on_error).batches[i]).len()
                == effective_batch_size(batch_size),
        all_rows(run_spec(tokens, batch_size, continue_on_error).batches) == stream_walk(
            tokens,
        ).records.take(
            stream_walk(tokens).records.len() - stream_walk(tokens).records.len()
                % effective_batch_size(batch_size),
        ),
{
    let records = stream_walk(tokens).records;
    assert(Seq::<ChangesetView>::empty() + records =~= records);
    lemma_full_chunks(records, effective_batch_size(batch_size));
}

/// In every run each batch holds at least one record and at most the batch
/// size, and every batch but the last holds exactly the batch size.
pub proof fn lemma_batch_sizes(
    tokens: Seq<Token>,
    batch_size: usize,
    continue_on_error: bool,
    i: int,
)
    requires
        0 <= i < run_spec(tokens, batch_size, continue_on_error).batches.len(),
    ensures
        1 <= run_spec(tokens, batch_size, continue_on_error).batches[i].len()
            <= effective_batch_size(batch_size),
        i + 1 < run_spec(tokens, batch_size, continue_on_error).batches.len() ==> run_spec(
            tokens,
            batch_size,
            continue_on_error,
        ).batches[i].len() == effective_batch_size(batch_size),
{
    let records = stream_walk(tokens).records;
    let size = effective_batch_size(batch_size);
    assert(Seq::<ChangesetView>::empty() + records =~= records);
    lemma_full_chunks(records, size);
    match stream_walk(tokens).error {
        Some((_, failure)) => {
            if !is_failure(failure.error, continue_on_error) {
                lemma_chunk_sizes(records, size, i);
            }
        },
        None => {
            lemma_chunk_sizes(records, size, i);
        },
    }
}

} // verus!
