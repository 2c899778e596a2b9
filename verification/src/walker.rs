//! The document walk: which events open a record, which belong to one, and
//! which records a whole stream yields.
//!
//! A record is assembled by an explicit state machine. The walk starts
//! outside any record ([`Cursor::TopLevel`]); an opening `changeset` tag has
//! its attributes read at once and, unless it is self-closing, puts the walk
//! inside the record ([`Cursor::InRecord`]), where the children are read one
//! event at a time and nested elements are skipped by counting depth. The
//! record ends complete ([`Walked::Record`]) or failed ([`Walked::Failed`]);
//! a failed record is dropped whole.

use vstd::prelude::*;
use crate::assembler::{
    body_step, element_record, identifier, identifier_of, parse_changeset_body,
    parse_changeset_element, Phase, PhaseView,
};
use crate::error::{Error, ErrorView, Failure, FailureView, StructuralKind};
use crate::event::{Event, Token};
use crate::record::{Changeset, ChangesetView};
use crate::text::{ascii, spells};

verus! {

/// Where the walk stands in the document.
#[derive(Debug, PartialEq, Eq)]
pub enum Cursor {
    /// Outside any record.
    TopLevel,
    /// Inside a record whose opening tag has been read; `id` is the record's
    /// identifier where the opening tag gave one.
    InRecord { changeset: Changeset, phase: Phase, id: Option<i64> },
}

/// A [`Cursor`] as a mathematical value.
pub enum CursorView {
    TopLevel,
    InRecord { changeset: ChangesetView, phase: PhaseView, id: Option<i64> },
}

impl View for Cursor {
    type V = CursorView;

    open spec fn view(&self) -> CursorView {
        match *self {
            Cursor::TopLevel => CursorView::TopLevel,
            Cursor::InRecord { changeset, phase, id } => CursorView::InRecord {
                changeset: changeset@,
                phase: phase@,
                id,
            },
        }
    }
}

/// What one event brought.
#[derive(Debug, PartialEq, Eq)]
pub enum Walked {
    /// Nothing to hand over yet.
    Nothing,
    /// A record is complete.
    Record(Changeset),
    /// The input ended outside any record.
    End,
    /// The event, or the record it belongs to, is in error.
    Failed(Failure),
}

/// A [`Walked`] as a mathematical value.
pub enum WalkedView {
    Nothing,
    Record(ChangesetView),
    End,
    Failed(FailureView),
}

impl View for Walked {
    type V = WalkedView;

    open spec fn view(&self) -> WalkedView {
        match *self {
            Walked::Nothing => WalkedView::Nothing,
            Walked::Record(changeset) => WalkedView::Record(changeset@),
            Walked::End => WalkedView::End,
            Walked::Failed(failure) => WalkedView::Failed(failure@),
        }
    }
}

/// Whether `name` is the name of a record element.
pub open spec fn is_record_name(name: Seq<u8>) -> bool {
    name == ascii("changeset"@)
}

/// What one event does to the walk: the next cursor and what the event
/// brought.
///
/// Outside a record, a `changeset` tag opens a record: a self-closing one is
/// complete at once, another is read on through its children. The end of the
/// input ends the walk; a tokenizer error fails it; every other event is
/// passed over. Inside a record the event belongs to the record's body, and an
/// error there goes with the record's identifier.
pub open spec fn walk_step(cursor: CursorView, event: Event) -> (CursorView, WalkedView) {
    match cursor {
        CursorView::TopLevel => match event {
            Event::Empty(element) => if is_record_name(element.name@) {
                match element_record(element) {
                    Ok(record) => (CursorView::TopLevel, WalkedView::Record(record)),
                    Err(e) => (CursorView::TopLevel, WalkedView::Failed(e)),
                }
            } else {
                (CursorView::TopLevel, WalkedView::Nothing)
            },
            Event::Start(element) => if is_record_name(element.name@) {
                match element_record(element) {
                    Ok(record) => (
                        CursorView::InRecord {
                            changeset: record,
                            phase: PhaseView::Children,
                            id: identifier(element.attributes@, record),
                        },
                        WalkedView::Nothing,
                    ),
                    Err(e) => (CursorView::TopLevel, WalkedView::Failed(e)),
                }
            } else {
                (CursorView::TopLevel, WalkedView::Nothing)
            },
            Event::Eof => (CursorView::TopLevel, WalkedView::End),
            Event::SyntaxError => (
                CursorView::TopLevel,
                WalkedView::Failed(
                    FailureView {
                        error: ErrorView::Structure { kind: StructuralKind::Syntax },
                        record_id: None,
                    },
                ),
            ),
            Event::IoError => (
                CursorView::TopLevel,
                WalkedView::Failed(FailureView { error: ErrorView::Io, record_id: None }),
            ),
            Event::End(_) => (CursorView::TopLevel, WalkedView::Nothing),
            Event::Other => (CursorView::TopLevel, WalkedView::Nothing),
        },
        CursorView::InRecord { changeset, phase, id } => match body_step(phase, changeset, event) {
            Ok((Some(next), record)) => (
                CursorView::InRecord { changeset: record, phase: next, id },
                WalkedView::Nothing,
            ),
            Ok((None, record)) => (CursorView::TopLevel, WalkedView::Record(record)),
            Err(e) => (
                CursorView::TopLevel,
                WalkedView::Failed(FailureView { error: e, record_id: id }),
            ),
        },
    }
}

/// Takes one event of the document.
pub fn walk(cursor: Cursor, event: &Event) -> (r: (Cursor, Walked))
    ensures
        (r.0@, r.1@) == walk_step(cursor@, *event),
{
    proof {
        reveal_strlit("changeset");
    }
    match cursor {
        Cursor::TopLevel => match event {
            Event::Empty(element) => {
                if spells(element.name.as_slice(), "changeset") {
                    match parse_changeset_element(element) {
                        Ok(changeset) => (Cursor::TopLevel, Walked::Record(changeset)),
                        Err(e) => (Cursor::TopLevel, Walked::Failed(e)),
                    }
                } else {
                    (Cursor::TopLevel, Walked::Nothing)
                }
            },
            Event::Start(element) => {
                if spells(element.name.as_slice(), "changeset") {
                    match parse_changeset_element(element) {
                        Ok(changeset) => {
                            let id = identifier_of(element, &changeset);
                            (
                                Cursor::InRecord { changeset, phase: Phase::Children, id },
                                Walked::Nothing,
                            )
                        },
                        Err(e) => (Cursor::TopLevel, Walked::Failed(e)),
                    }
                } else {
                    (Cursor::TopLevel, Walked::Nothing)
                }
            },
            Event::Eof => (Cursor::TopLevel, Walked::End),
            Event::SyntaxError => (
                Cursor::TopLevel,
                Walked::Failed(
                    Failure {
                        error: Error::Structure { kind: StructuralKind::Syntax },
                        record_id: None,
                    },
                ),
            ),
            Event::IoError => (
                Cursor::TopLevel,
                Walked::Failed(Failure { error: Error::Io, record_id: None }),
            ),
            Event::End(_) => (Cursor::TopLevel, Walked::Nothing),
            Event::Other => (Cursor::TopLevel, Walked::Nothing),
        },
        Cursor::InRecord { changeset, phase, id } => {
            let mut changeset = changeset;
            match parse_changeset_body(phase, &mut changeset, event) {
                Ok(Some(next)) => (
                    Cursor::InRecord { changeset, phase: next, id },
                    Walked::Nothing,
                ),
                Ok(None) => (Cursor::TopLevel, Walked::Record(changeset)),
                Err(error) => (Cursor::TopLevel, Walked::Failed(Failure { error, record_id: id })),
            }
        },
    }
}

/// What a walk over a whole stream yields: the records that were completed,
/// in order, and the error that stopped it, with the position of the token
/// that brought the error, where one did.
pub struct Walk {
    pub records: Seq<ChangesetView>,
    pub error: Option<(u64, FailureView)>,
}

/// The walk from `cursor` over `tokens`. It stops at the first token that
/// ends the input or fails; tokens after that are not looked at. Where the
/// tokens run out before that, the input has ended at position `end`.
pub open spec fn walk_all(cursor: CursorView, tokens: Seq<Token>, end: u64) -> Walk
    decreases tokens.len(),
{
    if tokens.len() == 0 {
        match walk_step(cursor, Event::Eof).1 {
            WalkedView::Failed(e) => Walk { records: Seq::empty(), error: Some((end, e)) },
            _ => Walk { records: Seq::empty(), error: None },
        }
    } else {
        let (next, walked) = walk_step(cursor, tokens.first().event);
        match walked {
            WalkedView::Nothing => walk_all(next, tokens.drop_first(), end),
            WalkedView::Record(record) => {
                let rest = walk_all(next, tokens.drop_first(), end);
                Walk { records: seq![record] + rest.records, error: rest.error }
            },
            WalkedView::End => Walk { records: Seq::empty(), error: None },
            WalkedView::Failed(e) => Walk {
                records: Seq::empty(),
                error: Some((tokens.first().position, e)),
            },
        }
    }
}

} // verus!
