//! Streaming conversion of changeset records into columnar batches.
//!
//! The crate holds the logic that sits between an XML tokenizer and a
//! columnar sink: decoding attribute text into typed scalars, assembling one
//! record from the structural events of the stream, buffering records into
//! column-aligned batches, and deciding what a malformed record means for the
//! run. Everything here works on plain values; reading bytes and persisting
//! batches happen outside.
//!
//! * [`decode`] turns attribute text into integers, flags, timestamps and
//!   coordinates.
//! * [`assembler`] reads the attributes and the children of one record.
//! * [`walker`] walks the document and says which records a stream yields.
//! * [`batch`] holds the column buffers and the batches drained from them.
//! * [`driver`] is the run as a state machine: one token in, one action out.
//! * [`run`] is a whole run over tokens held in memory, and [`laws`] states
//!   what holds of every run.
//! * [`schema`] names the thirteen columns of the table.
//!
//! Two things come from outside crates and are taken on trust: what a raw
//! attribute value unescapes to ([`event::unescaped`]) and which instant a
//! timestamp denotes ([`decode::rfc3339_millis`]).

pub mod text;
pub mod error;
pub mod decode;
pub mod event;
pub mod record;
pub mod assembler;
pub mod batch;
pub mod walker;
pub mod driver;
pub mod run;
pub mod laws;
pub mod schema;

pub use crate::decode::{parse_bool, parse_i64, parse_timestamp, parse_u32, Coordinate};
pub use crate::error::{Error, ErrorView, Failure, FailureView, Field, StructuralKind};
pub use crate::event::{unescape, Attribute, Element, Event, Token};
pub use crate::record::{Changeset, ChangesetView};
pub use crate::assembler::{
    apply_changeset_tag, field_of, identifier_of, parse_changeset_body, parse_changeset_element,
    set_field, Phase, PhaseView,
};
pub use crate::batch::{Batch, BatchBuilders, COLUMNS};
pub use crate::walker::{walk, Cursor, CursorView, Walk, Walked, WalkedView};
pub use crate::driver::{
    Action, ActionView, Diagnostics, DiagnosticsView, Driver, DriverView, Outcome, OutcomeView,
};
pub use crate::run::{parse_and_write_changesets, Run, RunView};
pub use crate::schema::{create_schema, Column, ColumnType};
