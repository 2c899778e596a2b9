//! The table that the batches fill: thirteen named, typed columns.

use vstd::prelude::*;
use crate::batch::COLUMNS;
use crate::error::Field;

verus! {

/// The type of the values of a column.
#[derive(Clone, Copy, Debug, PartialEq, Eq, Structural)]
pub enum ColumnType {
    Int64,
    TimestampMillisecond,
    Boolean,
    Utf8,
    Float64,
    UInt32,
}

/// One column of the table.
#[derive(Clone, Copy, Debug)]
pub struct Column {
    pub field: Field,
    pub name: &'static str,
    pub data_type: ColumnType,
    pub nullable: bool,
}

/// The field whose values stand in column `i`.
pub open spec fn field_at(i: int) -> Field {
    if i == 0 {
        Field::Id
    } else if i == 1 {
        Field::CreatedAt
    } else if i == 2 {
        Field::ClosedAt
    } else if i == 3 {
        Field::Open
    } else if i == 4 {
        Field::User
    } else if i == 5 {
        Field::Uid
    } else if i == 6 {
        Field::MinLat
    } else if i == 7 {
        Field::MinLon
    } else if i == 8 {
        Field::MaxLat
    } else if i == 9 {
        Field::MaxLon
    } else if i == 10 {
        Field::NumChanges
    } else if i == 11 {
        Field::CommentsCount
    } else {
        Field::Description
    }
}

/// The name of the column of `field`.
pub open spec fn field_name(field: Field) -> Seq<char> {
    match field {
        Field::Id => "id"@,
        Field::CreatedAt => "created_at"@,
        Field::ClosedAt => "closed_at"@,
        Field::Open => "open"@,
        Field::User => "user"@,
        Field::Uid => "uid"@,
        Field::MinLat => "min_lat"@,
        Field::MinLon => "min_lon"@,
        Field::MaxLat => "max_lat"@,
        Field::MaxLon => "max_lon"@,
        Field::NumChanges => "num_changes"@,
        Field::CommentsCount => "comments_count"@,
        Field::Description => "description"@,
    }
}

/// The type of the column of `field`.
pub open spec fn field_type(field: Field) -> ColumnType {
    match field {
        Field::Id | Field::Uid => ColumnType::Int64,
        Field::CreatedAt | Field::ClosedAt => ColumnType::TimestampMillisecond,
        Field::Open => ColumnType::Boolean,
        Field::User | Field::Description => ColumnType::Utf8,
        Field::MinLat | Field::MinLon | Field::MaxLat | Field::MaxLon => ColumnType::Float64,
        Field::NumChanges | Field::CommentsCount => ColumnType::UInt32,
    }
}

/// Whether the column of `field` may hold the absence of a value: every one
/// may, but those of the identifier, the open flag and the two counters.
pub open spec fn field_nullable(field: Field) -> bool {
    !(field is Id || field is Open || field is NumChanges || field is CommentsCount)
}

/// Whether `column` is the column of `field`.
pub open spec fn is_column_of(column: Column, field: Field) -> bool {
    &&& column.field == field
    &&& column.name@ == field_name(field)
    &&& column.data_type == field_type(field)
    &&& column.nullable == field_nullable(field)
}

impl Field {
    /// The name of the field's column.
    pub fn name(self) -> (r: &'static str)
        ensures
            r@ == field_name(self),
    {
        match self {
            Field::Id => "id",
            Field::CreatedAt => "created_at",
            Field::ClosedAt => "closed_at",
            Field::Open => "open",
            Field::User => "user",
            Field::Uid => "uid",
            Field::MinLat => "min_lat",
            Field::MinLon => "min_lon",
            Field::MaxLat => "max_lat",
            Field::MaxLon => "max_lon",
            Field::NumChanges => "num_changes",
            Field::CommentsCount => "comments_count",
            Field::Description => "description",
        }
    }

    /// The type of the field's column.
    pub fn data_type(self) -> (r: ColumnType)
        ensures
            r == field_type(self),
    {
        match self {
            Field::Id | Field::Uid => ColumnType::Int64,
            Field::CreatedAt | Field::ClosedAt => ColumnType::TimestampMillisecond,
            Field::Open => ColumnType::Boolean,
            Field::User | Field::Description => ColumnType::Utf8,
            Field::MinLat | Field::MinLon | Field::MaxLat | Field::MaxLon => ColumnType::Float64,
            Field::NumChanges | Field::CommentsCount => ColumnType::UInt32,
        }
    }

    /// Whether the field's column may hold the absence of a value.
    pub fn nullable(self) -> (r: bool)
        ensures
            r == field_nullable(self),
    {
        match self {
            Field::Id | Field::Open | Field::NumChanges | Field::CommentsCount => false,
            _ => true,
        }
    }

    /// The column of the field.
    pub fn column(self) -> (r: Column)
        ensures
            is_column_of(r, self),
    {
        Column {
            field: self,
            name: self.name(),
            data_type: self.data_type(),
            nullable: self.nullable(),
        }
    }
}

/// The columns of the table, in column order.
pub fn create_schema() -> (r: Vec<Column>)
    ensures
        r@.len() == COLUMNS,
        forall|i: int| 0 <= i < COLUMNS ==> is_column_of(#[trigger] r@[i], field_at(i)),
{
    let mut columns: Vec<Column> = Vec::with_capacity(COLUMNS);
    columns.push(Field::Id.column());
    columns.push(Field::CreatedAt.column());
    columns.push(Field::ClosedAt.column());
    columns.push(Field::Open.column());
    columns.push(Field::User.column());
    columns.push(Field::Uid.column());
    columns.push(Field::MinLat.column());
    columns.push(Field::MinLon.column());
    columns.push(Field::MaxLat.column());
    columns.push(Field::MaxLon.column());
    columns.push(Field::NumChanges.column());
    columns.push(Field::CommentsCount.column());
    columns.push(Field::Description.column());
    columns
}

} // verus!
