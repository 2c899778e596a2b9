//! The changeset record and its mathematical view.

use vstd::prelude::*;
use crate::decode::Coordinate;

verus! {

/// One changeset. A field that the source does not give is `None`; the
/// identifier, the open flag and the two counters are always present and
/// start out as zero and false.
#[derive(Debug, PartialEq, Eq)]
pub struct Changeset {
    pub id: i64,
    pub created_at: Option<i64>,
    pub closed_at: Option<i64>,
    pub open: bool,
    pub user: Option<String>,
    pub uid: Option<i64>,
    pub min_lat: Option<Coordinate>,
    pub min_lon: Option<Coordinate>,
    pub max_lat: Option<Coordinate>,
    pub max_lon: Option<Coordinate>,
    pub num_changes: u32,
    pub comments_count: u32,
    pub description: Option<String>,
}

/// A [`Changeset`] as a mathematical value: text as sequences of characters,
/// coordinates as the literals that were read.
pub struct ChangesetView {
    pub id: i64,
    pub created_at: Option<i64>,
    pub closed_at: Option<i64>,
    pub open: bool,
    pub user: Option<Seq<char>>,
    pub uid: Option<i64>,
    pub min_lat: Option<Seq<char>>,
    pub min_lon: Option<Seq<char>>,
    pub max_lat: Option<Seq<char>>,
    pub max_lon: Option<Seq<char>>,
    pub num_changes: u32,
    pub comments_count: u32,
    pub description: Option<Seq<char>>,
}

/// The view of an optional text.
pub open spec fn text_view(text: Option<String>) -> Option<Seq<char>> {
    match text {
        Some(s) => Some(s@),
        None => None,
    }
}

/// The view of an optional coordinate.
pub open spec fn coordinate_view(coordinate: Option<Coordinate>) -> Option<Seq<char>> {
    match coordinate {
        Some(c) => Some(c@),
        None => None,
    }
}

impl ChangesetView {
    /// The record in which nothing has been set.
    pub open spec fn empty() -> ChangesetView {
        ChangesetView {
            id: 0,
            created_at: None,
            closed_at: None,
            open: false,
            user: None,
            uid: None,
            min_lat: None,
            min_lon: None,
            max_lat: None,
            max_lon: None,
            num_changes: 0,
            comments_count: 0,
            description: None,
        }
    }
}

impl View for Changeset {
    type V = ChangesetView;

    open spec fn view(&self) -> ChangesetView {
        ChangesetView {
            id: self.id,
            created_at: self.created_at,
            closed_at: self.closed_at,
            open: self.open,
            user: text_view(self.user),
            uid: self.uid,
            min_lat: coordinate_view(self.min_lat),
            min_lon: coordinate_view(self.min_lon),
            max_lat: coordinate_view(self.max_lat),
            max_lon: coordinate_view(self.max_lon),
            num_changes: self.num_changes,
            comments_count: self.comments_count,
            description: text_view(self.description),
        }
    }
}

/// A copy of an optional text.
pub fn copy_text(text: &Option<String>) -> (r: Option<String>)
    ensures
        text_view(r) == text_view(*text),
{
    match text {
        Some(s) => Some(s.clone()),
        None => None,
    }
}

/// A copy of an optional coordinate.
pub fn copy_coordinate(coordinate: &Option<Coordinate>) -> (r: Option<Coordinate>)
    ensures
        coordinate_view(r) == coordinate_view(*coordinate),
{
    match coordinate {
        Some(c) => Some(c.duplicate()),
        None => None,
    }
}

impl Changeset {
    /// The record in which nothing has been set.
    pub fn new() -> (r: Changeset)
        ensures
            r@ == ChangesetView::empty(),
    {
        Changeset {
            id: 0,
            created_at: None,
            closed_at: None,
            open: false,
            user: None,
            uid: None,
            min_lat: None,
            min_lon: None,
            max_lat: None,
            max_lon: None,
            num_changes: 0,
            comments_count: 0,
            description: None,
        }
    }

    /// A copy of this record.
    pub fn duplicate(&self) -> (r: Changeset)
        ensures
            r@ == self@,
    {
        Changeset {
            id: self.id,
            created_at: self.created_at,
            closed_at: self.closed_at,
            open: self.open,
            user: copy_text(&self.user),
            uid: self.uid,
            min_lat: copy_coordinate(&self.min_lat),
            min_lon: copy_coordinate(&self.min_lon),
            max_lat: copy_coordinate(&self.max_lat),
            max_lon: copy_coordinate(&self.max_lon),
            num_changes: self.num_changes,
            comments_count: self.comments_count,
            description: copy_text(&self.description),
        }
    }
}

impl Default for Changeset {
    fn default() -> (r: Changeset)
        ensures
            r@ == ChangesetView::empty(),
    {
        Changeset::new()
    }
}

} // verus!
