//! The record assembler: from the attributes and child elements of one
//! record to a fully populated [`Changeset`], or to the error that ends it.

use vstd::prelude::*;
use crate::decode::{
    decode_bool, decode_i64, decode_u32, is_float_literal, parse_bool, parse_i64, parse_timestamp,
    parse_u32, rfc3339_millis, Coordinate,
};
use crate::error::{decoded, Error, ErrorView, Failure, FailureView, Field, StructuralKind};
use crate::event::{unescape, unescaped, Attribute, Element, Event};
use crate::record::{text_view, Changeset, ChangesetView};
use vstd::string::is_ascii;
use crate::text::{ascii, same_bytes, same_text, spells};

verus! {

/// The field that an attribute named `key` carries, if the name is known.
pub open spec fn known_field(key: Seq<u8>) -> Option<Field> {
    if key == ascii("id"@) {
        Some(Field::Id)
    } else if key == ascii("created_at"@) {
        Some(Field::CreatedAt)
    } else if key == ascii("closed_at"@) {
        Some(Field::ClosedAt)
    } else if key == ascii("open"@) {
        Some(Field::Open)
    } else if key == ascii("user"@) {
        Some(Field::User)
    } else if key == ascii("uid"@) {
        Some(Field::Uid)
    } else if key == ascii("min_lat"@) {
        Some(Field::MinLat)
    } else if key == ascii("min_lon"@) {
        Some(Field::MinLon)
    } else if key == ascii("max_lat"@) {
        Some(Field::MaxLat)
    } else if key == ascii("max_lon"@) {
        Some(Field::MaxLon)
    } else if key == ascii("num_changes"@) {
        Some(Field::NumChanges)
    } else if key == ascii("comments_count"@) {
        Some(Field::CommentsCount)
    } else {
        None
    }
}

/// The error for a value of `field` that cannot be decoded.
pub open spec fn decode_error(field: Field, value: Seq<char>) -> ErrorView {
    ErrorView::Decode { field, raw_value: value }
}

/// The record `cs` after `field` has been set from the text `value`, or the
/// decode error where `value` is not of the field's type.
pub open spec fn with_field(cs: ChangesetView, field: Field, value: Seq<char>) -> Result<
    ChangesetView,
    ErrorView,
> {
    match field {
        Field::Id => match decode_i64(value) {
            Some(v) => Ok(ChangesetView { id: v, ..cs }),
            None => Err(decode_error(field, value)),
        },
        Field::CreatedAt => match rfc3339_millis(value) {
            Some(v) => Ok(ChangesetView { created_at: Some(v), ..cs }),
            None => Err(decode_error(field, value)),
        },
        Field::ClosedAt => match rfc3339_millis(value) {
            Some(v) => Ok(ChangesetView { closed_at: Some(v), ..cs }),
            None => Err(decode_error(field, value)),
        },
        Field::Open => Ok(ChangesetView { open: decode_bool(value), ..cs }),
        Field::User => Ok(ChangesetView { user: Some(value), ..cs }),
        Field::Uid => match decode_i64(value) {
            Some(v) => Ok(ChangesetView { uid: Some(v), ..cs }),
            None => Err(decode_error(field, value)),
        },
        Field::MinLat => if is_float_literal(value) {
            Ok(ChangesetView { min_lat: Some(value), ..cs })
        } else {
            Err(decode_error(field, value))
        },
        Field::MinLon => if is_float_literal(value) {
            Ok(ChangesetView { min_lon: Some(value), ..cs })
        } else {
            Err(decode_error(field, value))
        },
        Field::MaxLat => if is_float_literal(value) {
            Ok(ChangesetView { max_lat: Some(value), ..cs })
        } else {
            Err(decode_error(field, value))
        },
        Field::MaxLon => if is_float_literal(value) {
            Ok(ChangesetView { max_lon: Some(value), ..cs })
        } else {
            Err(decode_error(field, value))
        },
        Field::NumChanges => match decode_u32(value) {
            Some(v) => Ok(ChangesetView { num_changes: v, ..cs }),
            None => Err(decode_error(field, value)),
        },
        Field::CommentsCount => match decode_u32(value) {
            Some(v) => Ok(ChangesetView { comments_count: v, ..cs }),
            None => Err(decode_error(field, value)),
        },
        Field::Description => Ok(ChangesetView { description: Some(value), ..cs }),
    }
}

/// The identifier that is known once `field` has been set in `next`, where
/// `id` was known before.
pub open spec fn known_id(id: Option<i64>, field: Field, next: ChangesetView) -> Option<i64> {
    if field is Id {
        Some(next.id)
    } else {
        id
    }
}

/// The record `cs` after the attributes `attributes` have been read in
/// order, where `id` is the identifier decoded so far. An attribute with an
/// unknown name changes nothing and is not even unescaped; the first
/// attribute that is malformed, or that has a known name and a value that
/// cannot be unescaped or decoded, ends the reading with its error and with
/// the identifier decoded before it, if one was.
pub open spec fn with_attributes(
    cs: ChangesetView,
    id: Option<i64>,
    attributes: Seq<Attribute>,
) -> Result<ChangesetView, FailureView>
    decreases attributes.len(),
{
    if attributes.len() == 0 {
        Ok(cs)
    } else {
        match attributes.first() {
            Attribute::Malformed => Err(
                FailureView {
                    error: ErrorView::Structure { kind: StructuralKind::MalformedAttribute },
                    record_id: id,
                },
            ),
            Attribute::Pair { key, value } => match known_field(key@) {
                None => with_attributes(cs, id, attributes.drop_first()),
                Some(field) => match unescaped(value@) {
                    None => Err(
                        FailureView {
                            error: ErrorView::Structure { kind: StructuralKind::BadEscape },
                            record_id: id,
                        },
                    ),
                    Some(text) => match with_field(cs, field, text) {
                        Ok(next) => with_attributes(
                            next,
                            known_id(id, field, next),
                            attributes.drop_first(),
                        ),
                        Err(e) => Err(FailureView { error: e, record_id: id }),
                    },
                },
            },
        }
    }
}

/// The record that the opening tag `element` describes.
pub open spec fn element_record(element: Element) -> Result<ChangesetView, FailureView> {
    with_attributes(ChangesetView::empty(), None, element.attributes@)
}

/// Whether `attribute` is named `id`.
pub open spec fn is_identifier(attribute: Attribute) -> bool {
    attribute matches Attribute::Pair { key, .. } && key@ == ascii("id"@)
}

/// The identifier of a record whose opening tag had the attributes
/// `attributes` and was read into `cs`: that of `cs` where one of the
/// attributes gave it, none otherwise.
pub open spec fn identifier(attributes: Seq<Attribute>, cs: ChangesetView) -> Option<i64> {
    if exists|i: int| 0 <= i < attributes.len() && is_identifier(#[trigger] attributes[i]) {
        Some(cs.id)
    } else {
        None
    }
}

/// Finds the field that an attribute name stands for.
pub fn field_of(key: &[u8]) -> (r: Option<Field>)
    ensures
        r == known_field(key@),
{
    proof {
        reveal_strlit("id");
        reveal_strlit("created_at");
        reveal_strlit("closed_at");
        reveal_strlit("open");
        reveal_strlit("user");
        reveal_strlit("uid");
        reveal_strlit("min_lat");
        reveal_strlit("min_lon");
        reveal_strlit("max_lat");
        reveal_strlit("max_lon");
        reveal_strlit("num_changes");
        reveal_strlit("comments_count");
    }
    if spells(key, "id") {
        Some(Field::Id)
    } else if spells(key, "created_at") {
        Some(Field::CreatedAt)
    } else if spells(key, "closed_at") {
        Some(Field::ClosedAt)
    } else if spells(key, "open") {
        Some(Field::Open)
    } else if spells(key, "user") {
        Some(Field::User)
    } else if spells(key, "uid") {
        Some(Field::Uid)
    } else if spells(key, "min_lat") {
        Some(Field::MinLat)
    } else if spells(key, "min_lon") {
        Some(Field::MinLon)
    } else if spells(key, "max_lat") {
        Some(Field::MaxLat)
    } else if spells(key, "max_lon") {
        Some(Field::MaxLon)
    } else if spells(key, "num_changes") {
        Some(Field::NumChanges)
    } else if spells(key, "comments_count") {
        Some(Field::CommentsCount)
    } else {
        None
    }
}

/// Sets `field` of `changeset` from the text `value`. On a decode error the
/// record is left as it was.
pub fn set_field(changeset: &mut Changeset, field: Field, value: &str) -> (r: Result<(), Error>)
    ensures
        match with_field(old(changeset)@, field, value@) {
            Ok(next) => r is Ok && final(changeset)@ == next,
            Err(e) => r matches Err(x) && x@ == e && final(changeset)@ == old(changeset)@,
        },
{
    match field {
        Field::Id => {
            let v = decoded(parse_i64(value), field, value)?;
            changeset.id = v;
        },
        Field::CreatedAt => {
            let v = decoded(parse_timestamp(value), field, value)?;
            changeset.created_at = Some(v);
        },
        Field::ClosedAt => {
            let v = decoded(parse_timestamp(value), field, value)?;
            changeset.closed_at = Some(v);
        },
        Field::Open => {
            changeset.open = parse_bool(value);
        },
        Field::User => {
            changeset.user = Some(value.to_owned());
        },
        Field::Uid => {
            let v = decoded(parse_i64(value), field, value)?;
            changeset.uid = Some(v);
        },
        Field::MinLat => {
            let v = decoded(Coordinate::parse(value), field, value)?;
            changeset.min_lat = Some(v);
        },
        Field::MinLon => {
            let v = decoded(Coordinate::parse(value), field, value)?;
            changeset.min_lon = Some(v);
        },
        Field::MaxLat => {
            let v = decoded(Coordinate::parse(value), field, value)?;
            changeset.max_lat = Some(v);
        },
        Field::MaxLon => {
            let v = decoded(Coordinate::parse(value), field, value)?;
            changeset.max_lon = Some(v);
        },
        Field::NumChanges => {
            let v = decoded(parse_u32(value), field, value)?;
            changeset.num_changes = v;
        },
        Field::CommentsCount => {
            let v = decoded(parse_u32(value), field, value)?;
            changeset.comments_count = v;
        },
        Field::Description => {
            changeset.description = Some(value.to_owned());
        },
    }
    Ok(())
}

/// Reads the attributes of a record's opening tag into a new record. Where
/// an attribute ends the reading, the partial record is dropped and only its
/// identifier, if decoded by then, goes with the error.
pub fn parse_changeset_element(element: &Element) -> (r: Result<Changeset, Failure>)
    ensures
        match element_record(*element) {
            Ok(record) => r matches Ok(cs) && cs@ == record,
            Err(e) => r matches Err(x) && x@ == e,
        },
{
    let mut changeset = Changeset::new();
    let mut id: Option<i64> = None;
    let mut i: usize = 0;
    assert(element.attributes@.skip(0) =~= element.attributes@);
    while i < element.attributes.len()
        invariant
            0 <= i <= element.attributes.len(),
            element_record(*element) == with_attributes(
                changeset@,
                id,
                element.attributes@.skip(i as int),
            ),
        decreases element.attributes.len() - i,
    {
        let ghost rest = element.attributes@.skip(i as int);
        assert(rest.first() == element.attributes@[i as int]);
        assert(rest.drop_first() =~= element.attributes@.skip(i + 1));
        match &element.attributes[i] {
            Attribute::Malformed => {
                return Err(
                    Failure {
                        error: Error::Structure { kind: StructuralKind::MalformedAttribute },
                        record_id: id,
                    },
                );
            },
            Attribute::Pair { key, value } => {
                match field_of(key.as_slice()) {
                    None => {},
                    Some(field) => {
                        match unescape(value.as_slice()) {
                            None => {
                                return Err(
                                    Failure {
                                        error: Error::Structure {
                                            kind: StructuralKind::BadEscape,
                                        },
                                        record_id: id,
                                    },
                                );
                            },
                            Some(text) => {
                                match set_field(&mut changeset, field, text.as_str()) {
                                    Ok(()) => {
                                        if let Field::Id = field {
                                            id = Some(changeset.id);
                                        }
                                    },
                                    Err(error) => {
                                        return Err(Failure { error, record_id: id });
                                    },
                                }
                            },
                        }
                    },
                }
            },
        }
        i = i + 1;
    }
    Ok(changeset)
}

/// Removing an attribute whose name is unknown does not change what the
/// attributes yield, record or error.
pub proof fn lemma_unknown_attribute_ignored(
    cs: ChangesetView,
    id: Option<i64>,
    attributes: Seq<Attribute>,
    i: int,
)
    requires
        0 <= i < attributes.len(),
        attributes[i] matches Attribute::Pair { key, .. } && known_field(key@) is None,
    ensures
        with_attributes(cs, id, attributes.remove(i)) == with_attributes(cs, id, attributes),
    decreases i,
{
    if i == 0 {
        assert(attributes.remove(0) =~= attributes.drop_first());
    } else {
        let removed = attributes.remove(i);
        assert(removed.first() == attributes.first());
        assert(removed.drop_first() =~= attributes.drop_first().remove(i - 1));
        match attributes.first() {
            Attribute::Malformed => {},
            Attribute::Pair { key, value } => match known_field(key@) {
                None => {
                    lemma_unknown_attribute_ignored(cs, id, attributes.drop_first(), i - 1);
                },
                Some(field) => match unescaped(value@) {
                    None => {},
                    Some(text) => match with_field(cs, field, text) {
                        Ok(next) => {
                            lemma_unknown_attribute_ignored(
                                next,
                                known_id(id, field, next),
                                attributes.drop_first(),
                                i - 1,
                            );
                        },
                        Err(_) => {},
                    },
                },
            },
        }
    }
}

/// The identifier of a record that `element` opened and that was read into
/// `changeset`, where the opening tag gave one.
pub fn identifier_of(element: &Element, changeset: &Changeset) -> (r: Option<i64>)
    ensures
        r == identifier(element.attributes@, changeset@),
{
    proof {
        reveal_strlit("id");
    }
    let mut i: usize = 0;
    while i < element.attributes.len()
        invariant
            0 <= i <= element.attributes.len(),
            is_ascii("id"),
            forall|j: int| 0 <= j < i ==> !is_identifier(#[trigger] element.attributes@[j]),
        decreases element.attributes.len() - i,
    {
        match &element.attributes[i] {
            Attribute::Pair { key, .. } => {
                if spells(key.as_slice(), "id") {
                    assert(is_identifier(element.attributes@[i as int]));
                    return Some(changeset.id);
                }
            },
            Attribute::Malformed => {},
        }
        i = i + 1;
    }
    None
}

/// The key and the value that a nested tag gives, each the last one written,
/// starting from `key` and `value`. Only attributes named `k` and `v` are
/// unescaped; the first that is malformed or cannot be unescaped ends the
/// reading with its error.
pub open spec fn tag_pair(
    attributes: Seq<Attribute>,
    key: Option<Seq<char>>,
    value: Option<Seq<char>>,
) -> Result<(Option<Seq<char>>, Option<Seq<char>>), ErrorView>
    decreases attributes.len(),
{
    if attributes.len() == 0 {
        Ok((key, value))
    } else {
        match attributes.first() {
            Attribute::Malformed => Err(
                ErrorView::Structure { kind: StructuralKind::MalformedAttribute },
            ),
            Attribute::Pair { key: name, value: raw } => if name@ == ascii("k"@) {
                match unescaped(raw@) {
                    Some(text) => tag_pair(attributes.drop_first(), Some(text), value),
                    None => Err(ErrorView::Structure { kind: StructuralKind::BadEscape }),
                }
            } else if name@ == ascii("v"@) {
                match unescaped(raw@) {
                    Some(text) => tag_pair(attributes.drop_first(), key, Some(text)),
                    None => Err(ErrorView::Structure { kind: StructuralKind::BadEscape }),
                }
            } else {
                tag_pair(attributes.drop_first(), key, value)
            },
        }
    }
}

/// The record `cs` after the nested tag `element` has been read: its
/// description becomes the tag's value where the tag's key is `comment`;
/// any other tag changes nothing.
pub open spec fn with_tag(cs: ChangesetView, element: Element) -> Result<ChangesetView, ErrorView> {
    match tag_pair(element.attributes@, None, None) {
        Err(e) => Err(e),
        Ok((Some(key), Some(value))) => if key == "comment"@ {
            Ok(ChangesetView { description: Some(value), ..cs })
        } else {
            Ok(cs)
        },
        Ok(_) => Ok(cs),
    }
}

/// Reads one nested tag into the record. On an error the record is left as
/// it was.
pub fn apply_changeset_tag(element: &Element, changeset: &mut Changeset) -> (r: Result<(), Error>)
    ensures
        match with_tag(old(changeset)@, *element) {
            Ok(next) => r is Ok && final(changeset)@ == next,
            Err(e) => r matches Err(x) && x@ == e && final(changeset)@ == old(changeset)@,
        },
{
    proof {
        reveal_strlit("k");
        reveal_strlit("v");
    }
    let mut key: Option<String> = None;
    let mut value: Option<String> = None;
    let mut i: usize = 0;
    assert(element.attributes@.skip(0) =~= element.attributes@);
    while i < element.attributes.len()
        invariant
            0 <= i <= element.attributes.len(),
            "k"@.len() == 1,
            "v"@.len() == 1,
            is_ascii("k"),
            is_ascii("v"),
            tag_pair(element.attributes@, None, None) == tag_pair(
                element.attributes@.skip(i as int),
                text_view(key),
                text_view(value),
            ),
        decreases element.attributes.len() - i,
    {
        let ghost rest = element.attributes@.skip(i as int);
        assert(rest.first() == element.attributes@[i as int]);
        assert(rest.drop_first() =~= element.attributes@.skip(i + 1));
        match &element.attributes[i] {
            Attribute::Malformed => {
                return Err(Error::Structure { kind: StructuralKind::MalformedAttribute });
            },
            Attribute::Pair { key: name, value: raw } => {
                if spells(name.as_slice(), "k") {
                    match unescape(raw.as_slice()) {
                        Some(text) => {
                            key = Some(text);
                        },
                        None => {
                            return Err(Error::Structure { kind: StructuralKind::BadEscape });
                        },
                    }
                } else if spells(name.as_slice(), "v") {
                    match unescape(raw.as_slice()) {
                        Some(text) => {
                            value = Some(text);
                        },
                        None => {
                            return Err(Error::Structure { kind: StructuralKind::BadEscape });
                        },
                    }
                }
            },
        }
        i = i + 1;
    }
    match (key, value) {
        (Some(k), Some(v)) => {
            if same_text(k.as_str(), "comment") {
                changeset.description = Some(v);
            }
        },
        _ => {},
    }
    Ok(())
}

/// Where the reading of a record's children stands.
#[derive(Debug, PartialEq, Eq)]
pub enum Phase {
    /// Directly inside the record.
    Children,
    /// Inside a nested element named `name`, with `depth` more elements of
    /// that name open within it.
    Skipping { name: Vec<u8>, depth: u64 },
}

/// A [`Phase`] as a mathematical value.
pub enum PhaseView {
    Children,
    Skipping { name: Seq<u8>, depth: u64 },
}

impl View for Phase {
    type V = PhaseView;

    open spec fn view(&self) -> PhaseView {
        match *self {
            Phase::Children => PhaseView::Children,
            Phase::Skipping { name, depth } => PhaseView::Skipping { name: name@, depth },
        }
    }
}

/// What one event does to a record whose children are being read: the next
/// phase and the record, where `None` for the phase says that the record is
/// complete, or the error that ends the record.
///
/// Directly inside the record, a nested `tag` is read for its comment, every
/// opening tag starts a skip to its closing tag, and the closing tag of the
/// record completes it. During a skip only tags of the skipped name count:
/// an opening one goes one level deeper, a closing one comes back up. The end
/// of the input and a tokenizer error end the record wherever they come.
pub open spec fn body_step(phase: PhaseView, cs: ChangesetView, event: Event) -> Result<
    (Option<PhaseView>, ChangesetView),
    ErrorView,
> {
    match event {
        Event::Eof => Err(ErrorView::Structure { kind: StructuralKind::UnexpectedEndOfStream }),
        Event::SyntaxError => Err(ErrorView::Structure { kind: StructuralKind::Syntax }),
        Event::IoError => Err(ErrorView::Io),
        Event::Other => Ok((Some(phase), cs)),
        Event::Empty(element) => match phase {
            PhaseView::Children => if element.name@ == ascii("tag"@) {
                match with_tag(cs, element) {
                    Ok(next) => Ok((Some(phase), next)),
                    Err(e) => Err(e),
                }
            } else {
                Ok((Some(phase), cs))
            },
            PhaseView::Skipping { .. } => Ok((Some(phase), cs)),
        },
        Event::Start(element) => match phase {
            PhaseView::Children => {
                let skip = PhaseView::Skipping { name: element.name@, depth: 0 };
                if element.name@ == ascii("tag"@) {
                    match with_tag(cs, element) {
                        Ok(next) => Ok((Some(skip), next)),
                        Err(e) => Err(e),
                    }
                } else {
                    Ok((Some(skip), cs))
                }
            },
            PhaseView::Skipping { name, depth } => if element.name@ != name {
                Ok((Some(phase), cs))
            } else if depth == u64::MAX {
                Err(ErrorView::Structure { kind: StructuralKind::TooDeep })
            } else {
                Ok((Some(PhaseView::Skipping { name, depth: (depth + 1) as u64 }), cs))
            },
        },
        Event::End(closed) => match phase {
            PhaseView::Children => if closed@ == ascii("changeset"@) {
                Ok((None, cs))
            } else {
                Ok((Some(phase), cs))
            },
            PhaseView::Skipping { name, depth } => if closed@ != name {
                Ok((Some(phase), cs))
            } else if depth == 0 {
                Ok((Some(PhaseView::Children), cs))
            } else {
                Ok((Some(PhaseView::Skipping { name, depth: (depth - 1) as u64 }), cs))
            },
        },
    }
}

/// Takes one event of a record's body: `Ok` with the next phase while the
/// record is still open, `Ok(None)` when its closing tag has come, and the
/// error otherwise. On an error the record is left as it was.
pub fn parse_changeset_body(phase: Phase, changeset: &mut Changeset, event: &Event) -> (r: Result<
    Option<Phase>,
    Error,
>)
    ensures
        match body_step(phase@, old(changeset)@, *event) {
            Ok((next, cs)) => r matches Ok(p) && phase_view(p) == next && final(changeset)@ == cs,
            Err(e) => r matches Err(x) && x@ == e && final(changeset)@ == old(changeset)@,
        },
{
    proof {
        reveal_strlit("tag");
        reveal_strlit("changeset");
    }
    match event {
        Event::Eof => Err(Error::Structure { kind: StructuralKind::UnexpectedEndOfStream }),
        Event::SyntaxError => Err(Error::Structure { kind: StructuralKind::Syntax }),
        Event::IoError => Err(Error::Io),
        Event::Other => Ok(Some(phase)),
        Event::Empty(element) => match phase {
            Phase::Children => {
                if spells(element.name.as_slice(), "tag") {
                    apply_changeset_tag(element, changeset)?;
                }
                Ok(Some(Phase::Children))
            },
            Phase::Skipping { name, depth } => Ok(Some(Phase::Skipping { name, depth })),
        },
        Event::Start(element) => match phase {
            Phase::Children => {
                if spells(element.name.as_slice(), "tag") {
                    apply_changeset_tag(element, changeset)?;
                }
                Ok(Some(Phase::Skipping { name: element.name.clone(), depth: 0 }))
            },
            Phase::Skipping { name, depth } => {
                if !same_bytes(element.name.as_slice(), name.as_slice()) {
                    Ok(Some(Phase::Skipping { name, depth }))
                } else if depth == u64::MAX {
                    Err(Error::Structure { kind: StructuralKind::TooDeep })
                } else {
                    Ok(Some(Phase::Skipping { name, depth: depth + 1 }))
                }
            },
        },
        Event::End(closed) => match phase {
            Phase::Children => {
                if spells(closed.as_slice(), "changeset") {
                    Ok(None)
                } else {
                    Ok(Some(Phase::Children))
                }
            },
            Phase::Skipping { name, depth } => {
                if !same_bytes(closed.as_slice(), name.as_slice()) {
                    Ok(Some(Phase::Skipping { name, depth }))
                } else if depth == 0 {
                    Ok(Some(Phase::Children))
                } else {
                    Ok(Some(Phase::Skipping { name, depth: depth - 1 }))
                }
            },
        },
    }
}

/// The view of an optional phase.
pub open spec fn phase_view(phase: Option<Phase>) -> Option<PhaseView> {
    match phase {
        Some(p) => Some(p@),
        None => None,
    }
}

} // verus!
