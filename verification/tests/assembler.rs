use changesets::{
    apply_changeset_tag, field_of, identifier_of, parse_changeset_body, parse_changeset_element,
    set_field, walk, Attribute, Changeset, Cursor, Element, Error, Event, Failure, Field, Phase,
    StructuralKind, Walked,
};

fn attribute(key: &str, value: &str) -> Attribute {
    Attribute::Pair { key: key.as_bytes().to_vec(), value: value.as_bytes().to_vec() }
}

fn element(name: &str, attributes: Vec<Attribute>) -> Element {
    Element { name: name.as_bytes().to_vec(), attributes }
}

fn tag(key: &str, value: &str) -> Element {
    element("tag", vec![attribute("k", key), attribute("v", value)])
}

fn decode_error(field: Field, raw_value: &str) -> Error {
    Error::Decode { field, raw_value: raw_value.to_string() }
}

fn structure(kind: StructuralKind) -> Error {
    Error::Structure { kind }
}

fn failure(error: Error, record_id: Option<i64>) -> Failure {
    Failure { error, record_id }
}

fn literal(c: &Option<changesets::Coordinate>) -> Option<f64> {
    c.as_ref().map(|c| c.as_str().parse::<f64>().unwrap())
}

#[test]
fn known_attribute_names_map_to_fields() {
    assert_eq!(field_of(b"id"), Some(Field::Id));
    assert_eq!(field_of(b"created_at"), Some(Field::CreatedAt));
    assert_eq!(field_of(b"closed_at"), Some(Field::ClosedAt));
    assert_eq!(field_of(b"open"), Some(Field::Open));
    assert_eq!(field_of(b"user"), Some(Field::User));
    assert_eq!(field_of(b"uid"), Some(Field::Uid));
    assert_eq!(field_of(b"min_lat"), Some(Field::MinLat));
    assert_eq!(field_of(b"min_lon"), Some(Field::MinLon));
    assert_eq!(field_of(b"max_lat"), Some(Field::MaxLat));
    assert_eq!(field_of(b"max_lon"), Some(Field::MaxLon));
    assert_eq!(field_of(b"num_changes"), Some(Field::NumChanges));
    assert_eq!(field_of(b"comments_count"), Some(Field::CommentsCount));
}

#[test]
fn other_attribute_names_map_to_no_field() {
    for name in ["", "ID", "Id", "id ", "description", "k", "v", "ids", "i", "changeset"] {
        assert_eq!(field_of(name.as_bytes()), None, "{:?}", name);
    }
}

#[test]
fn a_full_opening_tag_is_decoded() {
    let opening = element(
        "changeset",
        vec![
            attribute("id", "123"),
            attribute("created_at", "2009-04-21T15:05:37Z"),
            attribute("closed_at", "2009-04-21T16:05:37Z"),
            attribute("open", "false"),
            attribute("user", "Tom &amp; Jerry"),
            attribute("uid", "77"),
            attribute("min_lat", "51.5"),
            attribute("min_lon", "-0.25"),
            attribute("max_lat", "51.75"),
            attribute("max_lon", "0.5"),
            attribute("num_changes", "9"),
            attribute("comments_count", "2"),
        ],
    );
    let record = parse_changeset_element(&opening).unwrap();
    assert_eq!(record.id, 123);
    assert_eq!(record.created_at, Some(1_240_326_337_000));
    assert_eq!(record.closed_at, Some(1_240_329_937_000));
    assert!(!record.open);
    assert_eq!(record.user.as_deref(), Some("Tom & Jerry"));
    assert_eq!(record.uid, Some(77));
    assert_eq!(literal(&record.min_lat), Some(51.5));
    assert_eq!(literal(&record.min_lon), Some(-0.25));
    assert_eq!(literal(&record.max_lat), Some(51.75));
    assert_eq!(literal(&record.max_lon), Some(0.5));
    assert_eq!(record.num_changes, 9);
    assert_eq!(record.comments_count, 2);
    assert_eq!(record.description, None);
}

#[test]
fn absent_fields_stay_absent() {
    let record = parse_changeset_element(&element("changeset", vec![])).unwrap();
    assert_eq!(record, Changeset::new());
    assert_eq!(record, Changeset::default());
    assert_eq!(record.id, 0);
    assert!(!record.open);
    assert_eq!(record.created_at, None);
    assert_eq!(record.closed_at, None);
    assert_eq!(record.user, None);
    assert_eq!(record.uid, None);
    assert_eq!(record.min_lat, None);
    assert_eq!(record.min_lon, None);
    assert_eq!(record.max_lat, None);
    assert_eq!(record.max_lon, None);
    assert_eq!(record.num_changes, 0);
    assert_eq!(record.comments_count, 0);
    assert_eq!(record.description, None);
}

#[test]
fn a_present_zero_is_told_from_an_absent_value() {
    let record = parse_changeset_element(&element(
        "changeset",
        vec![attribute("uid", "0"), attribute("user", ""), attribute("min_lat", "0")],
    ))
    .unwrap();
    assert_eq!(record.uid, Some(0));
    assert_eq!(record.user.as_deref(), Some(""));
    assert_eq!(literal(&record.min_lat), Some(0.0));
    assert_eq!(record.min_lon, None);
}

#[test]
fn an_unknown_attribute_changes_nothing() {
    let with = element(
        "changeset",
        vec![
            attribute("id", "5"),
            attribute("flavour", "vanilla"),
            attribute("open", "true"),
            attribute("user", "ann"),
        ],
    );
    let without = element(
        "changeset",
        vec![attribute("id", "5"), attribute("open", "true"), attribute("user", "ann")],
    );
    assert_eq!(parse_changeset_element(&with), parse_changeset_element(&without));
    assert_eq!(parse_changeset_element(&with).unwrap().id, 5);
}

#[test]
fn an_unknown_attribute_changes_no_error_either() {
    let with = element(
        "changeset",
        vec![attribute("flavour", "vanilla"), attribute("id", "five"), attribute("x", "y")],
    );
    let without = element("changeset", vec![attribute("id", "five")]);
    assert_eq!(parse_changeset_element(&with), parse_changeset_element(&without));
    assert_eq!(
        parse_changeset_element(&with),
        Err(failure(decode_error(Field::Id, "five"), None))
    );
}

#[test]
fn an_unknown_attribute_is_not_even_unescaped() {
    let opening =
        element("changeset", vec![attribute("id", "5"), attribute("flavour", "&bogus;")]);
    assert_eq!(parse_changeset_element(&opening).unwrap().id, 5);
}

#[test]
fn open_is_true_only_for_the_literal_true() {
    let open = |text: &str| {
        parse_changeset_element(&element("changeset", vec![attribute("open", text)])).unwrap().open
    };
    assert!(open("true"));
    assert!(!open("TRUE"));
    assert!(!open("True"));
    assert!(!open("1"));
    assert!(!open(""));
    assert!(!open("false"));
}

#[test]
fn the_last_of_two_equal_names_wins() {
    let opening = element("changeset", vec![attribute("id", "1"), attribute("id", "2")]);
    assert_eq!(parse_changeset_element(&opening).unwrap().id, 2);
}

#[test]
fn each_field_reports_text_it_cannot_decode() {
    let cases = [
        ("id", "12x", Field::Id),
        ("created_at", "not-a-date", Field::CreatedAt),
        ("closed_at", "yesterday", Field::ClosedAt),
        ("uid", "", Field::Uid),
        ("min_lat", "north", Field::MinLat),
        ("min_lon", "1,5", Field::MinLon),
        ("max_lat", "", Field::MaxLat),
        ("max_lon", "1e", Field::MaxLon),
        ("num_changes", "-1", Field::NumChanges),
        ("comments_count", "4294967296", Field::CommentsCount),
    ];
    for (name, text, field) in cases {
        let opening = element("changeset", vec![attribute("id", "8"), attribute(name, text)]);
        assert_eq!(
            parse_changeset_element(&opening),
            Err(failure(decode_error(field, text), Some(8))),
            "{}",
            name
        );
    }
}

#[test]
fn the_first_error_in_source_order_is_reported() {
    let opening = element(
        "changeset",
        vec![attribute("uid", "u"), attribute("id", "i"), Attribute::Malformed],
    );
    assert_eq!(
        parse_changeset_element(&opening),
        Err(failure(decode_error(Field::Uid, "u"), None))
    );
}

#[test]
fn a_malformed_attribute_ends_the_record() {
    let opening =
        element("changeset", vec![attribute("id", "1"), Attribute::Malformed, attribute("uid", "2")]);
    assert_eq!(
        parse_changeset_element(&opening),
        Err(failure(structure(StructuralKind::MalformedAttribute), Some(1)))
    );
}

#[test]
fn a_known_attribute_with_a_bad_escape_ends_the_record() {
    let opening = element("changeset", vec![attribute("user", "a &bogus; b")]);
    assert_eq!(
        parse_changeset_element(&opening),
        Err(failure(structure(StructuralKind::BadEscape), None))
    );
}

#[test]
fn an_error_carries_the_identifier_only_where_it_was_decoded_before() {
    let after = element("changeset", vec![attribute("id", "77"), attribute("uid", "x")]);
    assert_eq!(
        parse_changeset_element(&after),
        Err(failure(decode_error(Field::Uid, "x"), Some(77)))
    );
    let before = element("changeset", vec![attribute("uid", "x"), attribute("id", "77")]);
    assert_eq!(
        parse_changeset_element(&before),
        Err(failure(decode_error(Field::Uid, "x"), None))
    );
    let twice = element(
        "changeset",
        vec![attribute("id", "1"), attribute("id", "2"), attribute("id", "three")],
    );
    assert_eq!(
        parse_changeset_element(&twice),
        Err(failure(decode_error(Field::Id, "three"), Some(2)))
    );
    let zero = element("changeset", vec![attribute("id", "0"), Attribute::Malformed]);
    assert_eq!(
        parse_changeset_element(&zero),
        Err(failure(structure(StructuralKind::MalformedAttribute), Some(0)))
    );
}

#[test]
fn a_record_has_an_identifier_only_where_its_opening_tag_gave_one() {
    let mut record = Changeset::new();
    record.id = 12;
    let named = element("changeset", vec![attribute("uid", "3"), attribute("id", "12")]);
    assert_eq!(identifier_of(&named, &record), Some(12));
    let unnamed = element("changeset", vec![attribute("uid", "3"), attribute("ID", "12")]);
    assert_eq!(identifier_of(&unnamed, &record), None);
    assert_eq!(identifier_of(&element("changeset", vec![]), &record), None);
}

#[test]
fn set_field_leaves_the_record_alone_on_an_error() {
    let mut record = Changeset::new();
    assert_eq!(set_field(&mut record, Field::Id, "41"), Ok(()));
    assert_eq!(set_field(&mut record, Field::Id, "4 1"), Err(decode_error(Field::Id, "4 1")));
    assert_eq!(record.id, 41);
    assert_eq!(set_field(&mut record, Field::Description, "hello"), Ok(()));
    assert_eq!(record.description.as_deref(), Some("hello"));
    assert_eq!(set_field(&mut record, Field::NumChanges, "12"), Ok(()));
    assert_eq!(record.num_changes, 12);
}

#[test]
fn a_comment_tag_sets_the_description() {
    let mut record = Changeset::new();
    assert_eq!(apply_changeset_tag(&tag("comment", "fix road"), &mut record), Ok(()));
    assert_eq!(record.description.as_deref(), Some("fix road"));
}

#[test]
fn a_second_comment_tag_overrides_the_first() {
    let mut record = Changeset::new();
    apply_changeset_tag(&tag("comment", "fix road"), &mut record).unwrap();
    apply_changeset_tag(&tag("comment", "final edit"), &mut record).unwrap();
    assert_eq!(record.description.as_deref(), Some("final edit"));
}

#[test]
fn other_tags_leave_the_description_alone() {
    let mut record = Changeset::new();
    apply_changeset_tag(&tag("comment", "fix road"), &mut record).unwrap();
    apply_changeset_tag(&tag("created_by", "editor"), &mut record).unwrap();
    apply_changeset_tag(&tag("Comment", "shout"), &mut record).unwrap();
    apply_changeset_tag(&element("tag", vec![attribute("k", "comment")]), &mut record).unwrap();
    apply_changeset_tag(&element("tag", vec![attribute("v", "lonely")]), &mut record).unwrap();
    apply_changeset_tag(&element("tag", vec![]), &mut record).unwrap();
    assert_eq!(record.description.as_deref(), Some("fix road"));
}

#[test]
fn a_tag_is_read_whatever_the_order_of_key_and_value() {
    let mut record = Changeset::new();
    let reversed = element(
        "tag",
        vec![attribute("v", "a &lt; b"), attribute("extra", "&bogus;"), attribute("k", "comment")],
    );
    apply_changeset_tag(&reversed, &mut record).unwrap();
    assert_eq!(record.description.as_deref(), Some("a < b"));
}

#[test]
fn a_broken_tag_leaves_the_record_alone() {
    let mut record = Changeset::new();
    apply_changeset_tag(&tag("comment", "kept"), &mut record).unwrap();
    assert_eq!(
        apply_changeset_tag(&tag("comment", "&bogus;"), &mut record),
        Err(structure(StructuralKind::BadEscape))
    );
    assert_eq!(
        apply_changeset_tag(
            &element("tag", vec![attribute("k", "comment"), Attribute::Malformed]),
            &mut record
        ),
        Err(structure(StructuralKind::MalformedAttribute))
    );
    assert_eq!(record.description.as_deref(), Some("kept"));
}

#[test]
fn the_closing_tag_of_the_record_completes_it() {
    let mut record = Changeset::new();
    let end = Event::End(b"changeset".to_vec());
    assert_eq!(parse_changeset_body(Phase::Children, &mut record, &end), Ok(None));
    let other = Event::End(b"osm".to_vec());
    assert_eq!(parse_changeset_body(Phase::Children, &mut record, &other), Ok(Some(Phase::Children)));
    assert_eq!(parse_changeset_body(Phase::Children, &mut record, &Event::Other), Ok(Some(Phase::Children)));
}

#[test]
fn tags_in_the_body_are_read_and_opening_tags_are_skipped() {
    let mut record = Changeset::new();
    let empty = Event::Empty(tag("comment", "one"));
    assert_eq!(parse_changeset_body(Phase::Children, &mut record, &empty), Ok(Some(Phase::Children)));
    assert_eq!(record.description.as_deref(), Some("one"));
    let start = Event::Start(tag("comment", "two"));
    assert_eq!(
        parse_changeset_body(Phase::Children, &mut record, &start),
        Ok(Some(Phase::Skipping { name: b"tag".to_vec(), depth: 0 }))
    );
    assert_eq!(record.description.as_deref(), Some("two"));
    let discussion = Event::Start(element("discussion", vec![]));
    assert_eq!(
        parse_changeset_body(Phase::Children, &mut record, &discussion),
        Ok(Some(Phase::Skipping { name: b"discussion".to_vec(), depth: 0 }))
    );
    let note = Event::Empty(element("note", vec![Attribute::Malformed]));
    assert_eq!(parse_changeset_body(Phase::Children, &mut record, &note), Ok(Some(Phase::Children)));
    assert_eq!(record.description.as_deref(), Some("two"));
}

#[test]
fn a_skip_counts_the_elements_of_its_own_name() {
    let mut record = Changeset::new();
    let skipping = |depth: u64| Phase::Skipping { name: b"a".to_vec(), depth };
    let open_a = Event::Start(element("a", vec![]));
    let open_b = Event::Start(element("b", vec![]));
    let close_a = Event::End(b"a".to_vec());
    let close_b = Event::End(b"b".to_vec());
    let close_record = Event::End(b"changeset".to_vec());
    let comment = Event::Empty(tag("comment", "inside"));
    assert_eq!(parse_changeset_body(skipping(0), &mut record, &open_a), Ok(Some(skipping(1))));
    assert_eq!(parse_changeset_body(skipping(1), &mut record, &open_b), Ok(Some(skipping(1))));
    assert_eq!(parse_changeset_body(skipping(1), &mut record, &close_b), Ok(Some(skipping(1))));
    assert_eq!(parse_changeset_body(skipping(1), &mut record, &comment), Ok(Some(skipping(1))));
    assert_eq!(parse_changeset_body(skipping(1), &mut record, &close_record), Ok(Some(skipping(1))));
    assert_eq!(parse_changeset_body(skipping(1), &mut record, &Event::Other), Ok(Some(skipping(1))));
    assert_eq!(parse_changeset_body(skipping(1), &mut record, &close_a), Ok(Some(skipping(0))));
    assert_eq!(parse_changeset_body(skipping(0), &mut record, &close_a), Ok(Some(Phase::Children)));
    assert_eq!(record, Changeset::new());
}

#[test]
fn the_end_of_the_input_inside_a_record_is_an_error() {
    let mut record = Changeset::new();
    let unexpected = Err(structure(StructuralKind::UnexpectedEndOfStream));
    assert_eq!(parse_changeset_body(Phase::Children, &mut record, &Event::Eof), unexpected);
    let skipping = Phase::Skipping { name: b"a".to_vec(), depth: 3 };
    assert_eq!(parse_changeset_body(skipping, &mut record, &Event::Eof), unexpected);
}

#[test]
fn tokenizer_errors_inside_a_record_end_it() {
    let mut record = Changeset::new();
    assert_eq!(
        parse_changeset_body(Phase::Children, &mut record, &Event::SyntaxError),
        Err(structure(StructuralKind::Syntax))
    );
    assert_eq!(parse_changeset_body(Phase::Children, &mut record, &Event::IoError), Err(Error::Io));
    let skipping = Phase::Skipping { name: b"a".to_vec(), depth: 0 };
    assert_eq!(parse_changeset_body(skipping, &mut record, &Event::IoError), Err(Error::Io));
}

#[test]
fn nesting_beyond_what_can_be_counted_is_an_error() {
    let mut record = Changeset::new();
    let deepest = Phase::Skipping { name: b"a".to_vec(), depth: u64::MAX };
    let open_a = Event::Start(element("a", vec![]));
    assert_eq!(
        parse_changeset_body(deepest, &mut record, &open_a),
        Err(structure(StructuralKind::TooDeep))
    );
}

#[test]
fn the_walk_opens_records_only_at_changeset_tags() {
    let (cursor, walked) = walk(Cursor::TopLevel, &Event::Start(element("osm", vec![])));
    assert_eq!((cursor, walked), (Cursor::TopLevel, Walked::Nothing));
    let (cursor, walked) = walk(Cursor::TopLevel, &Event::End(b"changeset".to_vec()));
    assert_eq!((cursor, walked), (Cursor::TopLevel, Walked::Nothing));
    let (cursor, walked) = walk(Cursor::TopLevel, &Event::Other);
    assert_eq!((cursor, walked), (Cursor::TopLevel, Walked::Nothing));
    let (cursor, walked) = walk(Cursor::TopLevel, &Event::Eof);
    assert_eq!((cursor, walked), (Cursor::TopLevel, Walked::End));

    let opening = element("changeset", vec![attribute("id", "3")]);
    let mut expected = Changeset::new();
    expected.id = 3;
    let (cursor, walked) = walk(Cursor::TopLevel, &Event::Empty(element("changeset", vec![attribute("id", "3")])));
    assert_eq!(cursor, Cursor::TopLevel);
    assert_eq!(walked, Walked::Record(expected.duplicate()));
    let (cursor, walked) = walk(Cursor::TopLevel, &Event::Start(opening));
    assert_eq!(walked, Walked::Nothing);
    assert_eq!(
        cursor,
        Cursor::InRecord { changeset: expected.duplicate(), phase: Phase::Children, id: Some(3) }
    );
    let (cursor, walked) = walk(cursor, &Event::Empty(tag("comment", "hi")));
    assert_eq!(walked, Walked::Nothing);
    expected.description = Some("hi".to_string());
    let (cursor, walked) = walk(cursor, &Event::End(b"changeset".to_vec()));
    assert_eq!(cursor, Cursor::TopLevel);
    assert_eq!(walked, Walked::Record(expected));
}

#[test]
fn the_walk_fails_on_errors_at_the_top_level() {
    let (_, walked) = walk(Cursor::TopLevel, &Event::SyntaxError);
    assert_eq!(walked, Walked::Failed(failure(structure(StructuralKind::Syntax), None)));
    let (_, walked) = walk(Cursor::TopLevel, &Event::IoError);
    assert_eq!(walked, Walked::Failed(failure(Error::Io, None)));
    let broken = element("changeset", vec![attribute("created_at", "not-a-date")]);
    let (cursor, walked) = walk(Cursor::TopLevel, &Event::Start(broken));
    assert_eq!(cursor, Cursor::TopLevel);
    assert_eq!(
        walked,
        Walked::Failed(failure(decode_error(Field::CreatedAt, "not-a-date"), None))
    );
    let inside =
        Cursor::InRecord { changeset: Changeset::new(), phase: Phase::Children, id: Some(6) };
    let (_, walked) = walk(inside, &Event::Eof);
    assert_eq!(
        walked,
        Walked::Failed(failure(structure(StructuralKind::UnexpectedEndOfStream), Some(6)))
    );
    let unnamed = Cursor::InRecord { changeset: Changeset::new(), phase: Phase::Children, id: None };
    let (_, walked) = walk(unnamed, &Event::SyntaxError);
    assert_eq!(walked, Walked::Failed(failure(structure(StructuralKind::Syntax), None)));
}
