use hedera::{
    AnyMirrorQuery, AnyMirrorQueryData, DeserializeError, EntityId, Field, MirrorQuery,
    MirrorQueryKind, MirrorQuerySubscribe, NodeAddressBookQueryData, QueryField, Record,
    StatusCode, Timestamp, TopicMessageQueryData, Value,
};

fn text(s: &str) -> Value {
    Value::Text(String::from(s))
}

fn record(fields: Vec<(&str, Value)>) -> Record {
    let mut record = Record::new();
    for (name, value) in fields {
        record.push(name, value);
    }
    record
}

fn feed_query() -> TopicMessageQueryData {
    TopicMessageQueryData {
        topic_id: EntityId::new(0, 0, 4321),
        start_time: Some(Timestamp { seconds: 1_700_000_000, nanos: 250 }),
        end_time: None,
        limit: 100,
    }
}

#[test]
fn feed_query_is_stored_flat_under_its_tag() {
    let query = MirrorQuery::new(AnyMirrorQueryData::TopicMessage(feed_query()));
    let stored = query.serialize();
    assert_eq!(
        stored,
        Record {
            fields: vec![
                Field { name: String::from("$type"), value: text("topicMessage") },
                Field { name: String::from("topicId"), value: text("0.0.4321") },
                Field { name: String::from("startTime"), value: text("1700000000.250") },
                Field { name: String::from("endTime"), value: Value::Null },
                Field { name: String::from("limit"), value: Value::Number(100) },
            ],
        }
    );
    assert_eq!(stored.get("$type"), Some(&text(MirrorQueryKind::TopicMessage.as_str())));
    assert_eq!(AnyMirrorQuery::deserialize(&stored), Ok(query));
}

#[test]
fn listing_query_is_stored_flat_under_its_tag() {
    let data = NodeAddressBookQueryData { file_id: EntityId::new(0, 0, 101), limit: 25 };
    let query = MirrorQuery::new(AnyMirrorQueryData::NodeAddressBook(data));
    let stored = query.serialize();
    assert_eq!(
        stored,
        record(vec![
            ("$type", text("nodeAddressBook")),
            ("fileId", text("0.0.101")),
            ("limit", Value::Number(25)),
        ])
    );
    assert_eq!(AnyMirrorQuery::deserialize(&stored), Ok(query));
}

#[test]
fn query_of_one_payload_is_stored_like_the_query_of_any() {
    let data = feed_query();
    assert_eq!(
        MirrorQuery::new(data).serialize(),
        MirrorQuery::new(AnyMirrorQueryData::TopicMessage(data)).serialize()
    );
    let data = NodeAddressBookQueryData::new();
    assert_eq!(
        MirrorQuery::new(data).serialize(),
        MirrorQuery::new(AnyMirrorQueryData::NodeAddressBook(data)).serialize()
    );
}

#[test]
fn stored_queries_are_read_back_as_they_were() {
    let payloads = [
        AnyMirrorQueryData::NodeAddressBook(NodeAddressBookQueryData::new()),
        AnyMirrorQueryData::NodeAddressBook(NodeAddressBookQueryData {
            file_id: EntityId::new(u64::MAX, u64::MAX, u64::MAX),
            limit: u32::MAX,
        }),
        AnyMirrorQueryData::TopicMessage(TopicMessageQueryData::new(EntityId::new(0, 0, 0))),
        AnyMirrorQueryData::TopicMessage(feed_query()),
        AnyMirrorQueryData::TopicMessage(TopicMessageQueryData {
            topic_id: EntityId::new(1, 2, 3),
            start_time: Some(Timestamp { seconds: -377_705_116_800, nanos: 0 }),
            end_time: Some(Timestamp { seconds: 253_402_300_799, nanos: 999_999_999 }),
            limit: u64::MAX,
        }),
    ];
    for data in payloads {
        let query = MirrorQuery::new(data);
        let back = AnyMirrorQuery::deserialize(&query.serialize()).unwrap();
        assert_eq!(back, query);
        assert_eq!(back.data.kind(), data.kind());
        for n in 0..17 {
            let code = StatusCode::from_i32(n);
            assert_eq!(back.data.should_retry(code), data.should_retry(code));
            assert_eq!(back.on_pull(Err(code)), query.on_pull(Err(code)));
        }
    }
}

#[test]
fn fields_are_found_by_name_in_any_order() {
    let stored = record(vec![
        ("limit", Value::Number(7)),
        ("comment", text("kept by another program")),
        ("fileId", text("0.0.102")),
        ("$type", text("nodeAddressBook")),
    ]);
    assert_eq!(
        AnyMirrorQuery::deserialize(&stored),
        Ok(MirrorQuery::new(AnyMirrorQueryData::NodeAddressBook(NodeAddressBookQueryData {
            file_id: EntityId::new(0, 0, 102),
            limit: 7,
        })))
    );
}

#[test]
fn first_of_two_fields_of_one_name_counts() {
    let stored = record(vec![
        ("$type", text("nodeAddressBook")),
        ("$type", text("topicMessage")),
        ("fileId", text("0.0.102")),
        ("limit", Value::Number(1)),
        ("limit", Value::Number(2)),
    ]);
    assert_eq!(stored.get("limit"), Some(&Value::Number(1)));
    assert_eq!(stored.get("absent"), None);
    let query = AnyMirrorQuery::deserialize(&stored).unwrap();
    assert_eq!(
        query.data,
        AnyMirrorQueryData::NodeAddressBook(NodeAddressBookQueryData { file_id: EntityId::new(0, 0, 102), limit: 1 })
    );
}

#[test]
fn absent_instants_are_none() {
    let stored = record(vec![
        ("$type", text("topicMessage")),
        ("topicId", text("0.0.9")),
        ("limit", Value::Number(0)),
    ]);
    assert_eq!(
        AnyMirrorQuery::deserialize(&stored),
        Ok(MirrorQuery::new(AnyMirrorQueryData::TopicMessage(TopicMessageQueryData::new(EntityId::new(0, 0, 9)))))
    );
}

#[test]
fn record_without_tag_is_refused() {
    let stored = record(vec![("fileId", text("0.0.102")), ("limit", Value::Number(0))]);
    assert_eq!(AnyMirrorQuery::deserialize(&stored), Err(DeserializeError::MissingTag));
    assert_eq!(AnyMirrorQuery::deserialize(&Record::new()), Err(DeserializeError::MissingTag));
}

#[test]
fn tag_that_is_no_text_is_refused() {
    for tag in [Value::Null, Value::Number(0)] {
        let stored = record(vec![("$type", tag), ("fileId", text("0.0.102")), ("limit", Value::Number(0))]);
        assert_eq!(AnyMirrorQuery::deserialize(&stored), Err(DeserializeError::InvalidTag));
    }
}

#[test]
fn unknown_tag_is_refused() {
    for tag in ["", "NodeAddressBook", "nodeaddressbook", "topicMessage ", "accountBalance", "$type"] {
        let stored = record(vec![
            ("$type", text(tag)),
            ("fileId", text("0.0.102")),
            ("topicId", text("0.0.102")),
            ("limit", Value::Number(0)),
        ]);
        assert_eq!(AnyMirrorQuery::deserialize(&stored), Err(DeserializeError::UnknownTag), "{:?}", tag);
    }
}

#[test]
fn kinds_and_their_names() {
    assert_eq!(MirrorQueryKind::NodeAddressBook.as_str(), "nodeAddressBook");
    assert_eq!(MirrorQueryKind::TopicMessage.as_str(), "topicMessage");
    assert_eq!(MirrorQueryKind::from_name("nodeAddressBook"), Some(MirrorQueryKind::NodeAddressBook));
    assert_eq!(MirrorQueryKind::from_name("topicMessage"), Some(MirrorQueryKind::TopicMessage));
    assert_eq!(MirrorQueryKind::from_name("topic"), None);
    assert_eq!(QueryField::FileId.as_str(), "fileId");
    assert_eq!(QueryField::TopicId.as_str(), "topicId");
    assert_eq!(QueryField::StartTime.as_str(), "startTime");
    assert_eq!(QueryField::EndTime.as_str(), "endTime");
    assert_eq!(QueryField::Limit.as_str(), "limit");
}

#[test]
fn listing_with_a_missing_field_is_refused() {
    let stored = record(vec![("$type", text("nodeAddressBook")), ("limit", Value::Number(0))]);
    assert_eq!(AnyMirrorQuery::deserialize(&stored), Err(DeserializeError::MissingField(QueryField::FileId)));
    let stored = record(vec![("$type", text("nodeAddressBook")), ("fileId", text("0.0.102"))]);
    assert_eq!(AnyMirrorQuery::deserialize(&stored), Err(DeserializeError::MissingField(QueryField::Limit)));
    let stored = record(vec![("$type", text("nodeAddressBook"))]);
    assert_eq!(AnyMirrorQuery::deserialize(&stored), Err(DeserializeError::MissingField(QueryField::FileId)));
}

#[test]
fn listing_with_a_malformed_field_is_refused() {
    for file_id in [text("0.0"), text("0.0.102.1"), text("a.b.c"), text(""), Value::Number(102), Value::Null] {
        let stored = record(vec![("$type", text("nodeAddressBook")), ("fileId", file_id), ("limit", Value::Number(0))]);
        assert_eq!(AnyMirrorQuery::deserialize(&stored), Err(DeserializeError::InvalidField(QueryField::FileId)));
    }
    for limit in [Value::Number(u32::MAX as u64 + 1), Value::Number(u64::MAX), text("7"), Value::Null] {
        let stored = record(vec![("$type", text("nodeAddressBook")), ("fileId", text("0.0.102")), ("limit", limit)]);
        assert_eq!(AnyMirrorQuery::deserialize(&stored), Err(DeserializeError::InvalidField(QueryField::Limit)));
    }
}

#[test]
fn feed_with_a_missing_field_is_refused() {
    let stored = record(vec![("$type", text("topicMessage")), ("limit", Value::Number(0))]);
    assert_eq!(AnyMirrorQuery::deserialize(&stored), Err(DeserializeError::MissingField(QueryField::TopicId)));
    let stored = record(vec![("$type", text("topicMessage")), ("topicId", text("0.0.1"))]);
    assert_eq!(AnyMirrorQuery::deserialize(&stored), Err(DeserializeError::MissingField(QueryField::Limit)));
}

#[test]
fn feed_with_a_malformed_field_is_refused() {
    let with = |name: &str, value: Value| {
        let mut fields = vec![
            ("$type", text("topicMessage")),
            ("topicId", text("0.0.1")),
            ("startTime", text("1.1")),
            ("endTime", text("2.2")),
            ("limit", Value::Number(3)),
        ];
        let at = fields.iter().position(|(n, _)| *n == name).unwrap();
        fields[at].1 = value;
        AnyMirrorQuery::deserialize(&record(fields))
    };
    assert_eq!(with("topicId", text("1.2")), Err(DeserializeError::InvalidField(QueryField::TopicId)));
    assert_eq!(with("startTime", text("soon")), Err(DeserializeError::InvalidField(QueryField::StartTime)));
    assert_eq!(with("startTime", Value::Number(1)), Err(DeserializeError::InvalidField(QueryField::StartTime)));
    assert_eq!(with("endTime", text("253402300800.0")), Err(DeserializeError::InvalidField(QueryField::EndTime)));
    assert_eq!(with("endTime", Value::Number(2)), Err(DeserializeError::InvalidField(QueryField::EndTime)));
    assert_eq!(with("limit", text("3")), Err(DeserializeError::InvalidField(QueryField::Limit)));
    assert_eq!(with("limit", Value::Null), Err(DeserializeError::InvalidField(QueryField::Limit)));
    assert_eq!(
        with("limit", Value::Number(u64::MAX)).unwrap().data,
        AnyMirrorQueryData::TopicMessage(TopicMessageQueryData {
            topic_id: EntityId::new(0, 0, 1),
            start_time: Some(Timestamp { seconds: 1, nanos: 1 }),
            end_time: Some(Timestamp { seconds: 2, nanos: 2 }),
            limit: u64::MAX,
        })
    );
}

#[test]
fn defects_of_a_record_are_reported_in_order() {
    let stored = record(vec![
        ("$type", text("topicMessage")),
        ("topicId", text("0.0.1")),
        ("startTime", text("never")),
        ("endTime", text("never")),
    ]);
    assert_eq!(AnyMirrorQuery::deserialize(&stored), Err(DeserializeError::InvalidField(QueryField::StartTime)));
}
