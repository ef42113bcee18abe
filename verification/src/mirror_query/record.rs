//! The form in which a query is stored: named fields on one level.
//!
//! A stored query is a record. Its field `$type` names the kind of the
//! payload; the fields of the payload stand beside it, not below it. The
//! names are what a reader in another process goes by, so they do not
//! change. A format that can write a record of numbers and texts can store
//! a query.

use vstd::prelude::*;

use crate::entity_id::{lemma_entity_id_round_trip, EntityId};
use crate::mirror_query::any::AnyMirrorQueryData;
use crate::mirror_query::{
    lemma_kind_names, retry_policy, AnyMirrorQuery, MirrorQuery, MirrorQueryKind,
    MirrorQuerySubscribe,
};
use crate::node_address::NodeAddressBookQueryData;
use crate::status::StatusCode;
use crate::text::same_text;
use crate::timestamp::{lemma_timestamp_round_trip, Timestamp};
use crate::topic_message::TopicMessageQueryData;

verus! {

/// The value of a field.
#[derive(Clone, Debug, PartialEq, Eq)]
pub enum Value {
    Null,
    Number(u64),
    Text(String),
}

/// A field: a name and a value.
#[derive(Clone, Debug, PartialEq, Eq)]
pub struct Field {
    pub name: String,
    pub value: Value,
}

/// A record: fields in the order in which they were written.
#[derive(Clone, Debug, PartialEq, Eq)]
pub struct Record {
    pub fields: Vec<Field>,
}

/// What a [`Value`] holds.
pub enum ValueView {
    Null,
    Number(u64),
    Text(Seq<char>),
}

/// What a [`Field`] holds.
pub struct FieldView {
    pub name: Seq<char>,
    pub value: ValueView,
}

impl View for Value {
    type V = ValueView;

    open spec fn view(&self) -> ValueView {
        match self {
            Value::Null => ValueView::Null,
            Value::Number(n) => ValueView::Number(*n),
            Value::Text(t) => ValueView::Text(t@),
        }
    }
}

impl View for Field {
    type V = FieldView;

    open spec fn view(&self) -> FieldView {
        FieldView { name: self.name@, value: self.value@ }
    }
}

impl View for Record {
    type V = Seq<FieldView>;

    open spec fn view(&self) -> Seq<FieldView> {
        Seq::new(self.fields@.len(), |i: int| self.fields@[i]@)
    }
}

/// The fields of the payloads.
#[derive(Clone, Copy, Debug, PartialEq, Eq, Hash, Structural)]
pub enum QueryField {
    FileId,
    TopicId,
    StartTime,
    EndTime,
    Limit,
}

/// Why a record is not a stored query. A record with several defects is
/// refused for the first that a reader meets: the tag is read first, then
/// the fields of the payload in the order in which the payload declares
/// them.
#[derive(Clone, Copy, Debug, PartialEq, Eq, Hash, Structural)]
pub enum DeserializeError {
    /// The record has no field `$type`.
    MissingTag,
    /// The field `$type` holds no text.
    InvalidTag,
    /// The field `$type` names no kind of payload.
    UnknownTag,
    /// The payload lacks a field that it must have.
    MissingField(QueryField),
    /// A field of the payload holds what it cannot hold.
    InvalidField(QueryField),
}

impl QueryField {
    /// The name under which the field is stored.
    pub open spec fn name(self) -> Seq<char> {
        match self {
            QueryField::FileId => "fileId"@,
            QueryField::TopicId => "topicId"@,
            QueryField::StartTime => "startTime"@,
            QueryField::EndTime => "endTime"@,
            QueryField::Limit => "limit"@,
        }
    }

    /// The name under which the field is stored.
    pub fn as_str(self) -> (name: &'static str)
        ensures
            name@ == self.name(),
    {
        match self {
            QueryField::FileId => "fileId",
            QueryField::TopicId => "topicId",
            QueryField::StartTime => "startTime",
            QueryField::EndTime => "endTime",
            QueryField::Limit => "limit",
        }
    }
}

/// The name of the field that holds the tag.
pub open spec fn tag_name() -> Seq<char> {
    "$type"@
}

/// Where the first field named `name` stands at or after `from`; the number
/// of fields if there is none.
pub open spec fn position(fields: Seq<FieldView>, name: Seq<char>, from: int) -> int
    decreases fields.len() - from,
{
    if from < 0 || from >= fields.len() {
        fields.len() as int
    } else if fields[from].name == name {
        from
    } else {
        position(fields, name, from + 1)
    }
}

/// The value of the first field named `name`.
pub open spec fn lookup(fields: Seq<FieldView>, name: Seq<char>) -> Option<ValueView> {
    let at = position(fields, name, 0);
    if at < fields.len() {
        Some(fields[at].value)
    } else {
        None
    }
}

/// How an instant that may be absent is stored: as its text, or as null.
pub open spec fn instant_value(t: Option<Timestamp>) -> ValueView {
    match t {
        Some(t) => ValueView::Text(t.text()),
        None => ValueView::Null,
    }
}

/// The record of a payload: its tag, then its fields.
pub open spec fn record_of(data: AnyMirrorQueryData) -> Seq<FieldView> {
    let tag = FieldView { name: tag_name(), value: ValueView::Text(data.kind_of().name()) };
    match data {
        AnyMirrorQueryData::NodeAddressBook(query) => seq![
            tag,
            FieldView { name: QueryField::FileId.name(), value: ValueView::Text(query.file_id.text()) },
            FieldView { name: QueryField::Limit.name(), value: ValueView::Number(query.limit as u64) },
        ],
        AnyMirrorQueryData::TopicMessage(query) => seq![
            tag,
            FieldView {
                name: QueryField::TopicId.name(),
                value: ValueView::Text(query.topic_id.text()),
            },
            FieldView { name: QueryField::StartTime.name(), value: instant_value(query.start_time) },
            FieldView { name: QueryField::EndTime.name(), value: instant_value(query.end_time) },
            FieldView { name: QueryField::Limit.name(), value: ValueView::Number(query.limit) },
        ],
    }
}

/// The identifier in a field: the field must be there and hold the text of
/// one.
pub open spec fn id_in(fields: Seq<FieldView>, field: QueryField) -> Result<
    EntityId,
    DeserializeError,
> {
    match lookup(fields, field.name()) {
        None => Err(DeserializeError::MissingField(field)),
        Some(ValueView::Text(t)) => match EntityId::parse(t) {
            Some(id) => Ok(id),
            None => Err(DeserializeError::InvalidField(field)),
        },
        Some(_) => Err(DeserializeError::InvalidField(field)),
    }
}

/// The number in a field: the field must be there and hold a number up to
/// `most`.
pub open spec fn number_in(fields: Seq<FieldView>, field: QueryField, most: u64) -> Result<
    u64,
    DeserializeError,
> {
    match lookup(fields, field.name()) {
        None => Err(DeserializeError::MissingField(field)),
        Some(ValueView::Number(n)) => if n <= most {
            Ok(n)
        } else {
            Err(DeserializeError::InvalidField(field))
        },
        Some(_) => Err(DeserializeError::InvalidField(field)),
    }
}

/// The instant in a field. There is none where the field is absent or null;
/// a field that is there must hold the text of an instant.
pub open spec fn instant_in(fields: Seq<FieldView>, field: QueryField) -> Result<
    Option<Timestamp>,
    DeserializeError,
> {
    match lookup(fields, field.name()) {
        None => Ok(None),
        Some(ValueView::Null) => Ok(None),
        Some(ValueView::Text(t)) => match Timestamp::parse(t) {
            Some(t) => Ok(Some(t)),
            None => Err(DeserializeError::InvalidField(field)),
        },
        Some(_) => Err(DeserializeError::InvalidField(field)),
    }
}

/// The listing that a record stores.
pub open spec fn listing_of(fields: Seq<FieldView>) -> Result<
    NodeAddressBookQueryData,
    DeserializeError,
> {
    match id_in(fields, QueryField::FileId) {
        Err(e) => Err(e),
        Ok(file_id) => match number_in(fields, QueryField::Limit, u32::MAX as u64) {
            Err(e) => Err(e),
            Ok(limit) => Ok(NodeAddressBookQueryData { file_id, limit: limit as u32 }),
        },
    }
}

/// The feed that a record stores.
pub open spec fn feed_of(fields: Seq<FieldView>) -> Result<
    TopicMessageQueryData,
    DeserializeError,
> {
    match id_in(fields, QueryField::TopicId) {
        Err(e) => Err(e),
        Ok(topic_id) => match instant_in(fields, QueryField::StartTime) {
            Err(e) => Err(e),
            Ok(start_time) => match instant_in(fields, QueryField::EndTime) {
                Err(e) => Err(e),
                Ok(end_time) => match number_in(fields, QueryField::Limit, u64::MAX) {
                    Err(e) => Err(e),
                    Ok(limit) => Ok(TopicMessageQueryData { topic_id, start_time, end_time, limit }),
                },
            },
        },
    }
}

/// The payload that a record stores: the one that its tag names, read from
/// the fields beside the tag.
pub open spec fn data_of(fields: Seq<FieldView>) -> Result<AnyMirrorQueryData, DeserializeError> {
    match lookup(fields, tag_name()) {
        None => Err(DeserializeError::MissingTag),
        Some(ValueView::Text(tag)) => match MirrorQueryKind::named(tag) {
            None => Err(DeserializeError::UnknownTag),
            Some(MirrorQueryKind::NodeAddressBook) => match listing_of(fields) {
                Ok(query) => Ok(AnyMirrorQueryData::NodeAddressBook(query)),
                Err(e) => Err(e),
            },
            Some(MirrorQueryKind::TopicMessage) => match feed_of(fields) {
                Ok(query) => Ok(AnyMirrorQueryData::TopicMessage(query)),
                Err(e) => Err(e),
            },
        },
        Some(_) => Err(DeserializeError::InvalidTag),
    }
}

impl Record {
    /// A record without fields.
    pub fn new() -> (record: Record)
        ensures
            record@ == Seq::<FieldView>::empty(),
    {
        let record = Record { fields: Vec::new() };
        assert(record@ =~= Seq::<FieldView>::empty());
        record
    }

    /// Writes a field after the others.
    pub fn push(&mut self, name: &str, value: Value)
        ensures
            final(self)@ == old(self)@.push(FieldView { name: name@, value: value@ }),
    {
        self.fields.push(Field { name: String::from_str(name), value });
        assert(self@ =~= old(self)@.push(FieldView { name: name@, value: value@ }));
    }

    /// The value of the first field named `name`.
    pub fn get(&self, name: &str) -> (value: Option<&Value>)
        ensures
            match value {
                Some(v) => lookup(self@, name@) == Some(v@),
                None => lookup(self@, name@) is None,
            },
    {
        let mut i: usize = 0;
        while i < self.fields.len()
            invariant
                i <= self.fields.len(),
                position(self@, name@, 0) == position(self@, name@, i as int),
            decreases self.fields.len() - i,
        {
            if same_text(self.fields[i].name.as_str(), name) {
                assert(self@[i as int].name == name@);
                return Some(&self.fields[i].value);
            }
            assert(self@[i as int].name != name@);
            i += 1;
        }
        None
    }

    /// The identifier in a field.
    fn id_in(&self, field: QueryField) -> (r: Result<EntityId, DeserializeError>)
        ensures
            r == id_in(self@, field),
    {
        match self.get(field.as_str()) {
            None => Err(DeserializeError::MissingField(field)),
            Some(Value::Text(t)) => match EntityId::from_str(t.as_str()) {
                Some(id) => Ok(id),
                None => Err(DeserializeError::InvalidField(field)),
            },
            Some(_) => Err(DeserializeError::InvalidField(field)),
        }
    }

    /// The number in a field.
    fn number_in(&self, field: QueryField, most: u64) -> (r: Result<u64, DeserializeError>)
        ensures
            r == number_in(self@, field, most),
    {
        match self.get(field.as_str()) {
            None => Err(DeserializeError::MissingField(field)),
            Some(Value::Number(n)) => if *n <= most {
                Ok(*n)
            } else {
                Err(DeserializeError::InvalidField(field))
            },
            Some(_) => Err(DeserializeError::InvalidField(field)),
        }
    }

    /// The instant in a field.
    fn instant_in(&self, field: QueryField) -> (r: Result<Option<Timestamp>, DeserializeError>)
        ensures
            r == instant_in(self@, field),
            r matches Ok(Some(t)) ==> t.wf(),
    {
        match self.get(field.as_str()) {
            None => Ok(None),
            Some(Value::Null) => Ok(None),
            Some(Value::Text(t)) => match Timestamp::from_str(t.as_str()) {
                Some(t) => Ok(Some(t)),
                None => Err(DeserializeError::InvalidField(field)),
            },
            Some(_) => Err(DeserializeError::InvalidField(field)),
        }
    }
}

/// How an instant that may be absent is stored.
fn instant_value_of(t: Option<Timestamp>) -> (value: Value)
    ensures
        value@ == instant_value(t),
{
    match t {
        Some(t) => Value::Text(t.to_string()),
        None => Value::Null,
    }
}

impl<D: MirrorQuerySubscribe> MirrorQuery<D> {
    /// The record that stores the query. The query holds nothing but its
    /// payload, so the record is that of the payload.
    pub fn serialize(&self) -> (record: Record)
        ensures
            record@ == record_of(self.data.erased()),
    {
        let data = self.data.to_any();
        let mut record = Record::new();
        record.push("$type", Value::Text(String::from_str(data.kind().as_str())));
        match data {
            AnyMirrorQueryData::NodeAddressBook(query) => {
                record.push(
                    QueryField::FileId.as_str(),
                    Value::Text(query.file_id.to_string()),
                );
                record.push(QueryField::Limit.as_str(), Value::Number(query.limit as u64));
            },
            AnyMirrorQueryData::TopicMessage(query) => {
                record.push(
                    QueryField::TopicId.as_str(),
                    Value::Text(query.topic_id.to_string()),
                );
                record.push(QueryField::StartTime.as_str(), instant_value_of(query.start_time));
                record.push(QueryField::EndTime.as_str(), instant_value_of(query.end_time));
                record.push(QueryField::Limit.as_str(), Value::Number(query.limit));
            },
        }
        assert(record@ =~= record_of(data));
        record
    }
}

impl MirrorQuery<AnyMirrorQueryData> {
    /// The query that a record stores.
    ///
    /// A record whose tag is missing, is no text or names no kind is
    /// refused, and so is one whose payload lacks a field or holds a field
    /// that does not read: nothing is made up for what is not there.
    pub fn deserialize(record: &Record) -> (r: Result<AnyMirrorQuery, DeserializeError>)
        ensures
            match r {
                Ok(query) => data_of(record@) == Ok::<AnyMirrorQueryData, DeserializeError>(
                    query.data,
                ) && query.data.wf(),
                Err(e) => data_of(record@) == Err::<AnyMirrorQueryData, DeserializeError>(e),
            },
    {
        let kind = match record.get("$type") {
            None => {
                return Err(DeserializeError::MissingTag);
            },
            Some(Value::Text(tag)) => match MirrorQueryKind::from_name(tag.as_str()) {
                None => {
                    return Err(DeserializeError::UnknownTag);
                },
                Some(kind) => kind,
            },
            Some(_) => {
                return Err(DeserializeError::InvalidTag);
            },
        };
        match kind {
            MirrorQueryKind::NodeAddressBook => {
                let file_id = match record.id_in(QueryField::FileId) {
                    Err(e) => {
                        return Err(e);
                    },
                    Ok(id) => id,
                };
                let limit: u64 = match record.number_in(QueryField::Limit, 0xffff_ffff) {
                    Err(e) => {
                        return Err(e);
                    },
                    Ok(n) => n,
                };
                Ok(
                    MirrorQuery {
                        data: AnyMirrorQueryData::NodeAddressBook(
                            NodeAddressBookQueryData { file_id, limit: limit as u32 },
                        ),
                    },
                )
            },
            MirrorQueryKind::TopicMessage => {
                let topic_id = match record.id_in(QueryField::TopicId) {
                    Err(e) => {
                        return Err(e);
                    },
                    Ok(id) => id,
                };
                let start_time = match record.instant_in(QueryField::StartTime) {
                    Err(e) => {
                        return Err(e);
                    },
                    Ok(t) => t,
                };
                let end_time = match record.instant_in(QueryField::EndTime) {
                    Err(e) => {
                        return Err(e);
                    },
                    Ok(t) => t,
                };
                let limit: u64 = match record.number_in(QueryField::Limit, 0xffff_ffff_ffff_ffff) {
                    Err(e) => {
                        return Err(e);
                    },
                    Ok(n) => n,
                };
                Ok(
                    MirrorQuery {
                        data: AnyMirrorQueryData::TopicMessage(
                            TopicMessageQueryData { topic_id, start_time, end_time, limit },
                        ),
                    },
                )
            },
        }
    }
}

/// A field is found where no field before it has its name.
proof fn lemma_lookup(fields: Seq<FieldView>, name: Seq<char>, from: int, at: int)
    requires
        0 <= from <= at < fields.len(),
        forall|j: int| from <= j < at ==> (#[trigger] fields[j]).name != name,
        fields[at].name == name,
    ensures
        position(fields, name, from) == at,
        from == 0 ==> lookup(fields, name) == Some(fields[at].value),
    decreases at - from,
{
    if from < at {
        lemma_lookup(fields, name, from + 1, at);
    }
}

/// The names of the tag and of the fields are six names.
proof fn lemma_names_differ()
    ensures
        tag_name() != QueryField::FileId.name(),
        tag_name() != QueryField::TopicId.name(),
        tag_name() != QueryField::StartTime.name(),
        tag_name() != QueryField::EndTime.name(),
        tag_name() != QueryField::Limit.name(),
        QueryField::FileId.name() != QueryField::Limit.name(),
        QueryField::TopicId.name() != QueryField::StartTime.name(),
        QueryField::TopicId.name() != QueryField::EndTime.name(),
        QueryField::TopicId.name() != QueryField::Limit.name(),
        QueryField::StartTime.name() != QueryField::EndTime.name(),
        QueryField::StartTime.name() != QueryField::Limit.name(),
        QueryField::EndTime.name() != QueryField::Limit.name(),
{
    reveal_strlit("$type");
    reveal_strlit("fileId");
    reveal_strlit("topicId");
    reveal_strlit("startTime");
    reveal_strlit("endTime");
    reveal_strlit("limit");
    assert("$type"@[0] != "limit"@[0]);
    assert("topicId"@[0] != "endTime"@[0]);
    assert("$type"@.len() == 5);
    assert("fileId"@.len() == 6);
    assert("topicId"@.len() == 7);
    assert("startTime"@.len() == 9);
    assert("endTime"@.len() == 7);
    assert("limit"@.len() == 5);
}

/// An instant that may be absent is read back from the field that stores
/// it.
proof fn lemma_instant_round_trip(fields: Seq<FieldView>, field: QueryField, t: Option<Timestamp>)
    requires
        lookup(fields, field.name()) == Some(instant_value(t)),
        t matches Some(at) ==> at.wf(),
    ensures
        instant_in(fields, field) == Ok::<Option<Timestamp>, DeserializeError>(t),
{
    if let Some(at) = t {
        lemma_timestamp_round_trip(at);
    }
}

/// A stored listing is read back as it was.
proof fn lemma_listing_round_trip(query: NodeAddressBookQueryData)
    ensures
        listing_of(record_of(AnyMirrorQueryData::NodeAddressBook(query))) == Ok::<
            NodeAddressBookQueryData,
            DeserializeError,
        >(query),
{
    let fields = record_of(AnyMirrorQueryData::NodeAddressBook(query));
    lemma_names_differ();
    lemma_entity_id_round_trip(query.file_id);
    lemma_lookup(fields, QueryField::FileId.name(), 0, 1);
    lemma_lookup(fields, QueryField::Limit.name(), 0, 2);
    assert(id_in(fields, QueryField::FileId) == Ok::<EntityId, DeserializeError>(query.file_id));
    assert(number_in(fields, QueryField::Limit, u32::MAX as u64) == Ok::<u64, DeserializeError>(
        query.limit as u64,
    ));
}

/// A stored feed is read back as it was.
proof fn lemma_feed_round_trip(query: TopicMessageQueryData)
    requires
        query.wf(),
    ensures
        feed_of(record_of(AnyMirrorQueryData::TopicMessage(query))) == Ok::<
            TopicMessageQueryData,
            DeserializeError,
        >(query),
{
    let fields = record_of(AnyMirrorQueryData::TopicMessage(query));
    lemma_names_differ();
    lemma_entity_id_round_trip(query.topic_id);
    lemma_lookup(fields, QueryField::TopicId.name(), 0, 1);
    lemma_lookup(fields, QueryField::StartTime.name(), 0, 2);
    lemma_lookup(fields, QueryField::EndTime.name(), 0, 3);
    lemma_lookup(fields, QueryField::Limit.name(), 0, 4);
    lemma_instant_round_trip(fields, QueryField::StartTime, query.start_time);
    lemma_instant_round_trip(fields, QueryField::EndTime, query.end_time);
    assert(id_in(fields, QueryField::TopicId) == Ok::<EntityId, DeserializeError>(query.topic_id));
    assert(number_in(fields, QueryField::Limit, u64::MAX) == Ok::<u64, DeserializeError>(
        query.limit,
    ));
}

/// A stored payload is read back as it was, tag and fields: the record of
/// a payload stores that payload. The query that is read back is of the same
/// kind, and retries the same failures.
pub proof fn lemma_persistence_round_trip(data: AnyMirrorQueryData)
    requires
        data.wf(),
    ensures
        lookup(record_of(data), tag_name()) == Some(ValueView::Text(data.kind_of().name())),
        data_of(record_of(data)) == Ok::<AnyMirrorQueryData, DeserializeError>(data),
        data_of(record_of(data))->Ok_0.kind_of() == data.kind_of(),
        forall|code: StatusCode|
            #[trigger] retry_policy(data_of(record_of(data))->Ok_0.kind_of(), code)
                == retry_policy(data.kind_of(), code),
{
    let fields = record_of(data);
    lemma_kind_names(data.kind_of());
    lemma_lookup(fields, tag_name(), 0, 0);
    match data {
        AnyMirrorQueryData::NodeAddressBook(query) => {
            lemma_listing_round_trip(query);
        },
        AnyMirrorQueryData::TopicMessage(query) => {
            lemma_feed_round_trip(query);
        },
    }
}

} // verus!
