//! Records as documents of the store: which fields a record is written with,
//! and how a record is read back from them.

use vstd::prelude::*;
use crate::record::{Identity, LogMessage, RecordView};
use crate::severity::{lemma_severity_name_round_trip, Severity};

verus! {

/// `bson::Document`: the store's document, an ordered map from keys to BSON
/// values. Nothing of its inside is visible here.
#[verifier::external_type_specification]
#[verifier::external_body]
pub struct ExDocument(bson::Document);

/// A value of a document, as far as records use them. `Other` stands for every
/// value of another kind.
pub(crate) enum FieldValue {
    Text(String),
    Instant(i64),
    ObjectId(Identity),
    Other,
}

/// What a value of a document is, as plain values.
pub enum FieldView {
    Text(Seq<char>),
    Instant(i64),
    ObjectId(Identity),
    Other,
}

impl View for FieldValue {
    type V = FieldView;

    closed spec fn view(&self) -> FieldView {
        match *self {
            FieldValue::Text(text) => FieldView::Text(text@),
            FieldValue::Instant(millis) => FieldView::Instant(millis),
            FieldValue::ObjectId(id) => FieldView::ObjectId(id),
            FieldValue::Other => FieldView::Other,
        }
    }
}

/// The entries of a document, in the order in which it keeps them.
pub type Entries = Seq<(Seq<char>, FieldView)>;

/// What a `bson::Document` holds: each key with its value, in the document's
/// order.
pub uninterp spec fn document_entries(doc: bson::Document) -> Seq<(Seq<char>, FieldView)>;

/// The value that `entries` hold under `key`, if any. A document holds no key
/// twice; of entries that do, the last one counts.
pub open spec fn lookup(entries: Entries, key: Seq<char>) -> Option<FieldView>
    decreases entries.len(),
{
    if entries.len() == 0 {
        None
    } else if entries.last().0 == key {
        Some(entries.last().1)
    } else {
        lookup(entries.drop_last(), key)
    }
}

/// What a lookup found, as plain values.
spec fn found_view(found: Option<FieldValue>) -> Option<FieldView> {
    match found {
        Some(value) => Some(value@),
        None => None,
    }
}

/// `bson::Document::new`: a document without entries.
#[verifier::external_body]
fn empty_document() -> (doc: bson::Document)
    ensures
        document_entries(doc) == Entries::empty(),
{
    bson::Document::new()
}

/// `bson::Document::insert`, for a key that the document does not hold yet: the
/// new entry comes last, and the others stay as they are. A text becomes a BSON
/// string, an instant a BSON datetime, an identity a BSON object id, `Other` a
/// BSON null.
#[verifier::external_body]
fn append_field(doc: &mut bson::Document, key: &str, value: FieldValue)
    requires
        lookup(document_entries(*old(doc)), key@) is None,
    ensures
        document_entries(*final(doc)) == document_entries(*old(doc)).push((key@, value@)),
{
    let bson = match value {
        FieldValue::Text(text) => bson::Bson::String(text),
        FieldValue::Instant(millis) => bson::Bson::DateTime(bson::DateTime::from_millis(millis)),
        FieldValue::ObjectId(id) => bson::Bson::ObjectId(bson::oid::ObjectId::from_bytes(id)),
        FieldValue::Other => bson::Bson::Null,
    };
    doc.insert(key, bson);
}

/// `bson::Document::get`: the value under `key`, if the document holds the key.
/// A BSON string, datetime or object id comes back as such; any other value as
/// `Other`.
#[verifier::external_body]
fn find_field(doc: &bson::Document, key: &str) -> (found: Option<FieldValue>)
    ensures
        found_view(found) == lookup(document_entries(*doc), key@),
{
    match doc.get(key) {
        Some(bson::Bson::String(text)) => Some(FieldValue::Text(text.clone())),
        Some(bson::Bson::DateTime(instant)) => Some(FieldValue::Instant(instant.timestamp_millis())),
        Some(bson::Bson::ObjectId(id)) => Some(FieldValue::ObjectId(id.bytes())),
        Some(_) => Some(FieldValue::Other),
        None => None,
    }
}

/// The entry that an identity is written as: none where there is no identity.
pub open spec fn identity_entries(identity: Option<Identity>) -> Entries {
    match identity {
        Some(id) => seq![("_id"@, FieldView::ObjectId(id))],
        None => seq![],
    }
}

/// The fields that a record is written with, in order. The identity is written
/// only where the record has one; the other four fields always are.
pub open spec fn encoded(record: RecordView) -> Entries {
    identity_entries(record.identity).push(("time"@, FieldView::Instant(record.timestamp))).push(
        ("level"@, FieldView::Text(record.severity.spec_name())),
    ).push(("target"@, FieldView::Text(record.source))).push(
        ("message"@, FieldView::Text(record.message)),
    )
}

/// The fields of a record.
#[derive(Clone, Copy, Debug, PartialEq, Eq, Structural)]
pub enum RecordField {
    Identity,
    Timestamp,
    Severity,
    Source,
    Message,
}

/// Why a document is not a record.
#[derive(Clone, Copy, Debug, PartialEq, Eq, Structural)]
pub enum DecodeError {
    /// A field that every record has is absent.
    Missing(RecordField),
    /// A field holds a value of another kind than the record's.
    Mistyped(RecordField),
    /// The severity's text is none of the five names.
    UnknownSeverity,
}

/// The identity that entries give: absent where they hold none.
pub open spec fn decoded_identity(entries: Entries) -> Result<Option<Identity>, DecodeError> {
    match lookup(entries, "_id"@) {
        None => Ok(None),
        Some(FieldView::ObjectId(id)) => Ok(Some(id)),
        Some(_) => Err(DecodeError::Mistyped(RecordField::Identity)),
    }
}

/// The instant that entries give.
pub open spec fn decoded_instant(entries: Entries) -> Result<i64, DecodeError> {
    match lookup(entries, "time"@) {
        None => Err(DecodeError::Missing(RecordField::Timestamp)),
        Some(FieldView::Instant(millis)) => Ok(millis),
        Some(_) => Err(DecodeError::Mistyped(RecordField::Timestamp)),
    }
}

/// The text that entries give under `key`, for the field `field` of a record.
pub open spec fn decoded_text(entries: Entries, key: Seq<char>, field: RecordField) -> Result<
    Seq<char>,
    DecodeError,
> {
    match lookup(entries, key) {
        None => Err(DecodeError::Missing(field)),
        Some(FieldView::Text(text)) => Ok(text),
        Some(_) => Err(DecodeError::Mistyped(field)),
    }
}

/// The severity that entries give: the one that their text names.
pub open spec fn decoded_severity(entries: Entries) -> Result<Severity, DecodeError> {
    match decoded_text(entries, "level"@, RecordField::Severity) {
        Err(error) => Err(error),
        Ok(name) => match Severity::spec_from_name(name) {
            Some(severity) => Ok(severity),
            None => Err(DecodeError::UnknownSeverity),
        },
    }
}

/// The record that entries stand for, or the first reason why they stand for
/// none, the fields taken in the order identity, timestamp, severity, source,
/// message. Entries under other keys do not count.
pub open spec fn decoded(entries: Entries) -> Result<RecordView, DecodeError> {
    match decoded_identity(entries) {
        Err(error) => Err(error),
        Ok(identity) => match decoded_instant(entries) {
            Err(error) => Err(error),
            Ok(timestamp) => match decoded_severity(entries) {
                Err(error) => Err(error),
                Ok(severity) => match decoded_text(entries, "target"@, RecordField::Source) {
                    Err(error) => Err(error),
                    Ok(source) => match decoded_text(entries, "message"@, RecordField::Message) {
                        Err(error) => Err(error),
                        Ok(message) => Ok(
                            RecordView { identity, timestamp, severity, source, message },
                        ),
                    },
                },
            },
        },
    }
}

/// What reading a document gave, as plain values.
pub open spec fn decoding_view(result: Result<LogMessage, DecodeError>) -> Result<
    RecordView,
    DecodeError,
> {
    match result {
        Ok(record) => Ok(record@),
        Err(error) => Err(error),
    }
}

/// Looking a key up after one more entry: the new entry where the keys agree,
/// else what was there before.
pub proof fn lemma_lookup_push(entries: Entries, key: Seq<char>, value: FieldView, wanted: Seq<char>)
    ensures
        lookup(entries.push((key, value)), wanted) == if key == wanted {
            Some(value)
        } else {
            lookup(entries, wanted)
        },
{
    assert(entries.push((key, value)).drop_last() =~= entries);
}

/// The five keys of a record differ from each other.
proof fn lemma_keys_differ()
    ensures
        "_id"@.len() == 3,
        "time"@.len() == 4,
        "level"@.len() == 5,
        "target"@.len() == 6,
        "message"@.len() == 7,
{
    reveal_strlit("_id");
    reveal_strlit("time");
    reveal_strlit("level");
    reveal_strlit("target");
    reveal_strlit("message");
}

/// Among the entries of an identity only the key `_id` finds anything.
proof fn lemma_identity_lookup(identity: Option<Identity>, wanted: Seq<char>)
    ensures
        lookup(identity_entries(identity), wanted) == match identity {
            Some(id) => if wanted == "_id"@ {
                Some(FieldView::ObjectId(id))
            } else {
                None
            },
            None => None,
        },
{
    let head = identity_entries(identity);
    if identity is Some {
        assert(head.len() == 1);
        assert(head.last() == ("_id"@, FieldView::ObjectId(identity.unwrap())));
        assert(head.drop_last().len() == 0);
        assert(lookup(head.drop_last(), wanted) is None);
    } else {
        assert(head.len() == 0);
    }
}

/// What a key finds among the fields that a record is written with.
pub proof fn lemma_encoded_lookup(record: RecordView, wanted: Seq<char>)
    ensures
        lookup(encoded(record), wanted) == if wanted == "message"@ {
            Some(FieldView::Text(record.message))
        } else if wanted == "target"@ {
            Some(FieldView::Text(record.source))
        } else if wanted == "level"@ {
            Some(FieldView::Text(record.severity.spec_name()))
        } else if wanted == "time"@ {
            Some(FieldView::Instant(record.timestamp))
        } else {
            lookup(identity_entries(record.identity), wanted)
        },
{
    let head = identity_entries(record.identity);
    let with_time = head.push(("time"@, FieldView::Instant(record.timestamp)));
    let with_level = with_time.push(("level"@, FieldView::Text(record.severity.spec_name())));
    let with_target = with_level.push(("target"@, FieldView::Text(record.source)));
    lemma_lookup_push(head, "time"@, FieldView::Instant(record.timestamp), wanted);
    lemma_lookup_push(with_time, "level"@, FieldView::Text(record.severity.spec_name()), wanted);
    lemma_lookup_push(with_level, "target"@, FieldView::Text(record.source), wanted);
    lemma_lookup_push(with_target, "message"@, FieldView::Text(record.message), wanted);
}

/// What each key of a record finds among the record's own fields.
pub proof fn lemma_encoded_lookups(record: RecordView)
    ensures
        lookup(encoded(record), "_id"@) == match record.identity {
            Some(id) => Some(FieldView::ObjectId(id)),
            None => None,
        },
        lookup(encoded(record), "time"@) == Some(FieldView::Instant(record.timestamp)),
        lookup(encoded(record), "level"@) == Some(FieldView::Text(record.severity.spec_name())),
        lookup(encoded(record), "target"@) == Some(FieldView::Text(record.source)),
        lookup(encoded(record), "message"@) == Some(FieldView::Text(record.message)),
{
    lemma_keys_differ();
    lemma_identity_lookup(record.identity, "_id"@);
    lemma_encoded_lookup(record, "_id"@);
    lemma_encoded_lookup(record, "time"@);
    lemma_encoded_lookup(record, "level"@);
    lemma_encoded_lookup(record, "target"@);
    lemma_encoded_lookup(record, "message"@);
}

/// A record that is written and read back is the same record: without an
/// identity it has none afterwards and is written without that field; with
/// one, it has the same one.
pub proof fn lemma_record_round_trip(record: RecordView)
    ensures
        decoded(encoded(record)) == Ok::<RecordView, DecodeError>(record),
        record.identity is None ==> lookup(encoded(record), "_id"@) is None,
        record.identity is None ==> encoded(record).len() == 4,
        record.identity is Some ==> encoded(record).len() == 5,
{
    lemma_encoded_lookups(record);
    lemma_severity_name_round_trip(record.severity, record.severity.spec_name());
}

impl LogMessage {
    /// The document under which this record is persisted.
    pub fn to_document(&self) -> (doc: bson::Document)
        ensures
            document_entries(doc) == encoded(self@),
    {
        let mut doc = empty_document();
        proof {
            lemma_keys_differ();
        }
        match self.id() {
            Some(id) => {
                append_field(&mut doc, "_id", FieldValue::ObjectId(id));
            },
            None => {},
        }
        let ghost head = document_entries(doc);
        proof {
            assert(head =~= identity_entries(self@.identity));
            lemma_identity_lookup(self@.identity, "time"@);
            lemma_identity_lookup(self@.identity, "level"@);
            lemma_identity_lookup(self@.identity, "target"@);
            lemma_identity_lookup(self@.identity, "message"@);
        }
        append_field(&mut doc, "time", FieldValue::Instant(self.time()));
        let ghost with_time = document_entries(doc);
        proof {
            lemma_lookup_push(head, "time"@, FieldView::Instant(self@.timestamp), "level"@);
        }
        append_field(&mut doc, "level", FieldValue::Text(self.level().name()));
        let ghost with_level = document_entries(doc);
        proof {
            lemma_lookup_push(head, "time"@, FieldView::Instant(self@.timestamp), "target"@);
            lemma_lookup_push(
                with_time,
                "level"@,
                FieldView::Text(self@.severity.spec_name()),
                "target"@,
            );
        }
        append_field(&mut doc, "target", FieldValue::Text(self.target().to_owned()));
        proof {
            lemma_lookup_push(head, "time"@, FieldView::Instant(self@.timestamp), "message"@);
            lemma_lookup_push(
                with_time,
                "level"@,
                FieldView::Text(self@.severity.spec_name()),
                "message"@,
            );
            lemma_lookup_push(with_level, "target"@, FieldView::Text(self@.source), "message"@);
        }
        append_field(&mut doc, "message", FieldValue::Text(self.message().to_owned()));
        doc
    }

    /// Reads a record back from a document of the store.
    pub fn from_document(doc: &bson::Document) -> (result: Result<LogMessage, DecodeError>)
        ensures
            decoding_view(result) == decoded(document_entries(*doc)),
    {
        let identity = match find_field(doc, "_id") {
            None => None,
            Some(FieldValue::ObjectId(id)) => Some(id),
            Some(_) => {
                return Err(DecodeError::Mistyped(RecordField::Identity));
            },
        };
        let time = match find_field(doc, "time") {
            None => {
                return Err(DecodeError::Missing(RecordField::Timestamp));
            },
            Some(FieldValue::Instant(millis)) => millis,
            Some(_) => {
                return Err(DecodeError::Mistyped(RecordField::Timestamp));
            },
        };
        let name = match find_field(doc, "level") {
            None => {
                return Err(DecodeError::Missing(RecordField::Severity));
            },
            Some(FieldValue::Text(text)) => text,
            Some(_) => {
                return Err(DecodeError::Mistyped(RecordField::Severity));
            },
        };
        let level = match Severity::from_name(name.as_str()) {
            Some(level) => level,
            None => {
                return Err(DecodeError::UnknownSeverity);
            },
        };
        let target = match find_field(doc, "target") {
            None => {
                return Err(DecodeError::Missing(RecordField::Source));
            },
            Some(FieldValue::Text(text)) => text,
            Some(_) => {
                return Err(DecodeError::Mistyped(RecordField::Source));
            },
        };
        let message = match find_field(doc, "message") {
            None => {
                return Err(DecodeError::Missing(RecordField::Message));
            },
            Some(FieldValue::Text(text)) => text,
            Some(_) => {
                return Err(DecodeError::Mistyped(RecordField::Message));
            },
        };
        let mut record = LogMessage::build(level, target, message, time);
        if let Some(id) = identity {
            record.assign_identity(id);
        }
        Ok(record)
    }
}

} // verus!
