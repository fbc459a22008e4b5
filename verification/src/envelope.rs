//! The message envelope and its wire record.
//!
//! On the wire an envelope is one JSON object with the members
//! `message_type`, `timestamp_micros`, `number_of_messages`, `id` and
//! `content`. Writing and reading JSON text is left to `serde_json`; which
//! members are written, and how the members that were read become an
//! envelope or an error, is decided and proved here.

use crate::json::{
    all_scalar, json_members, json_parse, json_text, no_members, object_from_text, object_get,
    object_insert, object_new, object_to_text, value_as_integer, value_as_text, value_of_integer,
    value_of_text, JsonScalar,
};
use crate::text::same_text;
use vstd::prelude::*;

verus! {

/// The class of an envelope.
#[derive(Clone, Copy, Debug, PartialEq, Eq, Structural)]
pub enum Kind {
    /// Warm-up traffic sent before the measured run.
    Startup,
    /// Opens the measured run.
    First,
    /// Inside the measured run.
    Regular,
    /// Closes the measured run.
    Last,
    /// A tag this version does not know.
    Unrecognized,
}

impl Kind {
    /// The tag written on the wire; `Unrecognized` has none.
    pub open spec fn tag_text(self) -> Option<Seq<char>> {
        match self {
            Kind::Startup => Some("startup"@),
            Kind::First => Some("first"@),
            Kind::Regular => Some("regular"@),
            Kind::Last => Some("last"@),
            Kind::Unrecognized => None,
        }
    }

    /// The kind that a tag read from the wire stands for.
    pub open spec fn of_tag(tag: Seq<char>) -> Kind {
        if tag == "startup"@ {
            Kind::Startup
        } else if tag == "first"@ {
            Kind::First
        } else if tag == "regular"@ {
            Kind::Regular
        } else if tag == "last"@ {
            Kind::Last
        } else {
            Kind::Unrecognized
        }
    }

    /// The tag written on the wire for this kind.
    pub fn tag(self) -> (tag: Option<&'static str>)
        ensures
            match tag {
                Some(t) => self.tag_text() == Some(t@),
                None => self.tag_text() is None,
            },
    {
        match self {
            Kind::Startup => Some("startup"),
            Kind::First => Some("first"),
            Kind::Regular => Some("regular"),
            Kind::Last => Some("last"),
            Kind::Unrecognized => None,
        }
    }

    /// Classifies a tag read from the wire. Any tag but the four known ones
    /// is `Unrecognized`; this never fails.
    pub fn from_tag(tag: &str) -> (kind: Kind)
        ensures
            kind == Kind::of_tag(tag@),
    {
        if same_text(tag, "startup") {
            Kind::Startup
        } else if same_text(tag, "first") {
            Kind::First
        } else if same_text(tag, "regular") {
            Kind::Regular
        } else if same_text(tag, "last") {
            Kind::Last
        } else {
            Kind::Unrecognized
        }
    }
}

/// Reading back the tag of a known kind gives that kind.
pub proof fn lemma_tag_round_trip(kind: Kind)
    requires
        kind != Kind::Unrecognized,
    ensures
        kind.tag_text() matches Some(tag) && Kind::of_tag(tag) == kind,
{
    reveal_strlit("startup");
    reveal_strlit("first");
    reveal_strlit("regular");
    reveal_strlit("last");
    assert("startup"@.len() == 7 && "startup"@[0] == 's');
    assert("first"@.len() == 5);
    assert("regular"@.len() == 7 && "regular"@[0] == 'r');
    assert("last"@.len() == 4);
}

/// One message of the benchmark protocol.
#[derive(Clone, Debug, PartialEq, Eq)]
pub struct Envelope {
    pub kind: Kind,
    /// Send time in microseconds since the Unix epoch; 0 on warm-up traffic.
    pub send_timestamp_micros: i64,
    /// Length of the measured run that the envelope belongs to.
    pub declared_total: u32,
    /// Position of the envelope within its category, from 0.
    pub sequence_id: u32,
    /// Filler content.
    pub payload: String,
}

/// An envelope with its payload as a sequence of characters.
pub ghost struct EnvelopeView {
    pub kind: Kind,
    pub send_timestamp_micros: i64,
    pub declared_total: u32,
    pub sequence_id: u32,
    pub payload: Seq<char>,
}

impl View for Envelope {
    type V = EnvelopeView;

    open spec fn view(&self) -> EnvelopeView {
        EnvelopeView {
            kind: self.kind,
            send_timestamp_micros: self.send_timestamp_micros,
            declared_total: self.declared_total,
            sequence_id: self.sequence_id,
            payload: self.payload@,
        }
    }
}

/// Why an envelope could not be written.
#[derive(Clone, Copy, Debug, PartialEq, Eq, Structural)]
pub enum EncodeError {
    /// The envelope's kind has no tag on the wire.
    UnrecognizedKind,
    /// The JSON serializer reported an error.
    Serializer,
}

/// Why a text could not be read as an envelope.
#[derive(Clone, Copy, Debug, PartialEq, Eq, Structural)]
pub enum DecodeError {
    /// The text is not a JSON object: not JSON, cut short, or another value.
    Malformed,
    /// `message_type` is missing or not a string.
    MessageType,
    /// `timestamp_micros` is missing or not an integer of 64 signed bits.
    TimestampMicros,
    /// `number_of_messages` is missing or not an integer of 32 unsigned bits.
    NumberOfMessages,
    /// `id` is missing or not an integer of 32 unsigned bits.
    Id,
    /// `content` is missing or not a string.
    Content,
}

/// The members of the wire record of an envelope of a known kind.
pub open spec fn record_members(envelope: EnvelopeView) -> Map<Seq<char>, JsonScalar>
    recommends
        envelope.kind != Kind::Unrecognized,
{
    no_members().insert("message_type"@, JsonScalar::Text(envelope.kind.tag_text().unwrap())).insert(
        "timestamp_micros"@,
        JsonScalar::Integer(envelope.send_timestamp_micros as int),
    ).insert("number_of_messages"@, JsonScalar::Integer(envelope.declared_total as int)).insert(
        "id"@,
        JsonScalar::Integer(envelope.sequence_id as int),
    ).insert("content"@, JsonScalar::Text(envelope.payload))
}

/// The string held by the member `key`, if there is such a member and it
/// is a string.
pub open spec fn text_member(members: Map<Seq<char>, JsonScalar>, key: Seq<char>) -> Option<
    Seq<char>,
> {
    if members.contains_key(key) {
        match members[key] {
            JsonScalar::Text(text) => Some(text),
            _ => None,
        }
    } else {
        None
    }
}

/// The integer held by the member `key`, if there is such a member and it
/// is an integer of 64 signed bits.
pub open spec fn integer_member(members: Map<Seq<char>, JsonScalar>, key: Seq<char>) -> Option<
    i64,
> {
    if members.contains_key(key) {
        match members[key] {
            JsonScalar::Integer(i) => if i64::MIN <= i <= i64::MAX {
                Some(i as i64)
            } else {
                None
            },
            _ => None,
        }
    } else {
        None
    }
}

/// The envelope that five fields stand for, or the error of the first field
/// that is absent or out of range. A field is `None` where the record has
/// no such member or one of the wrong type.
pub open spec fn fields_record(
    message_type: Option<Seq<char>>,
    timestamp_micros: Option<i64>,
    number_of_messages: Option<i64>,
    id: Option<i64>,
    content: Option<Seq<char>>,
) -> Result<EnvelopeView, DecodeError> {
    if message_type is None {
        Err(DecodeError::MessageType)
    } else if timestamp_micros is None {
        Err(DecodeError::TimestampMicros)
    } else if !(number_of_messages matches Some(n) && 0 <= n <= u32::MAX) {
        Err(DecodeError::NumberOfMessages)
    } else if !(id matches Some(i) && 0 <= i <= u32::MAX) {
        Err(DecodeError::Id)
    } else if content is None {
        Err(DecodeError::Content)
    } else {
        Ok(
            EnvelopeView {
                kind: Kind::of_tag(message_type.unwrap()),
                send_timestamp_micros: timestamp_micros.unwrap(),
                declared_total: number_of_messages.unwrap() as u32,
                sequence_id: id.unwrap() as u32,
                payload: content.unwrap(),
            },
        )
    }
}

/// The envelope that the members of a record stand for.
pub open spec fn record_envelope(members: Map<Seq<char>, JsonScalar>) -> Result<
    EnvelopeView,
    DecodeError,
> {
    fields_record(
        text_member(members, "message_type"@),
        integer_member(members, "timestamp_micros"@),
        integer_member(members, "number_of_messages"@),
        integer_member(members, "id"@),
        text_member(members, "content"@),
    )
}

/// The envelope that a parsed text stands for; `None` is a text that is no
/// JSON object.
pub open spec fn decoded(parsed: Option<Map<Seq<char>, JsonScalar>>) -> Result<
    EnvelopeView,
    DecodeError,
> {
    match parsed {
        None => Err(DecodeError::Malformed),
        Some(members) => record_envelope(members),
    }
}

/// Builds an envelope from the five fields of a wire record, each `None`
/// where the record has no such member or one of the wrong type. The first
/// field, in the order of the parameters, that is absent or out of range
/// decides the error.
pub fn envelope_from_fields(
    message_type: Option<&str>,
    timestamp_micros: Option<i64>,
    number_of_messages: Option<i64>,
    id: Option<i64>,
    content: Option<&str>,
) -> (r: Result<Envelope, DecodeError>)
    ensures
        match r {
            Ok(envelope) => fields_record(
                view_of(message_type),
                timestamp_micros,
                number_of_messages,
                id,
                view_of(content),
            ) matches Ok(v) && v == envelope@,
            Err(error) => fields_record(
                view_of(message_type),
                timestamp_micros,
                number_of_messages,
                id,
                view_of(content),
            ) matches Err(e) && e == error,
        },
{
    let tag = match message_type {
        Some(tag) => tag,
        None => return Err(DecodeError::MessageType),
    };
    let send_timestamp_micros = match timestamp_micros {
        Some(t) => t,
        None => return Err(DecodeError::TimestampMicros),
    };
    let declared_total: u32 = match number_of_messages {
        Some(n) if 0 <= n && n <= 0xffff_ffff => n as u32,
        _ => return Err(DecodeError::NumberOfMessages),
    };
    let sequence_id: u32 = match id {
        Some(i) if 0 <= i && i <= 0xffff_ffff => i as u32,
        _ => return Err(DecodeError::Id),
    };
    let payload = match content {
        Some(c) => c.to_owned(),
        None => return Err(DecodeError::Content),
    };
    Ok(Envelope { kind: Kind::from_tag(tag), send_timestamp_micros, declared_total, sequence_id, payload })
}

/// The characters of an optional string.
pub open spec fn view_of(text: Option<&str>) -> Option<Seq<char>> {
    match text {
        Some(s) => Some(s@),
        None => None,
    }
}

fn read_text<'a>(object: &'a serde_json::Map<String, serde_json::Value>, key: &str) -> (text: Option<
    &'a str,
>)
    ensures
        view_of(text) == text_member(json_members(*object), key@),
{
    match object_get(object, key) {
        Some(value) => value_as_text(value),
        None => None,
    }
}

fn read_integer(object: &serde_json::Map<String, serde_json::Value>, key: &str) -> (number: Option<
    i64,
>)
    ensures
        number == integer_member(json_members(*object), key@),
{
    match object_get(object, key) {
        Some(value) => value_as_integer(value),
        None => None,
    }
}

/// Reads an envelope from its wire text. The text must be one JSON object
/// that has the five members of a wire record with values of the right
/// type and range; members of other names are passed over. A tag that is
/// none of the four known ones gives the kind `Unrecognized`, not an error.
pub fn decode(text: &str) -> (r: Result<Envelope, DecodeError>)
    ensures
        match r {
            Ok(envelope) => decoded(json_parse(text@)) matches Ok(v) && v == envelope@,
            Err(error) => decoded(json_parse(text@)) matches Err(e) && e == error,
        },
{
    match object_from_text(text) {
        Err(_) => Err(DecodeError::Malformed),
        Ok(object) => envelope_from_fields(
            read_text(&object, "message_type"),
            read_integer(&object, "timestamp_micros"),
            read_integer(&object, "number_of_messages"),
            read_integer(&object, "id"),
            read_text(&object, "content"),
        ),
    }
}

/// The names of the five members differ, so each member of a record is
/// what was written under its name.
pub proof fn lemma_record_members(envelope: EnvelopeView)
    requires
        envelope.kind != Kind::Unrecognized,
    ensures
        all_scalar(record_members(envelope)),
        text_member(record_members(envelope), "message_type"@) == envelope.kind.tag_text(),
        integer_member(record_members(envelope), "timestamp_micros"@) == Some(
            envelope.send_timestamp_micros,
        ),
        integer_member(record_members(envelope), "number_of_messages"@) == Some(
            envelope.declared_total as i64,
        ),
        integer_member(record_members(envelope), "id"@) == Some(envelope.sequence_id as i64),
        text_member(record_members(envelope), "content"@) == Some(envelope.payload),
{
    reveal_strlit("message_type");
    reveal_strlit("timestamp_micros");
    reveal_strlit("number_of_messages");
    reveal_strlit("id");
    reveal_strlit("content");
    assert("message_type"@.len() == 12);
    assert("timestamp_micros"@.len() == 16);
    assert("number_of_messages"@.len() == 18);
    assert("id"@.len() == 2);
    assert("content"@.len() == 7);
}

/// Round trip: the record written for an envelope of a known kind reads
/// back as that envelope.
pub proof fn lemma_record_round_trip(envelope: EnvelopeView)
    requires
        envelope.kind != Kind::Unrecognized,
    ensures
        record_envelope(record_members(envelope)) == Ok::<EnvelopeView, DecodeError>(envelope),
        decoded(Some(record_members(envelope))) == Ok::<EnvelopeView, DecodeError>(envelope),
{
    lemma_record_members(envelope);
    lemma_tag_round_trip(envelope.kind);
}

/// Writes an envelope as wire text: the JSON object with the five members
/// of its record. An envelope of kind `Unrecognized` has no wire form.
pub fn encode(envelope: &Envelope) -> (r: Result<String, EncodeError>)
    ensures
        match r {
            Ok(text) => envelope.kind != Kind::Unrecognized && json_text(record_members(envelope@))
                == Some(text@),
            Err(EncodeError::UnrecognizedKind) => envelope.kind == Kind::Unrecognized,
            Err(EncodeError::Serializer) => envelope.kind != Kind::Unrecognized && json_text(
                record_members(envelope@),
            ) is None,
        },
{
    let tag = match envelope.kind.tag() {
        Some(tag) => tag,
        None => return Err(EncodeError::UnrecognizedKind),
    };
    let mut object = object_new();
    object_insert(&mut object, "message_type", value_of_text(tag));
    object_insert(&mut object, "timestamp_micros", value_of_integer(envelope.send_timestamp_micros));
    object_insert(&mut object, "number_of_messages", value_of_integer(envelope.declared_total as i64));
    object_insert(&mut object, "id", value_of_integer(envelope.sequence_id as i64));
    object_insert(&mut object, "content", value_of_text(envelope.payload.as_str()));
    proof {
        assert(json_members(object) == record_members(envelope@));
        lemma_record_members(envelope@);
    }
    match object_to_text(&object) {
        Ok(text) => Ok(text),
        Err(_) => Err(EncodeError::Serializer),
    }
}

} // verus!
