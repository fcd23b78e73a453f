use vstd::prelude::*;

use crate::json::{
    json_object_members, json_string_literal, member, member_index, parse_object, string_literal,
    FieldModel, JsonField,
};
use crate::timestamp::{later, rfc3339_instant, rfc3339_text, Timestamp};

verus! {

/// Why a marker could not be read or written.
#[derive(Clone, Debug)]
pub enum MarkerError {
    /// The marker file could not be opened for reading.
    FileOpen { reason: String },
    /// The marker file could not be created for writing.
    FileCreate { reason: String },
    /// The marker document is not JSON, or does not follow the marker's schema.
    InvalidFormat,
    /// The marker could not be written as a document that reads back as itself.
    Serialization,
    /// Writing the marker document failed.
    Write { reason: String },
}

/// The cutoff of the last successful run; `None` accepts everything.
#[derive(Clone, Copy, Debug, PartialEq, Eq, Structural, PartialOrd, Ord, Hash)]
pub struct Marker {
    pub cutoff_time: Option<Timestamp>,
}

/// A file whose modification time is `modified` (`None`: it could not be read)
/// passes the marker's cutoff.
pub open spec fn admits(m: Marker, modified: Option<Timestamp>) -> bool {
    match m.cutoff_time {
        None => true,
        Some(cutoff) => match modified {
            Some(t) => later(t, cutoff),
            None => false,
        },
    }
}

/// The key under which the document holds the cutoff.
pub open spec fn cutoff_key() -> Seq<char> {
    "cutoff_time"@
}

/// The document text around a cutoff value: `{"cutoff_time":` and the JSON
/// literal of the value (`null` where there is none), then `}`.
pub open spec fn framed(literal: Option<Seq<char>>) -> Seq<char> {
    let value = match literal {
        Some(q) => q,
        None => "null"@,
    };
    "{\"cutoff_time\":"@ + value + "}"@
}

/// Writes the marker document around the JSON literal of its cutoff value.
pub fn frame_document(literal: Option<&str>) -> (r: String)
    ensures
        r@ == framed(match literal {
            Some(q) => Some(q@),
            None => None,
        }),
{
    let head = String::from_str("{\"cutoff_time\":");
    match literal {
        Some(q) => head.concat(q).concat("}"),
        None => head.concat("null").concat("}"),
    }
}

/// The marker a document holds: an object whose `cutoff_time` member is absent
/// or null (no cutoff), or an RFC 3339 string. Anything else holds none.
pub open spec fn document_marker(text: Seq<char>) -> Option<Marker> {
    match json_object_members(text) {
        None => None,
        Some(members) => match member(members, cutoff_key()) {
            None => Some(Marker { cutoff_time: None }),
            Some(FieldModel::Null) => Some(Marker { cutoff_time: None }),
            Some(FieldModel::Text(s)) => match rfc3339_instant(s) {
                Some((secs, nanos)) => Some(Marker { cutoff_time: Some(Timestamp { secs, nanos }) }),
                None => None,
            },
            Some(FieldModel::Other) => None,
        },
    }
}

/// The document written for a marker: `{"cutoff_time":null}`, or the cutoff's
/// RFC 3339 text as a JSON string.
pub open spec fn encoded(m: Marker) -> Option<Seq<char>> {
    match m.cutoff_time {
        None => Some(framed(None)),
        Some(t) => match rfc3339_text(t.secs, t.nanos) {
            None => None,
            Some(s) => match json_string_literal(s) {
                None => None,
                Some(q) => Some(framed(Some(q))),
            },
        },
    }
}

/// The document saved for a marker: its encoding, provided that it reads back
/// as the same marker.
pub open spec fn saved_document(m: Marker) -> Option<Seq<char>> {
    match encoded(m) {
        Some(text) => if document_marker(text) == Some(m) {
            Some(text)
        } else {
            None
        },
        None => None,
    }
}

/// Saving and loading round-trip: whatever document `to_json` writes for a
/// marker, `from_json` reads back as that same marker.
pub proof fn lemma_saved_document_reads_back(m: Marker)
    ensures
        saved_document(m) matches Some(text) ==> document_marker(text) == Some(m),
{
}

impl Marker {
    /// A marker with no cutoff.
    pub fn empty() -> (r: Marker)
        ensures
            r.cutoff_time is None,
    {
        Marker { cutoff_time: None }
    }

    /// A marker whose cutoff is `t`.
    pub fn at(t: Timestamp) -> (r: Marker)
        ensures
            r.cutoff_time == Some(t),
    {
        Marker { cutoff_time: Some(t) }
    }

    /// Whether a file modified at `modified` is newer than the cutoff. Without a
    /// cutoff every file is; a file whose time is unknown never is otherwise.
    pub fn admits(&self, modified: Option<Timestamp>) -> (r: bool)
        ensures
            r == admits(*self, modified),
    {
        match self.cutoff_time {
            None => true,
            Some(cutoff) => match modified {
                Some(t) => t.is_after(&cutoff),
                None => false,
            },
        }
    }

    /// Reads a marker document. Any text that is not such a document is an
    /// `InvalidFormat` error.
    pub fn from_json(text: &str) -> (r: Result<Marker, MarkerError>)
        ensures
            r is Ok <==> document_marker(text@) is Some,
            r matches Ok(m) ==> document_marker(text@) == Some(m),
            r matches Err(e) ==> e is InvalidFormat,
    {
        let members = match parse_object(text) {
            Some(members) => members,
            None => return Err(MarkerError::InvalidFormat),
        };
        let key = String::from_str("cutoff_time");
        proof {
            reveal_strlit("cutoff_time");
        }
        match member_index(&members, key.as_str()) {
            None => Ok(Marker { cutoff_time: None }),
            Some(i) => match &members[i].value {
                JsonField::Null => Ok(Marker { cutoff_time: None }),
                JsonField::Text(s) => match Timestamp::parse_rfc3339(s.as_str()) {
                    Some(t) => Ok(Marker { cutoff_time: Some(t) }),
                    None => Err(MarkerError::InvalidFormat),
                },
                JsonField::Other => Err(MarkerError::InvalidFormat),
            },
        }
    }

    /// Writes the marker document, after checking that it reads back as this
    /// marker; where it would not, or the cutoff has no RFC 3339 text, the
    /// error is `Serialization`.
    pub fn to_json(&self) -> (r: Result<String, MarkerError>)
        ensures
            r is Ok <==> saved_document(*self) is Some,
            r matches Ok(text) ==> saved_document(*self) == Some(text@),
            r matches Err(e) ==> e is Serialization,
    {
        let text = match self.cutoff_time {
            None => frame_document(None),
            Some(t) => {
                let stamp = match t.to_rfc3339() {
                    Some(stamp) => stamp,
                    None => return Err(MarkerError::Serialization),
                };
                let quoted = match string_literal(stamp.as_str()) {
                    Some(quoted) => quoted,
                    None => return Err(MarkerError::Serialization),
                };
                frame_document(Some(quoted.as_str()))
            },
        };
        assert(encoded(*self) == Some(text@));
        match Marker::from_json(text.as_str()) {
            Ok(back) => if back == *self {
                Ok(text)
            } else {
                Err(MarkerError::Serialization)
            },
            Err(_) => Err(MarkerError::Serialization),
        }
    }

    /// The marker a load produced, or one without cutoff where the load failed.
    pub fn or_default(loaded: Result<Marker, MarkerError>) -> (r: Marker)
        ensures
            loaded matches Ok(m) ==> r == m,
            loaded is Err ==> r.cutoff_time is None,
    {
        match loaded {
            Ok(m) => m,
            Err(_) => Marker { cutoff_time: None },
        }
    }
}

impl Default for Marker {
    fn default() -> (r: Marker)
        ensures
            r.cutoff_time is None,
    {
        Marker { cutoff_time: None }
    }
}

impl From<Timestamp> for Marker {
    fn from(value: Timestamp) -> (r: Marker) {
        Marker { cutoff_time: Some(value) }
    }
}

impl vstd::std_specs::convert::FromSpecImpl<Timestamp> for Marker {
    open spec fn obeys_from_spec() -> bool {
        true
    }

    open spec fn from_spec(v: Timestamp) -> Marker {
        Marker { cutoff_time: Some(v) }
    }
}

} // verus!
