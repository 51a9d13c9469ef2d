use vstd::prelude::*;
use crate::request::opt_text;
use crate::json::{encode_object, encode_string_map, json_quoted, object_text, quote, string_map_text};

verus! {

/// The RFC 3339 text of the instant `secs` seconds and `nanos` nanoseconds after
/// the Unix epoch, in UTC, or `None` where that instant cannot be represented.
pub uninterp spec fn rfc3339_of(secs: i64, nanos: u32) -> Option<Seq<char>>;

/// Relies on chrono's `DateTime::<Utc>::from_timestamp` (which gives `None` for
/// an instant it cannot represent) and `DateTime::to_rfc3339`, a function of the
/// instant alone.
#[verifier::external_body]
fn format_rfc3339(secs: i64, nanos: u32) -> (r: Option<String>)
    ensures
        opt_text(r) == rfc3339_of(secs, nanos),
{
    match chrono::DateTime::from_timestamp(secs, nanos) {
        Some(instant) => Some(instant.to_rfc3339()),
        None => None,
    }
}

/// A scheduled-delivery instant in UTC, kept with its RFC 3339 text.
#[derive(Debug)]
pub struct Timestamp {
    secs: i64,
    nanos: u32,
    text: String,
}

impl Timestamp {
    #[verifier::type_invariant]
    spec fn representable(&self) -> bool {
        rfc3339_of(self.secs, self.nanos) == Some(self.text@)
    }

    pub closed spec fn secs_spec(&self) -> i64 {
        self.secs
    }

    pub closed spec fn nanos_spec(&self) -> u32 {
        self.nanos
    }

    /// The RFC 3339 text of the instant.
    pub closed spec fn text_spec(&self) -> Seq<char> {
        self.text@
    }

    /// The instant `secs` seconds and `nanos` nanoseconds after the Unix epoch;
    /// `None` where it cannot be represented.
    pub fn from_unix(secs: i64, nanos: u32) -> (r: Option<Timestamp>)
        ensures
            r is Some <==> rfc3339_of(secs, nanos) is Some,
            r matches Some(t) ==> t.secs_spec() == secs && t.nanos_spec() == nanos
                && rfc3339_of(secs, nanos) == Some(t.text_spec()),
    {
        match format_rfc3339(secs, nanos) {
            Some(text) => Some(Timestamp { secs, nanos, text }),
            None => None,
        }
    }

    pub fn secs(&self) -> (r: i64)
        ensures
            r == self.secs_spec(),
    {
        self.secs
    }

    pub fn nanos(&self) -> (r: u32)
        ensures
            r == self.nanos_spec(),
    {
        self.nanos
    }

    /// The RFC 3339 text of the instant.
    pub fn to_rfc3339(&self) -> (r: String)
        ensures
            r@ == self.text_spec(),
            rfc3339_of(self.secs_spec(), self.nanos_spec()) == Some(r@),
    {
        proof {
            use_type_invariant(self);
        }
        self.text.clone()
    }
}

impl Clone for Timestamp {
    fn clone(&self) -> (r: Self)
        ensures
            r == *self,
    {
        proof {
            use_type_invariant(self);
        }
        Timestamp { secs: self.secs, nanos: self.nanos, text: self.text.clone() }
    }
}

/// The fields of a publish envelope, in the order they are written: the data,
/// then each optional field that is set. An unset field is left out.
pub open spec fn envelope_fields(
    data: Seq<char>,
    metadata: Option<Seq<(Seq<char>, Seq<char>)>>,
    send_at: Option<Seq<char>>,
    wait_group_instance_id: Option<Seq<char>>,
) -> Seq<(Seq<char>, Seq<char>)> {
    seq![("data"@, data)]
        + match metadata {
            Some(m) => seq![("metadata"@, string_map_text(m))],
            None => Seq::empty(),
        }
        + match send_at {
            Some(t) => seq![("send_at"@, json_quoted(t))],
            None => Seq::empty(),
        }
        + match wait_group_instance_id {
            Some(w) => seq![("wait_group_instance_id"@, json_quoted(w))],
            None => Seq::empty(),
        }
}

/// The JSON text of a publish envelope.
pub open spec fn envelope_text(
    data: Seq<char>,
    metadata: Option<Seq<(Seq<char>, Seq<char>)>>,
    send_at: Option<Seq<char>>,
    wait_group_instance_id: Option<Seq<char>>,
) -> Seq<char> {
    object_text(envelope_fields(data, metadata, send_at, wait_group_instance_id))
}

/// The view of an optional list of pairs.
pub open spec fn opt_pairs(m: Option<Vec<(String, String)>>) -> Option<Seq<(Seq<char>, Seq<char>)>> {
    match m {
        Some(v) => Some(v.deep_view()),
        None => None,
    }
}

/// The body of a publish request.
#[derive(Clone, Debug)]
pub struct PublishBody {
    /// The payload, as JSON text.
    pub data: String,
    /// Metadata pairs, in the order they are written.
    pub metadata: Option<Vec<(String, String)>>,
    /// The scheduled-delivery time, as RFC 3339 text.
    pub send_at: Option<String>,
    pub wait_group_instance_id: Option<String>,
}

impl PublishBody {
    pub open spec fn text(&self) -> Seq<char> {
        envelope_text(
            self.data@,
            opt_pairs(self.metadata),
            opt_text(self.send_at),
            opt_text(self.wait_group_instance_id),
        )
    }

    /// Writes the envelope as JSON: the data, and only those optional fields
    /// that are set.
    pub fn encode(&self) -> (r: String)
        ensures
            r@ == self.text(),
    {
        let mut fields: Vec<(String, String)> = Vec::new();
        fields.push((quote_key("data"), self.data.clone()));
        match &self.metadata {
            Some(m) => {
                fields.push((quote_key("metadata"), encode_string_map(m)));
            },
            None => {},
        }
        match &self.send_at {
            Some(t) => {
                fields.push((quote_key("send_at"), quote(t.as_str())));
            },
            None => {},
        }
        match &self.wait_group_instance_id {
            Some(w) => {
                fields.push((quote_key("wait_group_instance_id"), quote(w.as_str())));
            },
            None => {},
        }
        proof {
            assert(fields.deep_view() =~= envelope_fields(
                self.data@,
                opt_pairs(self.metadata),
                opt_text(self.send_at),
                opt_text(self.wait_group_instance_id),
            ));
        }
        encode_object(&fields)
    }
}

/// An object key as an owned string.
fn quote_key(k: &str) -> (r: String)
    ensures
        r@ == k@,
{
    k.to_string()
}

} // verus!
