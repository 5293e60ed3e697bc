//! Agent Protocol v1 envelope fields: the protocol version as received
//! text, version-4 UUID identifiers, and UTC message timestamps.
use vstd::prelude::*;

use crate::primitives::entropy::{random_uuid_v4, uuid_version_field, uuid_version_num};
use crate::text::str_equal;
use crate::time::{utc_now, Timestamp};

verus! {

/// Wire text of the currently supported protocol version.
pub const PROTOCOL_VERSION_V1: &'static str = "1";

/// The supported version text `1`.
pub open spec fn v1_text() -> Seq<char> {
    seq!['1']
}

/// `protocol_version` as received: any text, compared with v1 by callers.
#[derive(Debug, Clone, PartialEq, Eq)]
pub struct ProtocolVersion(String);

impl View for ProtocolVersion {
    type V = Seq<char>;

    closed spec fn view(&self) -> Seq<char> {
        self.0@
    }
}

impl ProtocolVersion {
    /// The currently supported v1 value.
    pub fn v1() -> (res: Self)
        ensures
            res@ == v1_text(),
    {
        let text = "1";
        proof {
            reveal_strlit("1");
            assert(text@ =~= v1_text());
        }
        ProtocolVersion(String::from_str(text))
    }

    /// Wraps a received textual value without validating it.
    pub fn new(value: String) -> (res: Self)
        ensures
            res@ == value@,
    {
        ProtocolVersion(value)
    }

    pub fn as_str(&self) -> (res: &str)
        ensures
            res@ == self@,
    {
        self.0.as_str()
    }

    /// Whether this value is the supported v1 text.
    pub fn is_v1(&self) -> (res: bool)
        ensures
            res == (self@ == v1_text()),
    {
        let text = "1";
        proof {
            reveal_strlit("1");
            assert(text@ =~= v1_text());
        }
        str_equal(self.0.as_str(), text)
    }
}

impl Default for ProtocolVersion {
    /// The currently supported v1 value.
    fn default() -> (res: Self)
        ensures
            res@ == v1_text(),
    {
        ProtocolVersion::v1()
    }
}

/// A syntactically valid UUID that is not version 4.
#[derive(Debug, Clone, Copy, PartialEq, Eq)]
pub struct NotUuidV4;

/// A message, session or correlation identifier: always a version-4 UUID,
/// held as its 128-bit big-endian value.
#[derive(Debug, Clone, Copy, PartialEq, Eq, Hash)]
pub struct ProtocolId(u128);

impl View for ProtocolId {
    type V = u128;

    closed spec fn view(&self) -> u128 {
        self.0
    }
}

impl ProtocolId {
    #[verifier::type_invariant]
    spec fn is_v4(self) -> bool {
        uuid_version_field(self.0) == 4
    }

    /// A fresh random version-4 identifier.
    pub fn generate() -> (res: Self)
        ensures
            uuid_version_field(res@) == 4,
    {
        ProtocolId(random_uuid_v4())
    }

    /// Wraps a known UUID value, rejecting any that is not version 4.
    pub fn from_uuid(uuid: u128) -> (res: Result<Self, NotUuidV4>)
        ensures
            res is Ok <==> uuid_version_field(uuid) == 4,
            res matches Ok(id) ==> id@ == uuid,
    {
        if uuid_version_num(uuid) != 4 {
            return Err(NotUuidV4);
        }
        Ok(ProtocolId(uuid))
    }

    /// The UUID value; always version 4.
    pub fn as_uuid(&self) -> (res: u128)
        ensures
            res == self@,
            uuid_version_field(res) == 4,
    {
        proof {
            use_type_invariant(self);
        }
        self.0
    }
}

/// A UTC message timestamp.
#[derive(Debug, Clone, Copy, PartialEq, Eq)]
pub struct MessageTimestamp(Timestamp);

impl View for MessageTimestamp {
    type V = Timestamp;

    closed spec fn view(&self) -> Timestamp {
        self.0
    }
}

impl MessageTimestamp {
    /// The current wall-clock instant.
    pub fn now() -> (res: Self) {
        MessageTimestamp(utc_now())
    }

    pub fn from_datetime(value: Timestamp) -> (res: Self)
        ensures
            res@ == value,
    {
        MessageTimestamp(value)
    }

    pub fn as_datetime(&self) -> (res: Timestamp)
        ensures
            res == self@,
    {
        self.0
    }
}

/// The message timestamp of an instant.
pub closed spec fn message_timestamp_of(value: Timestamp) -> MessageTimestamp {
    MessageTimestamp(value)
}

impl From<Timestamp> for MessageTimestamp {
    fn from(value: Timestamp) -> (res: Self)
        ensures
            res@ == value,
    {
        MessageTimestamp(value)
    }
}

impl vstd::std_specs::convert::FromSpecImpl<Timestamp> for MessageTimestamp {
    open spec fn obeys_from_spec() -> bool {
        true
    }

    open spec fn from_spec(value: Timestamp) -> Self {
        message_timestamp_of(value)
    }
}

/// Fields common to every Agent Protocol v1 message.
#[derive(Debug, Clone)]
pub struct Envelope {
    pub message_id: ProtocolId,
    pub protocol_version: ProtocolVersion,
    pub timestamp: MessageTimestamp,
    pub correlation_id: Option<ProtocolId>,
}

impl Envelope {
    /// A fresh v1 envelope with a new message id, the current time, and no
    /// correlation id.
    pub fn new() -> (res: Self)
        ensures
            res.protocol_version@ == v1_text(),
            res.correlation_id is None,
    {
        Envelope {
            message_id: ProtocolId::generate(),
            protocol_version: ProtocolVersion::v1(),
            timestamp: MessageTimestamp::now(),
            correlation_id: None,
        }
    }

    pub fn with_correlation_id(self, correlation_id: ProtocolId) -> (res: Self)
        ensures
            res.message_id == self.message_id,
            res.protocol_version == self.protocol_version,
            res.timestamp == self.timestamp,
            res.correlation_id == Some(correlation_id),
    {
        let mut res = self;
        res.correlation_id = Some(correlation_id);
        res
    }
}

impl Default for Envelope {
    /// A fresh v1 envelope, as [`Envelope::new`].
    fn default() -> (res: Self)
        ensures
            res.protocol_version@ == v1_text(),
            res.correlation_id is None,
    {
        Envelope::new()
    }
}

} // verus!
