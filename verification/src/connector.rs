//! The transport to the device, as the session sees it.

use vstd::prelude::*;
use crate::primitives::{random_bytes, uuid_v4};

verus! {

/// Liveness report of a transport.
#[derive(Clone, Debug, PartialEq, Eq)]
pub struct ConnectorStatus {
    /// Status message: `"OK"` for a transport that can reach its device.
    pub message: String,
}

/// Failure of a transport to deliver a request or to bring back the reply.
#[derive(Clone, Debug, PartialEq, Eq)]
pub struct ConnectorError {
    /// What the transport reports about the failure.
    pub description: String,
}

/// Token that accompanies one request through the transport, so that a
/// transport which multiplexes exchanges can tell them apart. It has no
/// cryptographic role.
#[derive(Clone, Copy, Debug, PartialEq, Eq)]
pub struct CorrelationToken {
    /// The sixteen bytes of the token.
    pub bytes: [u8; 16],
}

impl CorrelationToken {
    /// Whether the token has the layout of a random (version 4) UUID.
    pub open spec fn is_random_uuid(self) -> bool {
        self.bytes[6] & 0xf0 == 0x40 && self.bytes[8] & 0xc0 == 0x80
    }

    /// A fresh token, laid out as a random UUID, or `None` where the system's
    /// random source fails.
    pub fn generate() -> (token: Option<CorrelationToken>)
        ensures
            token matches Some(t) ==> t.is_random_uuid(),
    {
        match random_bytes::<16>() {
            Some(random) => Some(CorrelationToken::from_random_bytes(random)),
            None => None,
        }
    }

    /// The bytes of the random UUID that sixteen drawn bytes give: the high
    /// half of the seventh byte is the version, 4, the two high bits of the
    /// ninth are the variant, and every other bit is as it was drawn.
    pub open spec fn random_uuid_bytes(random: Seq<u8>) -> Seq<u8> {
        random.update(6, (random[6] & 0x0f) | 0x40).update(8, (random[8] & 0x3f) | 0x80)
    }

    /// The token that sixteen drawn bytes give.
    pub fn from_random_bytes(random: [u8; 16]) -> (token: CorrelationToken)
        ensures
            token.bytes@ == CorrelationToken::random_uuid_bytes(random@),
            token.is_random_uuid(),
    {
        let bytes = uuid_v4(random);
        let ghost r6 = random[6];
        let ghost r8 = random[8];
        assert(((r6 & 0x0f) | 0x40) & 0xf0 == 0x40) by (bit_vector);
        assert(((r8 & 0x3f) | 0x80) & 0xc0 == 0x80) by (bit_vector);
        CorrelationToken { bytes }
    }
}

/// A blocking request/response transport to one device.
///
/// The session asks nothing of an implementation: whatever `status` and
/// `send_command` return is checked before it is used, and the contracts of
/// the session hold for every reply.
pub trait Connector {
    /// Reports whether the transport is healthy.
    fn status(&self) -> Result<ConnectorStatus, ConnectorError>;

    /// Delivers one serialized command and returns the serialized response.
    fn send_command(&self, token: CorrelationToken, command: Vec<u8>) -> Result<
        Vec<u8>,
        ConnectorError,
    >;
}

/// One thing that was asked of a transport.
pub enum Request {
    /// Its status.
    Status,
    /// The delivery of a command with these bytes.
    Command(Seq<u8>),
}

/// What a transport holds, as plain values.
pub struct TransportView<C> {
    /// The connector behind it.
    pub connector: C,
    /// Everything that was asked of the connector, in order.
    pub log: Seq<Request>,
}

/// A connector together with the record of what was asked of it.
///
/// The connector can be reached through `status` and `send_command` alone,
/// and each of them writes the request down where it makes the call: the
/// record says what the connector was asked, and in which order.
pub struct Transport<C: Connector> {
    connector: C,
    log: Ghost<Seq<Request>>,
}

impl<C: Connector> View for Transport<C> {
    type V = TransportView<C>;

    closed spec fn view(&self) -> TransportView<C> {
        TransportView { connector: self.connector, log: self.log@ }
    }
}

impl<C: Connector> Transport<C> {
    /// Takes charge of a connector of which nothing has been asked yet.
    pub fn new(connector: C) -> (transport: Transport<C>)
        ensures
            transport@ == (TransportView { connector, log: Seq::empty() }),
    {
        Transport { connector, log: Ghost(Seq::empty()) }
    }

    /// Asks the connector for its status.
    pub fn status(&mut self) -> (report: Result<ConnectorStatus, ConnectorError>)
        ensures
            final(self)@ == (TransportView {
                log: old(self)@.log.push(Request::Status),
                ..old(self)@
            }),
    {
        self.log = Ghost(self.log@.push(Request::Status));
        self.connector.status()
    }

    /// Hands one serialized command to the connector.
    pub fn send_command(&mut self, token: CorrelationToken, command: Vec<u8>) -> (reply: Result<
        Vec<u8>,
        ConnectorError,
    >)
        ensures
            final(self)@ == (TransportView {
                log: old(self)@.log.push(Request::Command(command@)),
                ..old(self)@
            }),
    {
        self.log = Ghost(self.log@.push(Request::Command(command@)));
        self.connector.send_command(token, command)
    }
}

} // verus!
