//! The values that the packet handlers decide on.

use vstd::prelude::*;

use crate::machine::Modeled;

verus! {

/// The protocol version that a service speaks.
#[derive(Debug, Clone, Copy, PartialEq, Eq, Structural)]
pub enum MqttProtocol {
    Mqtt3,
    Mqtt4,
    Mqtt5,
}

/// Quality of service.
#[derive(Debug, Clone, Copy, PartialEq, Eq, Structural)]
pub enum QoS {
    AtMostOnce,
    AtLeastOnce,
    ExactlyOnce,
}

impl QoS {
    /// The number that stands for the level on the wire.
    pub open spec fn level(self) -> u8 {
        match self {
            QoS::AtMostOnce => 0,
            QoS::AtLeastOnce => 1,
            QoS::ExactlyOnce => 2,
        }
    }
}

/// The quality of service with the given level, if there is one.
pub fn qos(level: u8) -> (r: Option<QoS>)
    ensures
        r is Some <==> level <= 2,
        r matches Some(found) ==> found.level() == level,
{
    match level {
        0 => Some(QoS::AtMostOnce),
        1 => Some(QoS::AtLeastOnce),
        2 => Some(QoS::ExactlyOnce),
        _ => None,
    }
}

/// The lower of two levels.
pub open spec fn lower_qos(a: QoS, b: QoS) -> QoS {
    if a.level() <= b.level() {
        a
    } else {
        b
    }
}

/// The lower of two levels.
pub fn min_qos(a: QoS, b: QoS) -> (r: QoS)
    ensures
        r == lower_qos(a, b),
{
    match (a, b) {
        (QoS::AtMostOnce, _) => a,
        (_, QoS::AtMostOnce) => b,
        (QoS::AtLeastOnce, _) => a,
        (_, QoS::AtLeastOnce) => b,
        _ => a,
    }
}

/// The code by which a connection request is refused.
#[derive(Debug, Clone, Copy, PartialEq, Eq, Structural)]
pub enum ConnectReturnCode {
    MalformedPacket,
    UnspecifiedError,
    NotAuthorized,
    Banned,
}

/// The reason given with a disconnection.
#[derive(Debug, Clone, Copy, PartialEq, Eq, Structural)]
pub enum DisconnectReasonCode {
    NormalDisconnection,
    DisconnectWithWillMessage,
    UnspecifiedError,
    MalformedPacket,
    ProtocolError,
    ImplementationSpecificError,
    NotAuthorized,
    ServerBusy,
    ServerShuttingDown,
    KeepAliveTimeout,
    SessionTakenOver,
    TopicFilterInvalid,
    TopicNameInvalid,
    ReceiveMaximumExceeded,
    TopicAliasInvalid,
    PacketTooLarge,
    MessageRateTooHigh,
    QuotaExceeded,
    AdministrativeAction,
    PayloadFormatInvalid,
    RetainNotSupported,
    QoSNotSupported,
    UseAnotherServer,
    ServerMoved,
    SharedSubscriptionNotSupported,
    ConnectionRateExceeded,
    MaximumConnectTime,
    SubscriptionIdentifiersNotSupported,
    WildcardSubscriptionsNotSupported,
}

#[derive(Debug, Clone, Copy, PartialEq, Eq, Structural)]
pub enum PubAckReason {
    Success,
    NotAuthorized,
}

#[derive(Debug, Clone, Copy, PartialEq, Eq, Structural)]
pub enum PubRecReason {
    Success,
    NotAuthorized,
}

#[derive(Debug, Clone, Copy, PartialEq, Eq, Structural)]
pub enum PubCompReason {
    Success,
    PacketIdentifierNotFound,
}

#[derive(Debug, Clone, Copy, PartialEq, Eq, Structural)]
pub enum SubscribeReasonCode {
    QoS0,
    QoS1,
    QoS2,
    Unspecified,
}

#[derive(Debug, Clone, Copy, PartialEq, Eq, Structural)]
pub enum UnsubAckReason {
    Success,
    UnspecifiedError,
}

/// What the handlers read of a connection.
#[derive(Debug, PartialEq, Eq)]
pub struct MqttConnection {
    pub client_id: String,
    /// Seconds.
    pub keep_alive: u32,
}

impl Clone for MqttConnection {
    fn clone(&self) -> (r: Self)
        ensures
            r == *self,
    {
        MqttConnection { client_id: self.client_id.clone(), keep_alive: self.keep_alive }
    }
}

/// What the handlers read of a session.
#[derive(Debug, Clone, Copy, PartialEq, Eq, Structural)]
pub struct MqttSession {
    /// Seconds.
    pub session_expiry: u64,
}

/// The sign of life of a connection that the broker keeps.
#[derive(Debug, Clone, Copy, PartialEq, Eq, Structural)]
pub struct ConnectionLiveTime {
    pub protocol: MqttProtocol,
    pub keep_live: u16,
    /// Seconds since the epoch.
    pub heartbeat: u64,
}

/// The sign of life at the time `now`. The keep-alive time is kept in sixteen
/// bits; its higher bits are lost.
pub open spec fn live_time_at(
    protocol: MqttProtocol,
    connection: MqttConnection,
    now: u64,
) -> ConnectionLiveTime {
    ConnectionLiveTime {
        protocol,
        keep_live: (connection.keep_alive % 0x1_0000) as u16,
        heartbeat: now,
    }
}

/// The sign of life of `connection` at the time `now`.
pub fn live_time(protocol: MqttProtocol, connection: &MqttConnection, now: u64) -> (r:
    ConnectionLiveTime)
    ensures
        r == live_time_at(protocol, *connection, now),
        r.keep_live == connection.keep_alive % 0x1_0000,
{
    let keep_live: u16 = (connection.keep_alive % 0x1_0000) as u16;
    ConnectionLiveTime { protocol, keep_live, heartbeat: now }
}

/// A packet with which the broker replies.
///
/// `P` is the type of packets that come ready made from a validator.
#[allow(inconsistent_fields)]
#[derive(Debug, PartialEq, Eq)]
pub enum MqttReply<P> {
    Ready(P),
    ConnectFail { protocol: MqttProtocol, code: ConnectReturnCode, reason: Option<String> },
    ConnectSuccess {
        protocol: MqttProtocol,
        client_id: String,
        new_client_id: bool,
        session_expiry: u32,
        new_session: bool,
        keep_alive: u32,
    },
    Disconnect { protocol: MqttProtocol, reason: Option<DisconnectReasonCode> },
    /// The publication failed. `is_pub_ack` tells whether that is said by a
    /// PUBACK or by a PUBREC.
    PubAckFail {
        protocol: MqttProtocol,
        connection: MqttConnection,
        pkid: u16,
        reason: Option<String>,
        is_pub_ack: bool,
    },
    PubAck {
        protocol: MqttProtocol,
        connection: MqttConnection,
        pkid: u16,
        code: PubAckReason,
        reason: Option<String>,
        user_properties: Vec<(String, String)>,
    },
    PubRec {
        protocol: MqttProtocol,
        connection: MqttConnection,
        pkid: u16,
        code: PubRecReason,
        reason: Option<String>,
        user_properties: Vec<(String, String)>,
    },
    PubCompFail {
        protocol: MqttProtocol,
        connection: MqttConnection,
        pkid: u16,
        code: PubCompReason,
        reason: Option<String>,
    },
    PubCompSuccess { protocol: MqttProtocol, pkid: u16 },
    SubAck {
        protocol: MqttProtocol,
        connection: MqttConnection,
        pkid: u16,
        codes: Vec<SubscribeReasonCode>,
        reason: Option<String>,
    },
    UnsubAck {
        connection: MqttConnection,
        pkid: u16,
        codes: Vec<UnsubAckReason>,
        reason: Option<String>,
    },
    PingResp,
}

/// The model of a reply: its lists are sequences.
#[allow(inconsistent_fields)]
pub enum ReplyModel<P> {
    Ready(P),
    ConnectFail { protocol: MqttProtocol, code: ConnectReturnCode, reason: Option<String> },
    ConnectSuccess {
        protocol: MqttProtocol,
        client_id: String,
        new_client_id: bool,
        session_expiry: u32,
        new_session: bool,
        keep_alive: u32,
    },
    Disconnect { protocol: MqttProtocol, reason: Option<DisconnectReasonCode> },
    PubAckFail {
        protocol: MqttProtocol,
        connection: MqttConnection,
        pkid: u16,
        reason: Option<String>,
        is_pub_ack: bool,
    },
    PubAck {
        protocol: MqttProtocol,
        connection: MqttConnection,
        pkid: u16,
        code: PubAckReason,
        reason: Option<String>,
        user_properties: Seq<(Seq<char>, Seq<char>)>,
    },
    PubRec {
        protocol: MqttProtocol,
        connection: MqttConnection,
        pkid: u16,
        code: PubRecReason,
        reason: Option<String>,
        user_properties: Seq<(Seq<char>, Seq<char>)>,
    },
    PubCompFail {
        protocol: MqttProtocol,
        connection: MqttConnection,
        pkid: u16,
        code: PubCompReason,
        reason: Option<String>,
    },
    PubCompSuccess { protocol: MqttProtocol, pkid: u16 },
    SubAck {
        protocol: MqttProtocol,
        connection: MqttConnection,
        pkid: u16,
        codes: Seq<SubscribeReasonCode>,
        reason: Option<String>,
    },
    UnsubAck {
        connection: MqttConnection,
        pkid: u16,
        codes: Seq<UnsubAckReason>,
        reason: Option<String>,
    },
    PingResp,
}

/// The texts of a list of name and value pairs.
pub open spec fn texts_of(pairs: Seq<(String, String)>) -> Seq<(Seq<char>, Seq<char>)> {
    pairs.map_values(|pair: (String, String)| (pair.0@, pair.1@))
}

impl<P> Modeled for MqttReply<P> {
    type Model = ReplyModel<P>;

    open spec fn model(&self) -> ReplyModel<P> {
        match *self {
            MqttReply::Ready(packet) => ReplyModel::Ready(packet),
            MqttReply::ConnectFail { protocol, code, reason } => ReplyModel::ConnectFail {
                protocol,
                code,
                reason,
            },
            MqttReply::ConnectSuccess {
                protocol,
                client_id,
                new_client_id,
                session_expiry,
                new_session,
                keep_alive,
            } => ReplyModel::ConnectSuccess {
                protocol,
                client_id,
                new_client_id,
                session_expiry,
                new_session,
                keep_alive,
            },
            MqttReply::Disconnect { protocol, reason } => ReplyModel::Disconnect {
                protocol,
                reason,
            },
            MqttReply::PubAckFail { protocol, connection, pkid, reason, is_pub_ack } =>
            ReplyModel::PubAckFail { protocol, connection, pkid, reason, is_pub_ack },
            MqttReply::PubAck { protocol, connection, pkid, code, reason, user_properties } =>
            ReplyModel::PubAck {
                protocol,
                connection,
                pkid,
                code,
                reason,
                user_properties: texts_of(user_properties@),
            },
            MqttReply::PubRec { protocol, connection, pkid, code, reason, user_properties } =>
            ReplyModel::PubRec {
                protocol,
                connection,
                pkid,
                code,
                reason,
                user_properties: texts_of(user_properties@),
            },
            MqttReply::PubCompFail { protocol, connection, pkid, code, reason } =>
            ReplyModel::PubCompFail { protocol, connection, pkid, code, reason },
            MqttReply::PubCompSuccess { protocol, pkid } => ReplyModel::PubCompSuccess {
                protocol,
                pkid,
            },
            MqttReply::SubAck { protocol, connection, pkid, codes, reason } => ReplyModel::SubAck {
                protocol,
                connection,
                pkid,
                codes: codes@,
                reason,
            },
            MqttReply::UnsubAck { connection, pkid, codes, reason } => ReplyModel::UnsubAck {
                connection,
                pkid,
                codes: codes@,
                reason,
            },
            MqttReply::PingResp => ReplyModel::PingResp,
        }
    }
}

/// The levels are 0, 1 and 2, in the order of how often a message may arrive, and
/// no two qualities of service share one.
pub proof fn law_qos_levels(a: QoS, b: QoS)
    ensures
        a.level() == match a {
            QoS::AtMostOnce => 0int,
            QoS::AtLeastOnce => 1int,
            QoS::ExactlyOnce => 2int,
        },
        a.level() == b.level() ==> a == b,
{
}

/// The lower of two levels is at most once if either is, and exactly once only if
/// both are, in whichever order they come.
pub proof fn law_lower_qos(a: QoS, b: QoS)
    ensures
        lower_qos(a, b) == QoS::AtMostOnce <==> a == QoS::AtMostOnce || b == QoS::AtMostOnce,
        lower_qos(a, b) == QoS::ExactlyOnce <==> a == QoS::ExactlyOnce && b == QoS::ExactlyOnce,
        lower_qos(a, b) == lower_qos(b, a),
{
}

/// A sign of life bears the protocol and the time as they are given, and the
/// keep-alive time as far as sixteen bits hold it.
pub proof fn law_live_time(protocol: MqttProtocol, connection: MqttConnection, now: u64)
    ensures
        ({
            let live = live_time_at(protocol, connection, now);
            &&& live.protocol == protocol
            &&& live.heartbeat == now
            &&& live.keep_live == connection.keep_alive % 65536
        }),
{
}

/// The model of a reply is a packet of the same kind with the same fields; lists
/// have the same entries in the same order.
pub proof fn law_reply_model<P>(reply: MqttReply<P>)
    ensures
        match reply {
            MqttReply::Ready(packet) => reply.model() == ReplyModel::Ready(packet),
            MqttReply::ConnectFail { protocol, code, reason } => reply.model()
                == (ReplyModel::<P>::ConnectFail { protocol, code, reason }),
            MqttReply::ConnectSuccess {
                protocol,
                client_id,
                new_client_id,
                session_expiry,
                new_session,
                keep_alive,
            } => reply.model() == (ReplyModel::<P>::ConnectSuccess {
                protocol,
                client_id,
                new_client_id,
                session_expiry,
                new_session,
                keep_alive,
            }),
            MqttReply::Disconnect { protocol, reason } => reply.model()
                == (ReplyModel::<P>::Disconnect { protocol, reason }),
            MqttReply::PubAckFail { protocol, connection, pkid, reason, is_pub_ack } =>
            reply.model() == (ReplyModel::<P>::PubAckFail {
                protocol,
                connection,
                pkid,
                reason,
                is_pub_ack,
            }),
            MqttReply::PubAck {
                protocol: protocol_1,
                connection: connection_1,
                pkid: pkid_1,
                code: code_1,
                reason: reason_1,
                user_properties: pairs,
            } => reply.model() matches ReplyModel::PubAck {
                protocol,
                connection,
                pkid,
                code,
                reason,
                user_properties,
            } && {
                &&& protocol == protocol_1 && connection == connection_1 && pkid == pkid_1
                &&& code == code_1 && reason == reason_1
                &&& user_properties.len() == pairs@.len()
                &&& forall|i: int|
                    0 <= i < pairs@.len() ==> #[trigger] user_properties[i] == (
                        pairs@[i].0@,
                        pairs@[i].1@,
                    )
            },
            MqttReply::PubRec {
                protocol: protocol_1,
                connection: connection_1,
                pkid: pkid_1,
                code: code_1,
                reason: reason_1,
                user_properties: pairs,
            } => reply.model() matches ReplyModel::PubRec {
                protocol,
                connection,
                pkid,
                code,
                reason,
                user_properties,
            } && {
                &&& protocol == protocol_1 && connection == connection_1 && pkid == pkid_1
                &&& code == code_1 && reason == reason_1
                &&& user_properties.len() == pairs@.len()
                &&& forall|i: int|
                    0 <= i < pairs@.len() ==> #[trigger] user_properties[i] == (
                        pairs@[i].0@,
                        pairs@[i].1@,
                    )
            },
            MqttReply::PubCompFail { protocol, connection, pkid, code, reason } => reply.model()
                == (ReplyModel::<P>::PubCompFail { protocol, connection, pkid, code, reason }),
            MqttReply::PubCompSuccess { protocol, pkid } => reply.model()
                == (ReplyModel::<P>::PubCompSuccess { protocol, pkid }),
            MqttReply::SubAck { protocol, connection, pkid, codes, reason } => reply.model()
                == (ReplyModel::<P>::SubAck { protocol, connection, pkid, codes: codes@, reason }),
            MqttReply::UnsubAck { connection, pkid, codes, reason } => reply.model()
                == (ReplyModel::<P>::UnsubAck { connection, pkid, codes: codes@, reason }),
            MqttReply::PingResp => reply.model() == ReplyModel::<P>::PingResp,
        },
{
}

} // verus!
