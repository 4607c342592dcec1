//! What the broker decides for each packet a client sends. The connection
//! itself (reading, writing, waiting) runs outside; it hands each packet to
//! these functions and sends what they return.

use vstd::prelude::*;
use crate::buffer::{bytes_contents, bytes_len};
use crate::error::{Error, Result};
use crate::protocol::qos::QoS;
use crate::protocol::packet_id::{PacketIdCounter, next_id_after};
use crate::string_map::{lookup, has_key, insert_entry, remove_entry, keys_unique};
use crate::text::owned;
use crate::types::builders::{
    plain_header, plain_ack, header, connack_packet, puback_packet, pubrec_packet, pubcomp_packet,
};
use crate::types::connect::{ConnectPacket, ConnectPacketView, ConnectReturnCode, ConnAckPacketView};
use crate::types::message::{Message, MessageView};
use crate::types::packet::{PacketType, PacketHeader, Packet, PacketView, PacketPayload, PayloadView};
use crate::types::properties::{opt_chars, user_pairs};
use crate::types::publish::{PublishPacket, PublishPacketView};
use crate::types::subscribe::{
    TopicFilter, SubscribePacket, SubAckPacket, SubAckPacketView, UnsubscribePacket, UnsubAckPacket,
    UnsubAckPacketView,
};
use super::auth::credentials_match;
use super::config::ServerConfig;
use super::router::{MessageRouter, retained_for_filters};
use super::topic::{topic_matches, topic_matches_spec};
use super::session::{
    Subscription, subscription_views, subscription_lists,
    SessionManager, SessionView, SubscriptionView, subs_after_add, subs_after_remove, subscribers,
    sessions_after_add, sessions_after_remove,
};

verus! {

// ---------------------------------------------------------------------------
// CONNECT
// ---------------------------------------------------------------------------

/// The code a CONNECT is refused with, if it is: a protocol version other
/// than the server's; an empty client ID without a clean session; with
/// authentication configured and anonymous clients not allowed, no username
/// (not authorized) or a username without a password; with authentication
/// configured, a username and password that do not match.
pub open spec fn connect_refusal(config: ServerConfig, connect: ConnectPacketView) -> Option<ConnectReturnCode> {
    if connect.protocol_version != config.protocol_version {
        Some(ConnectReturnCode::UnacceptableProtocolVersion)
    } else if connect.client_id.len() == 0 && !connect.clean_session {
        Some(ConnectReturnCode::IdentifierRejected)
    } else {
        match config.authentication {
            Some(auth) => if connect.username is None && !config.allow_anonymous {
                Some(ConnectReturnCode::NotAuthorized)
            } else if connect.username is Some && connect.password is None && !config.allow_anonymous {
                Some(ConnectReturnCode::BadUsernameOrPassword)
            } else if connect.username is Some && connect.password is Some && !credentials_match(
                user_pairs(auth.users),
                connect.username.unwrap(),
                connect.password.unwrap(),
            ) {
                Some(ConnectReturnCode::BadUsernameOrPassword)
            } else {
                None
            },
            None => None,
        }
    }
}

/// The code a CONNECT is refused with, if it is.
pub fn check_connect(config: &ServerConfig, connect: &ConnectPacket) -> (r: Option<ConnectReturnCode>)
    ensures
        r == connect_refusal(*config, connect@),
{
    if connect.protocol_version != config.protocol_version {
        return Some(ConnectReturnCode::UnacceptableProtocolVersion);
    }
    if connect.client_id.as_str().is_empty() && !connect.clean_session {
        return Some(ConnectReturnCode::IdentifierRejected);
    }
    if let Some(auth) = &config.authentication {
        if connect.username.is_none() && !config.allow_anonymous {
            return Some(ConnectReturnCode::NotAuthorized);
        }
        if connect.username.is_some() && connect.password.is_none() && !config.allow_anonymous {
            return Some(ConnectReturnCode::BadUsernameOrPassword);
        }
        if let (Some(username), Some(password)) = (&connect.username, &connect.password) {
            if !auth.authenticate(username.as_str(), password.as_str()) {
                return Some(ConnectReturnCode::BadUsernameOrPassword);
            }
        }
    }
    None
}

/// What a CONNECT is answered with, case by case: the protocol version is
/// checked first, then the client ID; without authentication configured
/// every other CONNECT is accepted. With authentication configured, a
/// username that comes with a password is always checked against the known
/// users, whether or not anonymous clients are allowed: only the exact
/// password of a known user is accepted. A missing username, or a username
/// without a password, is refused only when anonymous clients are not
/// allowed.
pub proof fn lemma_connect_credentials_checked(config: ServerConfig, connect: ConnectPacketView)
    ensures
        connect.protocol_version != config.protocol_version ==> connect_refusal(config, connect) == Some(
            ConnectReturnCode::UnacceptableProtocolVersion,
        ),
        connect.protocol_version == config.protocol_version && connect.client_id.len() == 0 && !connect.clean_session
            ==> connect_refusal(config, connect) == Some(ConnectReturnCode::IdentifierRejected),
        ({
            let checked = connect.protocol_version == config.protocol_version && !(connect.client_id.len() == 0
                && !connect.clean_session);
            &&& (checked && config.authentication is None) ==> connect_refusal(config, connect) is None
            &&& (checked && config.authentication is Some && connect.username is Some && connect.password is Some)
                ==> connect_refusal(config, connect) == (if lookup(
                user_pairs(config.authentication.unwrap().users),
                connect.username.unwrap(),
            ) == Some(connect.password.unwrap()) {
                None
            } else {
                Some(ConnectReturnCode::BadUsernameOrPassword)
            })
            &&& (checked && config.authentication is Some && connect.username is None) ==> connect_refusal(
                config,
                connect,
            ) == (if config.allow_anonymous {
                None
            } else {
                Some(ConnectReturnCode::NotAuthorized)
            })
            &&& (checked && config.authentication is Some && connect.username is Some && connect.password is None)
                ==> connect_refusal(config, connect) == (if config.allow_anonymous {
                None
            } else {
                Some(ConnectReturnCode::BadUsernameOrPassword)
            })
        }),
{
}

/// Answers a CONNECT: a refusal leaves the sessions as they are; an
/// accepted client gets a fresh session, and the CONNACK says whether it had
/// one before.
pub fn handle_connect(config: &ServerConfig, sessions: &mut SessionManager, connect: &ConnectPacket) -> (r: Packet)
    ensures
        connect_refusal(*config, connect@) matches Some(code) ==> r@ == (PacketView {
            header: plain_header(PacketType::ConnAck, 0),
            payload: PayloadView::ConnAck(ConnAckPacketView { session_present: false, return_code: code, properties: None }),
        }) && final(sessions).sessions_view() == old(sessions).sessions_view(),
        connect_refusal(*config, connect@) is None ==> r@ == (PacketView {
            header: plain_header(PacketType::ConnAck, 0),
            payload: PayloadView::ConnAck(ConnAckPacketView {
                session_present: lookup(old(sessions).sessions_view(), connect@.client_id) is Some,
                return_code: ConnectReturnCode::Accepted,
                properties: None,
            }),
        }) && final(sessions).sessions_view() == insert_entry(
            old(sessions).sessions_view(),
            connect@.client_id,
            SessionView {
                client_id: connect@.client_id,
                username: connect@.username,
                clean_session: connect.clean_session,
                subscriptions: Seq::empty(),
                pending_messages: Seq::empty(),
            },
        ),
        final(sessions).subscriptions_view() == old(sessions).subscriptions_view(),
{
    match check_connect(config, connect) {
        Some(code) => connack_packet(code, false),
        None => {
            let session_present = sessions.get_session(connect.client_id.as_str()).is_some();
            sessions.create_session(connect.client_id.clone(), clone_username(&connect.username), connect.clean_session);
            connack_packet(ConnectReturnCode::Accepted, session_present)
        },
    }
}

/// A copy of an optional username.
fn clone_username(o: &Option<String>) -> (r: Option<String>)
    ensures
        opt_chars(r) == opt_chars(*o),
{
    match o {
        Some(s) => Some(s.clone()),
        None => None,
    }
}

// ---------------------------------------------------------------------------
// PUBLISH
// ---------------------------------------------------------------------------

/// How a PUBLISH is acknowledged.
#[derive(Debug, Clone, Copy, PartialEq, Eq, Structural)]
pub enum PublishAck {
    /// QoS 0, or no packet ID: nothing is sent.
    Nothing,
    /// QoS 1: a PUBACK for this packet ID.
    PubAck(u16),
    /// QoS 2: a PUBREC for this packet ID, then a PUBREL is awaited.
    PubRec(u16),
}

/// The acknowledgment a PUBLISH with QoS `qos` and packet ID `packet_id`
/// calls for.
pub open spec fn publish_ack(qos: u8, packet_id: Option<u16>) -> PublishAck {
    match packet_id {
        Some(id) => if qos == 1 {
            PublishAck::PubAck(id)
        } else if qos == 2 {
            PublishAck::PubRec(id)
        } else {
            PublishAck::Nothing
        },
        None => PublishAck::Nothing,
    }
}

/// The message a PUBLISH carries, with the flags of its header.
pub open spec fn published_message(h: PacketHeader, p: PublishPacketView) -> MessageView {
    MessageView { topic: p.topic_name, payload: p.payload, qos: h.qos, retain: h.retain, dup: h.dup, packet_id: p.packet_id }
}

/// The retained messages after a PUBLISH: with RETAIN, an empty payload
/// clears the topic and any other payload is retained under it.
pub open spec fn retained_after_publish(
    retained: Seq<(Seq<char>, MessageView)>,
    h: PacketHeader,
    p: PublishPacketView,
) -> Seq<(Seq<char>, MessageView)> {
    if h.retain {
        if p.payload.len() == 0 {
            remove_entry(retained, p.topic_name)
        } else {
            insert_entry(retained, p.topic_name, published_message(h, p))
        }
    } else {
        retained
    }
}

/// Handles a PUBLISH: updates the retained messages and says which message
/// it carries and how it is acknowledged.
pub fn handle_publish(router: &mut MessageRouter, header: &PacketHeader, publish: &PublishPacket) -> (r: (Message, PublishAck))
    ensures
        r.0@ == published_message(*header, publish@),
        r.1 == publish_ack(header.qos, publish.packet_id),
        final(router).retained_view() == retained_after_publish(old(router).retained_view(), *header, publish@),
{
    let message = Message {
        topic: publish.topic_name.clone(),
        payload: publish.payload.clone(),
        qos: header.qos,
        retain: header.retain,
        dup: header.dup,
        packet_id: publish.packet_id,
    };
    if header.retain {
        if bytes_len(&publish.payload) == 0 {
            router.clear_retained_message(publish.topic_name.as_str());
        } else {
            router.store_retained_message(publish.topic_name.clone(), message.clone());
        }
    }
    let ack = match publish.packet_id {
        Some(id) => if header.qos == 1 {
            PublishAck::PubAck(id)
        } else if header.qos == 2 {
            PublishAck::PubRec(id)
        } else {
            PublishAck::Nothing
        },
        None => PublishAck::Nothing,
    };
    (message, ack)
}

/// A PUBLISH with RETAIN and a non-empty payload is retained under its
/// topic, whatever its QoS: what is then found there is that message, with
/// its payload, QoS, flags and packet ID. With RETAIN and an empty payload
/// nothing is left under the topic; without RETAIN the retained messages
/// stay as they were. Other topics keep what they had.
pub proof fn lemma_publish_retains(
    retained: Seq<(Seq<char>, MessageView)>,
    h: PacketHeader,
    p: PublishPacketView,
    other: Seq<char>,
)
    requires
        keys_unique(retained),
    ensures
        h.retain && p.payload.len() > 0 ==> lookup(retained_after_publish(retained, h, p), p.topic_name) == Some(
            MessageView {
                topic: p.topic_name,
                payload: p.payload,
                qos: h.qos,
                retain: true,
                dup: h.dup,
                packet_id: p.packet_id,
            },
        ),
        h.retain && p.payload.len() == 0 ==> lookup(retained_after_publish(retained, h, p), p.topic_name) is None,
        !h.retain ==> retained_after_publish(retained, h, p) == retained,
        other != p.topic_name ==> lookup(retained_after_publish(retained, h, p), other) == lookup(retained, other),
        keys_unique(retained_after_publish(retained, h, p)),
{
    let m = published_message(h, p);
    crate::string_map::lemma_insert_unique(retained, p.topic_name, m);
    crate::string_map::lemma_remove_unique(retained, p.topic_name);
    super::session::lemma_lookup_insert_other(retained, p.topic_name, m, other);
    crate::string_map::lemma_lookup_remove_other(retained, p.topic_name, other);
}

/// The message a PUBLISH carries is its topic and payload with the QoS and
/// flags of its header.
pub proof fn lemma_published_message_fields(h: PacketHeader, p: PublishPacketView)
    ensures
        published_message(h, p).topic == p.topic_name,
        published_message(h, p).payload == p.payload,
        published_message(h, p).qos == h.qos,
        published_message(h, p).retain == h.retain,
        published_message(h, p).dup == h.dup,
        published_message(h, p).packet_id == p.packet_id,
{
}

/// A PUBLISH with a packet ID is acknowledged with a PUBACK for that ID at
/// QoS 1 and with a PUBREC for it at QoS 2; at any other QoS, or without a
/// packet ID, nothing is sent.
pub proof fn lemma_publish_ack_by_qos(qos: u8, packet_id: Option<u16>)
    ensures
        packet_id is Some && qos == 1 ==> publish_ack(qos, packet_id) == PublishAck::PubAck(packet_id.unwrap()),
        packet_id is Some && qos == 2 ==> publish_ack(qos, packet_id) == PublishAck::PubRec(packet_id.unwrap()),
        (packet_id is None || (qos != 1 && qos != 2)) ==> publish_ack(qos, packet_id) == PublishAck::Nothing,
{
}

/// The packet that acknowledges a PUBLISH, if any.
pub fn publish_ack_packet(ack: PublishAck) -> (r: Option<Packet>)
    ensures
        ack == PublishAck::Nothing ==> r is None,
        ack matches PublishAck::PubAck(id) ==> (r matches Some(p) && p@ == PacketView {
            header: plain_header(PacketType::PubAck, 0),
            payload: PayloadView::PubAck(plain_ack(id)),
        }),
        ack matches PublishAck::PubRec(id) ==> (r matches Some(p) && p@ == PacketView {
            header: plain_header(PacketType::PubRec, 0),
            payload: PayloadView::PubRec(plain_ack(id)),
        }),
{
    match ack {
        PublishAck::Nothing => None,
        PublishAck::PubAck(id) => Some(puback_packet(id)),
        PublishAck::PubRec(id) => Some(pubrec_packet(id)),
    }
}

/// Answers the packet that follows a PUBREC for `packet_id`: a PUBREL for
/// the same ID gets a PUBCOMP; another ID or another packet is a protocol
/// error.
pub fn handle_pubrel(packet_id: u16, packet: &Packet) -> (r: Result<Packet>)
    ensures
        (packet@.payload matches PayloadView::PubRel(a) && a.packet_id == packet_id) ==> (r matches Ok(p) && p@ == PacketView {
            header: plain_header(PacketType::PubComp, 0),
            payload: PayloadView::PubComp(plain_ack(packet_id)),
        }),
        (packet@.payload matches PayloadView::PubRel(a) && a.packet_id != packet_id) ==> (r matches Err(Error::Protocol(m))
            && m@ == "Mismatched PUBREL packet ID"@),
        !(packet@.payload is PubRel) ==> (r matches Err(Error::Protocol(m)) && m@ == "Expected PUBREL packet"@),
{
    match &packet.payload {
        PacketPayload::PubRel(pubrel) => {
            if pubrel.packet_id != packet_id {
                return Err(Error::Protocol(owned("Mismatched PUBREL packet ID")));
            }
            Ok(pubcomp_packet(packet_id))
        },
        _ => Err(Error::Protocol(owned("Expected PUBREL packet"))),
    }
}

/// The subscriptions whose topic filter matches `topic`: filter by filter
/// in entry order, each filter's subscriptions in the order they were made.
/// These are the clients a message on `topic` is routed to.
pub open spec fn matching_subscriptions(
    subs: Seq<(Seq<char>, Seq<SubscriptionView>)>,
    topic: Seq<char>,
) -> Seq<SubscriptionView>
    decreases subs.len(),
{
    if subs.len() == 0 {
        Seq::empty()
    } else {
        matching_subscriptions(subs.drop_last(), topic) + (if topic_matches_spec(subs.last().0, topic) {
            subs.last().1
        } else {
            Seq::empty()
        })
    }
}

/// A message on `topic` is routed to a subscription exactly when that
/// subscription is listed under a filter that matches `topic`.
pub proof fn lemma_routed_iff_filter_matches(
    subs: Seq<(Seq<char>, Seq<SubscriptionView>)>,
    topic: Seq<char>,
    x: SubscriptionView,
)
    ensures
        matching_subscriptions(subs, topic).contains(x) <==> exists|i: int|
            0 <= i < subs.len() && topic_matches_spec(#[trigger] subs[i].0, topic) && subs[i].1.contains(x),
    decreases subs.len(),
{
    if subs.len() > 0 {
        let init = subs.drop_last();
        lemma_routed_iff_filter_matches(init, topic, x);
        let pre = matching_subscriptions(init, topic);
        let tail = if topic_matches_spec(subs.last().0, topic) {
            subs.last().1
        } else {
            Seq::<SubscriptionView>::empty()
        };
        let all = pre + tail;
        assert(matching_subscriptions(subs, topic) == all);
        if all.contains(x) {
            let k = choose|k: int| 0 <= k < all.len() && all[k] == x;
            if k < pre.len() {
                assert(pre[k] == x);
                assert(pre.contains(x));
                let i = choose|i: int|
                    0 <= i < init.len() && topic_matches_spec(#[trigger] init[i].0, topic) && init[i].1.contains(x);
                assert(subs[i] == init[i]);
            } else {
                assert(tail[k - pre.len()] == x);
                assert(tail.contains(x));
                let i = subs.len() - 1;
                assert(subs[i] == subs.last());
                assert(topic_matches_spec(subs[i].0, topic) && subs[i].1.contains(x));
            }
        }
        if exists|i: int| 0 <= i < subs.len() && topic_matches_spec(#[trigger] subs[i].0, topic) && subs[i].1.contains(x) {
            let i = choose|i: int|
                0 <= i < subs.len() && topic_matches_spec(#[trigger] subs[i].0, topic) && subs[i].1.contains(x);
            if i < subs.len() - 1 {
                assert(init[i] == subs[i]);
                assert(pre.contains(x));
                let k = choose|k: int| 0 <= k < pre.len() && pre[k] == x;
                assert(all[k] == x);
            } else {
                assert(subs[i] == subs.last());
                let k = choose|k: int| 0 <= k < tail.len() && tail[k] == x;
                assert(all[pre.len() + k] == x);
            }
            assert(all.contains(x));
        }
    }
}

/// The subscriptions a message on `topic` is routed to.
pub fn subscribers_for(sessions: &SessionManager, topic: &str) -> (r: Vec<Subscription>)
    ensures
        subscription_views(r@) == matching_subscriptions(sessions.subscriptions_view(), topic@),
{
    let all = sessions.get_all_subscriptions();
    let ghost subs = subscription_lists(all.view());
    let n = all.len();
    let mut out: Vec<Subscription> = Vec::new();
    let mut i: usize = 0;
    proof {
        assert(subs.take(0) =~= Seq::<(Seq<char>, Seq<SubscriptionView>)>::empty());
        assert(subscription_views(out@) =~= Seq::<SubscriptionView>::empty());
    }
    while i < n
        invariant
            n == all.view().len(),
            subs == subscription_lists(all.view()),
            subs == sessions.subscriptions_view(),
            i <= n,
            subscription_views(out@) == matching_subscriptions(subs.take(i as int), topic@),
        decreases n - i,
    {
        let (k, v) = all.entry_at(i);
        let ghost before = subscription_views(out@);
        proof {
            assert(subs.take(i + 1).drop_last() =~= subs.take(i as int));
            assert(subs.take(i + 1).last() == subs[i as int]);
            assert(subs[i as int] == (k@, subscription_views(v@)));
        }
        if topic_matches(k.as_str(), topic) {
            let mut j: usize = 0;
            while j < v.len()
                invariant
                    j <= v@.len(),
                    subscription_views(out@) == before + subscription_views(v@).take(j as int),
                decreases v@.len() - j,
            {
                let c = v[j].clone();
                let ghost mid = out@;
                out.push(c);
                proof {
                    assert(subscription_views(out@) =~= subscription_views(mid).push(c@));
                    assert(subscription_views(v@).take(j + 1) =~= subscription_views(v@).take(j as int).push(
                        v@[j as int]@,
                    ));
                }
                j = j + 1;
            }
            proof {
                assert(subscription_views(v@).take(v@.len() as int) =~= subscription_views(v@));
            }
        } else {
            proof {
                assert(before + Seq::<SubscriptionView>::empty() =~= before);
            }
        }
        i = i + 1;
    }
    proof {
        assert(subs.take(n as int) =~= subs);
    }
    out
}

// ---------------------------------------------------------------------------
// SUBSCRIBE and UNSUBSCRIBE
// ---------------------------------------------------------------------------

/// The QoS a subscription gets for a requested level: the level itself, or
/// QoS 0 for a level above 2.
pub open spec fn granted_qos(level: u8) -> QoS {
    if level == 1 {
        QoS::AtLeastOnce
    } else if level == 2 {
        QoS::ExactlyOnce
    } else {
        QoS::AtMostOnce
    }
}

/// The subscriptions after a client (no ID counts as the empty ID)
/// subscribes to the first `n` filters in turn.
pub open spec fn subs_after_subscribe(
    subs: Seq<(Seq<char>, Seq<SubscriptionView>)>,
    client_id: Seq<char>,
    filters: Seq<TopicFilter>,
) -> Seq<(Seq<char>, Seq<SubscriptionView>)>
    decreases filters.len(),
{
    if filters.len() == 0 {
        subs
    } else {
        subs_after_add(
            subs_after_subscribe(subs, client_id, filters.drop_last()),
            client_id,
            filters.last().topic@,
            granted_qos(filters.last().qos),
        )
    }
}

/// The sessions after a client subscribes to the filters in turn.
pub open spec fn sessions_after_subscribe(
    sessions: Seq<(Seq<char>, SessionView)>,
    client_id: Seq<char>,
    filters: Seq<TopicFilter>,
) -> Seq<(Seq<char>, SessionView)>
    decreases filters.len(),
{
    if filters.len() == 0 {
        sessions
    } else {
        sessions_after_add(
            sessions_after_subscribe(sessions, client_id, filters.drop_last()),
            client_id,
            filters.last().topic@,
            granted_qos(filters.last().qos),
        )
    }
}

/// The client ID a connection acts for: the empty ID before CONNECT.
pub open spec fn acting_id(client_id: Option<String>) -> Seq<char> {
    match client_id {
        Some(c) => c@,
        None => Seq::empty(),
    }
}

/// A connection acts for its client's ID once it has one, and for the empty
/// ID before.
pub proof fn lemma_acting_id(client_id: Option<String>)
    ensures
        client_id matches Some(c) ==> acting_id(client_id) == c@,
        client_id is None ==> acting_id(client_id) == Seq::<char>::empty(),
{
}

/// Handles a SUBSCRIBE: every filter in turn is subscribed to (a requested
/// QoS above 2 counts as 0) and the SUBACK returns the requested levels as
/// they came.
pub fn handle_subscribe(sessions: &mut SessionManager, client_id: &Option<String>, subscribe: &SubscribePacket) -> (r: Packet)
    ensures
        final(sessions).subscriptions_view() == subs_after_subscribe(
            old(sessions).subscriptions_view(),
            acting_id(*client_id),
            subscribe.topic_filters@,
        ),
        final(sessions).sessions_view() == sessions_after_subscribe(
            old(sessions).sessions_view(),
            acting_id(*client_id),
            subscribe.topic_filters@,
        ),
        r@ == (PacketView {
            header: plain_header(PacketType::SubAck, 0),
            payload: PayloadView::SubAck(SubAckPacketView {
                packet_id: subscribe.packet_id,
                return_codes: subscribe.topic_filters@.map_values(|f: TopicFilter| f.qos),
                has_properties: false,
            }),
        }),
{
    let ghost subs0 = sessions.subscriptions_view();
    let ghost sess0 = sessions.sessions_view();
    let ghost id = acting_id(*client_id);
    let fs = &subscribe.topic_filters;
    let mut return_codes: Vec<u8> = Vec::new();
    let mut i: usize = 0;
    proof {
        assert(fs@.take(0) =~= Seq::<TopicFilter>::empty());
    }
    while i < fs.len()
        invariant
            i <= fs@.len(),
            fs == &subscribe.topic_filters,
            id == acting_id(*client_id),
            sessions.subscriptions_view() == subs_after_subscribe(subs0, id, fs@.take(i as int)),
            sessions.sessions_view() == sessions_after_subscribe(sess0, id, fs@.take(i as int)),
            return_codes@ == fs@.take(i as int).map_values(|f: TopicFilter| f.qos),
        decreases fs@.len() - i,
    {
        let f = &fs[i];
        let qos = match QoS::from_u8(f.qos) {
            Some(q) => q,
            None => QoS::AtMostOnce,
        };
        let cid = match client_id {
            Some(c) => c.clone(),
            None => String::new(),
        };
        proof {
            assert(qos == granted_qos(f.qos));
            assert(cid@ == id);
            assert(fs@.take(i + 1).drop_last() =~= fs@.take(i as int));
            assert(fs@.take(i + 1).last() == *f);
        }
        sessions.add_subscription(cid, f.topic.clone(), qos);
        return_codes.push(f.qos);
        proof {
            assert(return_codes@ =~= fs@.take(i + 1).map_values(|f: TopicFilter| f.qos));
        }
        i = i + 1;
    }
    proof {
        assert(fs@.take(fs@.len() as int) =~= fs@);
    }
    Packet {
        header: header(PacketType::SubAck, 0),
        payload: PacketPayload::SubAck(SubAckPacket { packet_id: subscribe.packet_id, return_codes, properties: None }),
    }
}

/// A requested level of 0, 1 or 2 is granted as that level; any higher
/// level is granted as QoS 0.
pub proof fn lemma_granted_qos_level(level: u8)
    ensures
        level <= 2 ==> granted_qos(level).spec_level() == level,
        level > 2 ==> granted_qos(level) == QoS::AtMostOnce,
{
}

/// Subscribing keeps the keys of the subscriptions unique.
pub proof fn lemma_subscribe_keeps_unique(
    subs: Seq<(Seq<char>, Seq<SubscriptionView>)>,
    client_id: Seq<char>,
    filters: Seq<TopicFilter>,
)
    requires
        keys_unique(subs),
    ensures
        keys_unique(subs_after_subscribe(subs, client_id, filters)),
    decreases filters.len(),
{
    if filters.len() > 0 {
        let before = subs_after_subscribe(subs, client_id, filters.drop_last());
        lemma_subscribe_keeps_unique(subs, client_id, filters.drop_last());
        let f = filters.last();
        crate::string_map::lemma_insert_unique(
            before,
            f.topic@,
            subscribers(before, f.topic@).push(
                SubscriptionView { client_id, topic_filter: f.topic@, qos: granted_qos(f.qos) },
            ),
        );
    }
}

/// After a SUBSCRIBE, the list of the last filter's subscribers is the one
/// it had before that filter was taken, with one subscription added at its
/// end: the client's, to that filter, at the requested level when that is
/// 0, 1 or 2, and at QoS 0 for a higher level. The lists of other filters
/// are left as they were by that step.
pub proof fn lemma_subscribe_records_requested_qos(
    subs: Seq<(Seq<char>, Seq<SubscriptionView>)>,
    client_id: Seq<char>,
    filters: Seq<TopicFilter>,
    other: Seq<char>,
)
    requires
        keys_unique(subs),
        filters.len() > 0,
    ensures
        ({
            let f = filters.last();
            let before = subs_after_subscribe(subs, client_id, filters.drop_last());
            let after = subs_after_subscribe(subs, client_id, filters);
            let l = subscribers(after, f.topic@);
            &&& l.len() == subscribers(before, f.topic@).len() + 1
            &&& l.drop_last() == subscribers(before, f.topic@)
            &&& l.last().client_id == client_id
            &&& l.last().topic_filter == f.topic@
            &&& (f.qos <= 2 ==> l.last().qos.spec_level() == f.qos)
            &&& (f.qos > 2 ==> l.last().qos == QoS::AtMostOnce)
            &&& (other != f.topic@ ==> subscribers(after, other) == subscribers(
                before,
                other,
            ))
        }),
{
    let f = filters.last();
    let before = subs_after_subscribe(subs, client_id, filters.drop_last());
    lemma_subscribe_keeps_unique(subs, client_id, filters.drop_last());
    super::session::lemma_subscribe_appends(before, client_id, f.topic@, granted_qos(f.qos), other);
    let l = subscribers(subs_after_subscribe(subs, client_id, filters), f.topic@);
    assert(l.drop_last() =~= subscribers(before, f.topic@));
}

/// A client with a session that subscribes to one filter has that filter
/// recorded in its session at the requested level when that is 0, 1 or 2,
/// and at QoS 0 for a higher level; the rest of its session is unchanged.
pub proof fn lemma_subscribe_records_in_session(
    sessions: Seq<(Seq<char>, SessionView)>,
    client_id: Seq<char>,
    f: TopicFilter,
)
    requires
        keys_unique(sessions),
        lookup(sessions, client_id) matches Some(x) ==> keys_unique(x.subscriptions),
    ensures
        lookup(sessions, client_id) matches Some(x) ==> (lookup(
            sessions_after_subscribe(sessions, client_id, seq![f]),
            client_id,
        ) matches Some(y) && y.client_id == x.client_id && y.username == x.username && y.clean_session
            == x.clean_session && y.pending_messages == x.pending_messages && (lookup(y.subscriptions, f.topic@) matches Some(q)
            && (f.qos <= 2 ==> q.spec_level() == f.qos) && (f.qos > 2 ==> q == QoS::AtMostOnce))),
        lookup(sessions, client_id) is None ==> sessions_after_subscribe(sessions, client_id, seq![f]) == sessions,
{
    assert(seq![f].drop_last() =~= Seq::<TopicFilter>::empty());
    assert(seq![f].last() == f);
    assert(sessions_after_subscribe(sessions, client_id, seq![f].drop_last()) == sessions);
    assert(sessions_after_subscribe(sessions, client_id, seq![f]) == sessions_after_add(
        sessions,
        client_id,
        f.topic@,
        granted_qos(f.qos),
    ));
    if let Some(x) = lookup(sessions, client_id) {
        let q = granted_qos(f.qos);
        let y = SessionView { subscriptions: insert_entry(x.subscriptions, f.topic@, q), ..x };
        crate::string_map::lemma_insert_unique(sessions, client_id, y);
        crate::string_map::lemma_insert_unique(x.subscriptions, f.topic@, q);
    }
}

/// The subscriptions after a client unsubscribes from the topics in turn.
pub open spec fn subs_after_unsubscribe(
    subs: Seq<(Seq<char>, Seq<SubscriptionView>)>,
    client_id: Seq<char>,
    topics: Seq<String>,
) -> Seq<(Seq<char>, Seq<SubscriptionView>)>
    decreases topics.len(),
{
    if topics.len() == 0 {
        subs
    } else {
        subs_after_remove(subs_after_unsubscribe(subs, client_id, topics.drop_last()), client_id, topics.last()@)
    }
}

/// The sessions after a client unsubscribes from the topics in turn.
pub open spec fn sessions_after_unsubscribe(
    sessions: Seq<(Seq<char>, SessionView)>,
    client_id: Seq<char>,
    topics: Seq<String>,
) -> Seq<(Seq<char>, SessionView)>
    decreases topics.len(),
{
    if topics.len() == 0 {
        sessions
    } else {
        sessions_after_remove(sessions_after_unsubscribe(sessions, client_id, topics.drop_last()), client_id, topics.last()@)
    }
}

/// Unsubscribing keeps the keys of the subscriptions unique.
pub proof fn lemma_unsubscribe_keeps_unique(
    subs: Seq<(Seq<char>, Seq<SubscriptionView>)>,
    client_id: Seq<char>,
    topics: Seq<String>,
)
    requires
        keys_unique(subs),
    ensures
        keys_unique(subs_after_unsubscribe(subs, client_id, topics)),
    decreases topics.len(),
{
    if topics.len() > 0 {
        let before = subs_after_unsubscribe(subs, client_id, topics.drop_last());
        lemma_unsubscribe_keeps_unique(subs, client_id, topics.drop_last());
        let t = topics.last()@;
        let kept = subscribers(before, t).filter(|x: SubscriptionView| x.client_id != client_id);
        crate::string_map::lemma_remove_unique(before, t);
        crate::string_map::lemma_insert_unique(before, t, kept);
    }
}

/// After an UNSUBSCRIBE, the last topic's list holds no subscription of the
/// client and keeps the other clients' subscriptions in their order; the
/// lists of other filters are left as they were by that step.
pub proof fn lemma_unsubscribe_drops_client(
    subs: Seq<(Seq<char>, Seq<SubscriptionView>)>,
    client_id: Seq<char>,
    topics: Seq<String>,
    other: Seq<char>,
)
    requires
        keys_unique(subs),
        topics.len() > 0,
    ensures
        ({
            let t = topics.last()@;
            let before = subs_after_unsubscribe(subs, client_id, topics.drop_last());
            let after = subs_after_unsubscribe(subs, client_id, topics);
            &&& subscribers(after, t) == subscribers(before, t).filter(|x: SubscriptionView| x.client_id != client_id)
            &&& forall|i: int| 0 <= i < subscribers(after, t).len() ==> (#[trigger] subscribers(after, t)[i]).client_id
                != client_id
            &&& (other != t ==> subscribers(after, other) == subscribers(before, other))
        }),
{
    let t = topics.last()@;
    let before = subs_after_unsubscribe(subs, client_id, topics.drop_last());
    lemma_unsubscribe_keeps_unique(subs, client_id, topics.drop_last());
    super::session::lemma_unsubscribe_removes(before, client_id, t);
    let kept = subscribers(before, t).filter(|x: SubscriptionView| x.client_id != client_id);
    super::session::lemma_lookup_insert_other(before, t, kept, other);
    crate::string_map::lemma_lookup_remove_other(before, t, other);
}

/// A client with a session that unsubscribes from one topic no longer has
/// that topic among its session's subscriptions, keeps its other
/// subscriptions, and the rest of its session is unchanged; without a
/// session nothing changes.
pub proof fn lemma_unsubscribe_drops_from_session(
    sessions: Seq<(Seq<char>, SessionView)>,
    client_id: Seq<char>,
    topic: String,
    other: Seq<char>,
)
    requires
        keys_unique(sessions),
        lookup(sessions, client_id) matches Some(x) ==> keys_unique(x.subscriptions),
    ensures
        lookup(sessions, client_id) matches Some(x) ==> (lookup(
            sessions_after_unsubscribe(sessions, client_id, seq![topic]),
            client_id,
        ) matches Some(y) && y.client_id == x.client_id && y.username == x.username && y.clean_session
            == x.clean_session && y.pending_messages == x.pending_messages && lookup(y.subscriptions, topic@) is None
            && (other != topic@ ==> lookup(y.subscriptions, other) == lookup(x.subscriptions, other))),
        lookup(sessions, client_id) is None ==> sessions_after_unsubscribe(sessions, client_id, seq![topic])
            == sessions,
{
    assert(seq![topic].drop_last() =~= Seq::<String>::empty());
    assert(seq![topic].last() == topic);
    assert(sessions_after_unsubscribe(sessions, client_id, seq![topic].drop_last()) == sessions);
    assert(sessions_after_unsubscribe(sessions, client_id, seq![topic]) == sessions_after_remove(
        sessions,
        client_id,
        topic@,
    ));
    if let Some(x) = lookup(sessions, client_id) {
        let y = SessionView { subscriptions: remove_entry(x.subscriptions, topic@), ..x };
        crate::string_map::lemma_insert_unique(sessions, client_id, y);
        crate::string_map::lemma_remove_unique(x.subscriptions, topic@);
        crate::string_map::lemma_lookup_remove_other(x.subscriptions, topic@, other);
    }
}

/// Handles an UNSUBSCRIBE: a connected client (one with an ID) leaves every
/// topic in turn; the UNSUBACK carries one success code.
pub fn handle_unsubscribe(sessions: &mut SessionManager, client_id: &Option<String>, unsubscribe: &UnsubscribePacket) -> (r: Packet)
    ensures
        client_id matches Some(c) ==> final(sessions).subscriptions_view() == subs_after_unsubscribe(
            old(sessions).subscriptions_view(),
            c@,
            unsubscribe.topic_filters@,
        ) && final(sessions).sessions_view() == sessions_after_unsubscribe(
            old(sessions).sessions_view(),
            c@,
            unsubscribe.topic_filters@,
        ),
        client_id is None ==> final(sessions).subscriptions_view() == old(sessions).subscriptions_view()
            && final(sessions).sessions_view() == old(sessions).sessions_view(),
        r@ == (PacketView {
            header: plain_header(PacketType::UnsubAck, 0),
            payload: PayloadView::UnsubAck(UnsubAckPacketView {
                packet_id: unsubscribe.packet_id,
                reason_codes: seq![0u8],
                has_properties: false,
            }),
        }),
{
    if let Some(c) = client_id {
        let ghost subs0 = sessions.subscriptions_view();
        let ghost sess0 = sessions.sessions_view();
        let ts = &unsubscribe.topic_filters;
        let mut i: usize = 0;
        proof {
            assert(ts@.take(0) =~= Seq::<String>::empty());
        }
        while i < ts.len()
            invariant
                i <= ts@.len(),
                ts == &unsubscribe.topic_filters,
                sessions.subscriptions_view() == subs_after_unsubscribe(subs0, c@, ts@.take(i as int)),
                sessions.sessions_view() == sessions_after_unsubscribe(sess0, c@, ts@.take(i as int)),
            decreases ts@.len() - i,
        {
            proof {
                assert(ts@.take(i + 1).drop_last() =~= ts@.take(i as int));
                assert(ts@.take(i + 1).last() == ts@[i as int]);
            }
            sessions.remove_subscription(c.as_str(), ts[i].as_str());
            i = i + 1;
        }
        proof {
            assert(ts@.take(ts@.len() as int) =~= ts@);
        }
    }
    let reason_codes = vec![0u8];
    assert(reason_codes@ =~= seq![0u8]);
    Packet {
        header: header(PacketType::UnsubAck, 0),
        payload: PacketPayload::UnsubAck(UnsubAckPacket { packet_id: unsubscribe.packet_id, reason_codes, properties: None }),
    }
}

/// Handles a DISCONNECT: the session of a connected client that asked for a
/// clean session is dropped.
pub fn handle_disconnect(sessions: &mut SessionManager, client_id: &Option<String>)
    ensures
        (client_id matches Some(c) && lookup(old(sessions).sessions_view(), c@) matches Some(x) && x.clean_session)
            ==> final(sessions).sessions_view() == remove_entry(old(sessions).sessions_view(), client_id.unwrap()@),
        !(client_id matches Some(c) && lookup(old(sessions).sessions_view(), c@) matches Some(x) && x.clean_session)
            ==> final(sessions).sessions_view() == old(sessions).sessions_view(),
        final(sessions).subscriptions_view() == old(sessions).subscriptions_view(),
{
    if let Some(c) = client_id {
        if let Some(session) = sessions.get_session(c.as_str()) {
            if session.clean_session {
                sessions.remove_session(c.as_str());
            }
        }
    }
}

// ---------------------------------------------------------------------------
// Retained messages for new subscriptions
// ---------------------------------------------------------------------------

/// The PUBLISH that delivers a retained message: RETAIN set, the message's
/// QoS, and a packet ID when that QoS is above 0.
pub open spec fn retained_publish_view(m: MessageView, packet_id: Option<u16>) -> PacketView {
    PacketView {
        header: PacketHeader { packet_type: PacketType::Publish, dup: false, qos: m.qos, retain: true, remaining_length: 0 },
        payload: PayloadView::Publish(PublishPacketView { topic_name: m.topic, packet_id, payload: m.payload, properties: None }),
    }
}

/// A retained message is delivered as a PUBLISH of its topic with exactly
/// its payload bytes, at its QoS, with RETAIN set, DUP clear and the packet
/// ID it was given.
pub proof fn lemma_retained_publish_carries_message(m: MessageView, packet_id: Option<u16>)
    ensures
        retained_publish_view(m, packet_id).header.packet_type == PacketType::Publish,
        retained_publish_view(m, packet_id).header.qos == m.qos,
        retained_publish_view(m, packet_id).header.retain,
        !retained_publish_view(m, packet_id).header.dup,
        retained_publish_view(m, packet_id).payload matches PayloadView::Publish(x) && x.topic_name == m.topic
            && x.payload == m.payload && x.packet_id == packet_id,
{
}

/// The counter after handing packet IDs to `ms` in turn from `next`: each
/// message with QoS above 0 moves it on.
pub open spec fn counter_after(ms: Seq<MessageView>, next: u16) -> u16
    decreases ms.len(),
{
    if ms.len() == 0 {
        next
    } else if ms.last().qos > 0 {
        next_id_after(counter_after(ms.drop_last(), next))
    } else {
        counter_after(ms.drop_last(), next)
    }
}

/// The packet IDs handed to `ms` in turn from counter `next`: a message with
/// QoS above 0 takes the counter's current ID, one with QoS 0 takes none.
pub open spec fn assigned_ids(ms: Seq<MessageView>, next: u16) -> Seq<Option<u16>>
    decreases ms.len(),
{
    if ms.len() == 0 {
        Seq::empty()
    } else {
        assigned_ids(ms.drop_last(), next).push(
            if ms.last().qos > 0 {
                Some(counter_after(ms.drop_last(), next))
            } else {
                None
            },
        )
    }
}

/// The length of the assigned IDs is that of the messages.
pub proof fn lemma_assigned_ids_len(ms: Seq<MessageView>, next: u16)
    ensures
        assigned_ids(ms, next).len() == ms.len(),
    decreases ms.len(),
{
    if ms.len() > 0 {
        lemma_assigned_ids_len(ms.drop_last(), next);
    }
}

/// Each delivered message with QoS above 0 gets a packet ID and each one at
/// QoS 0 gets none; the first message, when it needs an ID, takes the
/// counter's current one; messages that all have QoS 0 leave the counter
/// where it was.
pub proof fn lemma_assigned_ids_by_qos(ms: Seq<MessageView>, next: u16)
    ensures
        forall|i: int| 0 <= i < ms.len() ==> ((#[trigger] assigned_ids(ms, next)[i]) is Some <==> ms[i].qos > 0),
        ms.len() > 0 && ms[0].qos > 0 ==> assigned_ids(ms, next)[0] == Some(next),
        (forall|i: int| 0 <= i < ms.len() ==> (#[trigger] ms[i]).qos == 0) ==> counter_after(ms, next) == next,
    decreases ms.len(),
{
    if ms.len() > 0 {
        let init = ms.drop_last();
        lemma_assigned_ids_by_qos(init, next);
        lemma_assigned_ids_len(init, next);
        let a = assigned_ids(ms, next);
        assert forall|i: int| 0 <= i < ms.len() implies ((#[trigger] assigned_ids(ms, next)[i]) is Some <==> ms[i].qos
            > 0) by {
            if i < ms.len() - 1 {
                assert(a[i] == assigned_ids(init, next)[i]);
                assert(init[i] == ms[i]);
            }
        }
        if ms.len() == 1 {
            assert(init =~= Seq::<MessageView>::empty());
        } else {
            assert(a[0] == assigned_ids(init, next)[0]);
            assert(init[0] == ms[0]);
        }
        if forall|i: int| 0 <= i < ms.len() ==> (#[trigger] ms[i]).qos == 0 {
            assert forall|i: int| 0 <= i < init.len() implies (#[trigger] init[i]).qos == 0 by {
                assert(init[i] == ms[i]);
            }
            assert(ms[ms.len() - 1].qos == 0);
        }
    }
}

/// The PUBLISH packets that deliver the retained messages matching the
/// requested filters, in order; the messages with QoS above 0 take the next
/// packet IDs of the counter in turn.
pub fn retained_publishes(router: &MessageRouter, topic_filters: &Vec<TopicFilter>, ids: &mut PacketIdCounter) -> (r: Vec<Packet>)
    ensures
        ({
            let ms = retained_for_filters(router.retained_view(), topic_filters@.map_values(|f: TopicFilter| f.topic@));
            &&& r@.len() == ms.len()
            &&& forall|i: int| 0 <= i < r@.len() ==> (#[trigger] r@[i])@ == retained_publish_view(
                ms[i],
                assigned_ids(ms, old(ids).next)[i],
            )
            &&& final(ids).next == counter_after(ms, old(ids).next)
        }),
{
    let mut names: Vec<String> = Vec::new();
    let mut i: usize = 0;
    while i < topic_filters.len()
        invariant
            i <= topic_filters@.len(),
            names@.map_values(|t: String| t@) == topic_filters@.take(i as int).map_values(|f: TopicFilter| f.topic@),
        decreases topic_filters@.len() - i,
    {
        let t = topic_filters[i].topic.clone();
        let ghost before = names@;
        names.push(t);
        proof {
            assert(names@.map_values(|t: String| t@) =~= before.map_values(|t: String| t@).push(t@));
            assert(topic_filters@.take(i + 1) =~= topic_filters@.take(i as int).push(topic_filters@[i as int]));
            assert(topic_filters@.take(i + 1).map_values(|f: TopicFilter| f.topic@) =~= topic_filters@.take(
                i as int,
            ).map_values(|f: TopicFilter| f.topic@).push(topic_filters@[i as int].topic@));
        }
        i = i + 1;
    }
    assert(topic_filters@.take(topic_filters@.len() as int) =~= topic_filters@);
    let messages = router.get_retained_messages_for_filters(names.as_slice());
    let ghost ms = messages@.map_values(|m: Message| m@);
    let ghost start = ids.next;
    let mut out: Vec<Packet> = Vec::new();
    let mut j: usize = 0;
    proof {
        assert(ms.take(0) =~= Seq::<MessageView>::empty());
    }
    while j < messages.len()
        invariant
            j <= messages@.len(),
            ms == messages@.map_values(|m: Message| m@),
            out@.len() == j,
            ids.next == counter_after(ms.take(j as int), start),
            assigned_ids(ms.take(j as int), start).len() == j,
            forall|k: int| 0 <= k < j ==> (#[trigger] out@[k])@ == retained_publish_view(
                ms[k],
                assigned_ids(ms.take(j as int), start)[k],
            ),
        decreases messages@.len() - j,
    {
        let m = &messages[j];
        let ghost before = out@;
        let ghost pre = ms.take(j as int);
        proof {
            assert(ms.take(j + 1).drop_last() =~= pre);
            assert(ms.take(j + 1).last() == m@);
            lemma_assigned_ids_len(ms.take(j + 1), start);
        }
        let packet_id = if m.qos > 0 {
            Some(ids.next_packet_id())
        } else {
            None
        };
        let p = Packet {
            header: PacketHeader { packet_type: PacketType::Publish, dup: false, qos: m.qos, retain: true, remaining_length: 0 },
            payload: PacketPayload::Publish(PublishPacket {
                topic_name: m.topic.clone(),
                packet_id,
                payload: m.payload.clone(),
                properties: None,
            }),
        };
        out.push(p);
        proof {
            let a = assigned_ids(ms.take(j + 1), start);
            assert(a == assigned_ids(pre, start).push(packet_id));
            assert forall|k: int| 0 <= k < j + 1 implies (#[trigger] out@[k])@ == retained_publish_view(
                ms[k],
                a[k],
            ) by {
                if k < j {
                    assert(out@[k] == before[k]);
                }
            }
        }
        j = j + 1;
    }
    proof {
        assert(ms.take(messages@.len() as int) =~= ms);
    }
    out
}

} // verus!
