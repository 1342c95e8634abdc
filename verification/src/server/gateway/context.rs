//! Fan-out: handing one packet to one user, or to every member of a channel.
//!
//! Every frame goes to the queue of the connection that the registry holds
//! for its user. Delivery is best effort and never waits. A user without a connection is
//! skipped. A queue that is full or closed drops the frame, and the users
//! after it are served all the same. Who the members of a channel are is for
//! the caller to look up, and where the lookup fails nothing is sent.

use vstd::prelude::*;
use crate::server::gateway::messages::ClientboundPacket;
use crate::server::messages::encode_message;
use crate::server::messages::encode_packet_message;
use crate::server::messages::spec_encode;
use crate::server::messages::spec_frame;
use crate::server::messages::Packet;
use crate::server::queue::ConnectionHandle;
use crate::server::registry::connected_among;
use crate::server::registry::handle_users;
use crate::server::registry::occurrences;
use crate::server::registry::handles_registered;
use crate::server::registry::ConnectionRegistry;
use crate::server::wire::copy_range;
use tokio::sync::mpsc::error::TrySendError;
use tokio::sync::mpsc::Sender;

verus! {

/// What became of a frame that was offered to a queue.
#[derive(Clone, Copy, Debug, PartialEq, Eq, Structural)]
pub enum SendOutcome {
    /// The frame is in the queue.
    Queued,
    /// The queue was full: the frame is dropped.
    QueueFull,
    /// The consumer is gone: the frame is dropped.
    QueueClosed,
}

/// One frame offered to the queue of one user.
#[derive(Clone, Debug, PartialEq, Eq)]
pub struct Delivery {
    pub user_id: i64,
    /// The connection whose queue the frame was offered to.
    pub connection: u64,
    /// The bytes that were offered to the queue.
    pub frame: Vec<u8>,
    pub outcome: SendOutcome,
}

/// What a fan-out did: the frame that it built, if it built one, and the
/// users that it offered the frame to, in the order it served them, each
/// with the bytes that went to that user's queue.
#[derive(Clone, Debug, PartialEq, Eq)]
pub struct FanOut {
    pub frame: Option<Vec<u8>>,
    pub deliveries: Vec<Delivery>,
}

/// Whether `frame` is what every one of `deliveries` offered to its queue.
pub open spec fn all_offered(deliveries: Seq<Delivery>, frame: Seq<u8>) -> bool {
    forall|i: int| 0 <= i < deliveries.len() ==> (#[trigger] deliveries[i]).frame@ == frame
}

/// Whether every one of `deliveries` went to the connection that `entries`
/// holds for its user: to the user's own queue, and to no other.
pub open spec fn served_own(deliveries: Seq<Delivery>, entries: Map<i64, u64>) -> bool {
    forall|i: int|
        0 <= i < deliveries.len() ==> entries.dom().contains((#[trigger] deliveries[i]).user_id)
            && deliveries[i].connection == entries[deliveries[i].user_id]
}

/// The users that `deliveries` went to, in order.
pub open spec fn delivered_to(deliveries: Seq<Delivery>) -> Seq<i64> {
    Seq::new(deliveries.len(), |i: int| deliveries[i].user_id)
}

/// Fan-out is complete and exact: where no member is listed twice, every
/// member who is connected is served exactly once, and nobody else is
/// served at all.
pub proof fn lemma_fan_out_complete(members: Seq<i64>, connected: Set<i64>, user: i64)
    requires
        members.no_duplicates(),
    ensures
        occurrences(connected_among(members, connected), user) == if members.contains(user)
            && connected.contains(user) {
            1nat
        } else {
            0nat
        },
{
    lemma_recipients_exact(members, connected, user);
    lemma_occurrences_distinct(members, user);
}

/// In a list without repetition a user stands once or not at all.
proof fn lemma_occurrences_distinct(users: Seq<i64>, user: i64)
    requires
        users.no_duplicates(),
    ensures
        occurrences(users, user) == if users.contains(user) {
            1nat
        } else {
            0nat
        },
    decreases users.len(),
{
    if users.len() > 0 {
        let front = users.drop_last();
        assert forall|i: int, j: int| 0 <= i < j < front.len() implies front[i] != front[j] by {
            assert(front[i] == users[i] && front[j] == users[j]);
        }
        lemma_occurrences_distinct(front, user);
        if users.last() == user {
            if front.contains(user) {
                let i = choose|i: int| 0 <= i < front.len() && front[i] == user;
                assert(users[i] == users[users.len() - 1]);
            }
            assert(users[users.len() - 1] == user);
        } else if users.contains(user) {
            let i = choose|i: int| 0 <= i < users.len() && users[i] == user;
            assert(front[i] == user);
        } else if front.contains(user) {
            let i = choose|i: int| 0 <= i < front.len() && front[i] == user;
            assert(users[i] == user);
        }
    }
}

/// A connected user is served once for each time the member list names
/// them, and a user who is not connected is not served.
pub proof fn lemma_recipients_exact(members: Seq<i64>, connected: Set<i64>, user: i64)
    ensures
        occurrences(connected_among(members, connected), user) == if connected.contains(user) {
            occurrences(members, user)
        } else {
            0
        },
    decreases members.len(),
{
    if members.len() > 0 {
        lemma_recipients_exact(members.drop_last(), connected, user);
        if connected.contains(members.last()) {
            let front = connected_among(members.drop_last(), connected);
            assert(front.push(members.last()).drop_last() =~= front);
        }
    }
}

/// Nobody connected, nobody served.
pub proof fn lemma_recipients_offline(members: Seq<i64>, connected: Set<i64>)
    requires
        forall|i: int| 0 <= i < members.len() ==> !connected.contains(#[trigger] members[i]),
    ensures
        connected_among(members, connected) == Seq::<i64>::empty(),
    decreases members.len(),
{
    if members.len() > 0 {
        assert forall|i: int| 0 <= i < members.drop_last().len() implies !connected.contains(
            #[trigger] members.drop_last()[i],
        ) by {
            assert(members.drop_last()[i] == members[i]);
        }
        lemma_recipients_offline(members.drop_last(), connected);
    }
}

/// `tokio::sync::mpsc::Sender::try_send`: offers `frame` to the queue
/// without waiting. Which of the three outcomes comes back depends on the
/// queue and on its consumer.
#[verifier::external_body]
fn try_send_frame(sender: &Sender<Vec<u8>>, frame: Vec<u8>) -> (outcome: SendOutcome) {
    match sender.try_send(frame) {
        Ok(()) => SendOutcome::Queued,
        Err(TrySendError::Full(_)) => SendOutcome::QueueFull,
        Err(TrySendError::Closed(_)) => SendOutcome::QueueClosed,
    }
}

/// Offers a copy of `frame` to the queue of `handle`, and records for
/// `user_id` what was offered, to which connection, and what became of it.
fn offer(user_id: i64, handle: &ConnectionHandle, frame: &Vec<u8>) -> (delivery: Delivery)
    ensures
        delivery.user_id == user_id,
        delivery.connection == handle.number(),
        delivery.frame@ == frame@,
{
    let outcome = try_send_frame(handle.sender(), copy_frame(frame));
    Delivery { user_id, connection: handle.connection(), frame: copy_frame(frame), outcome }
}

/// Copies a frame.
fn copy_frame(frame: &Vec<u8>) -> (copy: Vec<u8>)
    ensures
        copy@ == frame@,
{
    copy_range(frame.as_slice(), 0, frame.len())
}

/// Hands one packet to `user`.
///
/// Where the user is connected, the packet is built with `packet_fn`, framed
/// and offered to the user's queue: the frame and what became of it are
/// returned. Where the user is not connected nothing is built and nothing
/// is offered, which is no error.
pub fn send_packet_to_user<P: Packet, F: Fn() -> P>(
    registry: &ConnectionRegistry,
    user: i64,
    packet_fn: F,
) -> (sent: FanOut)
    requires
        packet_fn.requires(()),
    ensures
        delivered_to(sent.deliveries@) == connected_among(seq![user], registry@.dom()),
        served_own(sent.deliveries@, registry@),
        !registry@.dom().contains(user) ==> sent.frame is None && sent.deliveries@.len() == 0,
        registry@.dom().contains(user) ==> sent.deliveries@.len() == 1 && sent.frame is Some
            && exists|packet: P|
            packet_fn.ensures((), packet) && sent.frame->0@ == spec_frame(
                P::spec_static_id(),
                spec_encode::<P>(packet@),
            ),
        sent.frame matches Some(frame) ==> all_offered(sent.deliveries@, frame@),
{
    proof {
        reveal_with_fuel(connected_among, 2);
        assert(seq![user].drop_last() =~= Seq::<i64>::empty());
    }
    let mut deliveries: Vec<Delivery> = Vec::new();
    match registry.get(user) {
        None => {
            proof {
                assert(delivered_to(deliveries@) =~= Seq::<i64>::empty());
            }
            FanOut { frame: None, deliveries }
        },
        Some(handle) => {
            let packet = packet_fn();
            let frame = encode_packet_message(&packet);
            deliveries.push(offer(user, &handle, &frame));
            proof {
                assert(delivered_to(deliveries@) =~= seq![user]);
            }
            FanOut { frame: Some(frame), deliveries }
        },
    }
}

/// The members that a lookup found: those it lists, and none where the
/// lookup failed.
pub open spec fn listed(members: Option<&Vec<i64>>) -> Seq<i64> {
    match members {
        Some(list) => list@,
        None => Seq::empty(),
    }
}

/// Hands one packet to every member of a channel.
///
/// `members` are the users of the channel, as the store lists them, or
/// nothing where the store could not tell: then nothing is built and
/// nobody is served. Where at least one member is connected, the packet is
/// built once with `packet_fn` and framed once, and the same frame is
/// offered to the queue of each connected member in turn. The outcome at
/// one queue does not change what is offered to the next.
pub fn send_packet_to_channel<P: Packet, F: Fn() -> P>(
    registry: &ConnectionRegistry,
    members: Option<&Vec<i64>>,
    packet_fn: F,
) -> (sent: FanOut)
    requires
        packet_fn.requires(()),
    ensures
        delivered_to(sent.deliveries@) == connected_among(listed(members), registry@.dom()),
        served_own(sent.deliveries@, registry@),
        sent.deliveries@.len() == 0 ==> sent.frame is None,
        sent.deliveries@.len() > 0 ==> sent.frame is Some && exists|packet: P|
            packet_fn.ensures((), packet) && sent.frame->0@ == spec_frame(
                P::spec_static_id(),
                spec_encode::<P>(packet@),
            ),
        sent.frame matches Some(frame) ==> all_offered(sent.deliveries@, frame@),
{
    let targets = find_targets(registry, members);
    if targets.len() == 0 {
        let deliveries: Vec<Delivery> = Vec::new();
        proof {
            assert(delivered_to(deliveries@) =~= handle_users(targets@));
        }
        return FanOut { frame: None, deliveries };
    }
    let packet = packet_fn();
    let frame = encode_packet_message(&packet);
    let deliveries = offer_frame(&targets, &frame);
    proof {
        lemma_served_own(deliveries@, targets@, registry@);
    }
    FanOut { frame: Some(frame), deliveries }
}

/// The handles of the members that are connected, in the order of the
/// list, and none where there is no list.
fn find_targets(registry: &ConnectionRegistry, members: Option<&Vec<i64>>) -> (targets: Vec<
    (i64, ConnectionHandle),
>)
    ensures
        handle_users(targets@) == connected_among(listed(members), registry@.dom()),
        handles_registered(targets@, registry@),
{
    match members {
        Some(list) => registry.get_many(list),
        None => {
            let targets: Vec<(i64, ConnectionHandle)> = Vec::new();
            proof {
                assert(handle_users(targets@) =~= Seq::<i64>::empty());
            }
            targets
        },
    }
}

/// Whether `deliveries` went, one by one, to the users and connections of
/// `targets`.
pub open spec fn served_targets(
    deliveries: Seq<Delivery>,
    targets: Seq<(i64, ConnectionHandle)>,
) -> bool {
    &&& deliveries.len() == targets.len()
    &&& forall|j: int|
        0 <= j < deliveries.len() ==> (#[trigger] deliveries[j]).user_id == targets[j].0
            && deliveries[j].connection == targets[j].1.number()
}

/// Deliveries to registered handles went to each user's own connection.
proof fn lemma_served_own(
    deliveries: Seq<Delivery>,
    targets: Seq<(i64, ConnectionHandle)>,
    entries: Map<i64, u64>,
)
    requires
        served_targets(deliveries, targets),
        handles_registered(targets, entries),
    ensures
        served_own(deliveries, entries),
        delivered_to(deliveries) == handle_users(targets),
{
    assert forall|i: int| 0 <= i < deliveries.len() implies entries.dom().contains(
        (#[trigger] deliveries[i]).user_id,
    ) && deliveries[i].connection == entries[deliveries[i].user_id] by {
        assert(entries.dom().contains(targets[i].0));
    }
    assert(delivered_to(deliveries) =~= handle_users(targets));
}

/// Offers a copy of `frame` to each of `targets` in turn.
fn offer_frame(targets: &Vec<(i64, ConnectionHandle)>, frame: &Vec<u8>) -> (deliveries: Vec<
    Delivery,
>)
    ensures
        served_targets(deliveries@, targets@),
        all_offered(deliveries@, frame@),
{
    let mut deliveries: Vec<Delivery> = Vec::new();
    let mut i: usize = 0;
    while i < targets.len()
        invariant
            i <= targets.len(),
            served_targets(deliveries@, targets@.take(i as int)),
            all_offered(deliveries@, frame@),
        decreases targets.len() - i,
    {
        deliveries.push(offer(targets[i].0, &targets[i].1, frame));
        i = i + 1;
    }
    proof {
        assert(targets@.take(i as int) =~= targets@);
    }
    deliveries
}

/// Hands the packet `packet` to every member of a channel.
///
/// `members` are the users of the channel, as the store lists them, or
/// nothing where the store could not tell: then nobody is served. Where at
/// least one member is connected, the packet is framed once and the same
/// frame is offered to the queue of each connected member in turn.
pub fn send_clientbound_to_channel(
    registry: &ConnectionRegistry,
    members: Option<&Vec<i64>>,
    packet: &ClientboundPacket,
) -> (sent: FanOut)
    ensures
        delivered_to(sent.deliveries@) == connected_among(listed(members), registry@.dom()),
        served_own(sent.deliveries@, registry@),
        sent.deliveries@.len() == 0 ==> sent.frame is None,
        sent.deliveries@.len() > 0 ==> sent.frame is Some && sent.frame->0@ == spec_frame(
            packet@.id(),
            packet@.data(),
        ),
        sent.frame matches Some(frame) ==> all_offered(sent.deliveries@, frame@),
{
    let targets = find_targets(registry, members);
    if targets.len() == 0 {
        let deliveries: Vec<Delivery> = Vec::new();
        proof {
            assert(delivered_to(deliveries@) =~= handle_users(targets@));
        }
        return FanOut { frame: None, deliveries };
    }
    let frame = encode_message(&packet.to_envelope());
    let deliveries = offer_frame(&targets, &frame);
    proof {
        lemma_served_own(deliveries@, targets@, registry@);
    }
    FanOut { frame: Some(frame), deliveries }
}

/// Hands one packet to `user`, under the older name of
/// [`send_packet_to_user`].
pub fn send_packet_to_context<P: Packet, F: Fn() -> P>(
    registry: &ConnectionRegistry,
    context: i64,
    packet_fn: F,
) -> (sent: FanOut)
    requires
        packet_fn.requires(()),
    ensures
        delivered_to(sent.deliveries@) == connected_among(seq![context], registry@.dom()),
        served_own(sent.deliveries@, registry@),
        !registry@.dom().contains(context) ==> sent.frame is None && sent.deliveries@.len() == 0,
        registry@.dom().contains(context) ==> sent.deliveries@.len() == 1 && sent.frame is Some
            && exists|packet: P|
            packet_fn.ensures((), packet) && sent.frame->0@ == spec_frame(
                P::spec_static_id(),
                spec_encode::<P>(packet@),
            ),
        sent.frame matches Some(frame) ==> all_offered(sent.deliveries@, frame@),
{
    send_packet_to_user(registry, context, packet_fn)
}

} // verus!
