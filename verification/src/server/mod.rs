//! The realtime gateway: wire format, packets, registry, dispatch and
//! fan-out, and the two loops that pump a connection.
//!
//! A connection has an ingress loop, which reads frames from the socket, and
//! an egress loop, which writes the frames of the user's outbound queue to
//! it. The loops themselves wait on the socket and on the queue, which is
//! for the caller to do. What either loop does with what it was given is
//! decided here, one step at a time.

use vstd::prelude::*;
use crate::schema::users::User;
use crate::schema::users::UserView;
use crate::server::gateway::accepted_by;
use crate::server::gateway::dispatched;
use crate::server::gateway::matching;
use crate::server::gateway::outcome_view;
use crate::server::gateway::Dispatch;
use crate::server::gateway::Gateway;
use crate::server::gateway::GatewayHandler;
use crate::server::messages::decode_message;
use crate::server::messages::spec_decode;
use crate::server::messages::PacketMessage;
use crate::server::queue::following;
use crate::server::queue::ConnectionQueue;
use crate::server::registry::apply_change;
use crate::server::registry::entry;
use crate::server::registry::ConnectionRegistry;
use crate::server::registry::RegistryChange;
use vstd::string::StringExecFns;

pub mod gateway;
pub mod messages;
pub mod queue;
pub mod registry;
pub mod rest;
pub mod wire;

verus! {

/// How many frames the outbound queue of a connection holds.
pub const QUEUE_CAPACITY: usize = 100;

/// The sub-protocol that the answer to a handshake names, given the one
/// that the request names: the same, and none where the request names
/// none.
pub open spec fn spec_subprotocol_answer(requested: Option<&str>) -> Option<Seq<char>> {
    match requested {
        Some(value) => Some(value@),
        None => None,
    }
}

/// The sub-protocol that the answer to a handshake names: the value that
/// the request asked for, handed back as it came. A request that asked for
/// none is answered with none.
pub fn subprotocol_answer(requested: Option<&str>) -> (answer: Option<String>)
    ensures
        match answer {
            Some(value) => spec_subprotocol_answer(requested) == Some(value@),
            None => spec_subprotocol_answer(requested) is None,
        },
{
    match requested {
        Some(value) => Some(String::from_str(value)),
        None => None,
    }
}

/// What a handshake gives the connection that it admits.
pub struct Handshake {
    /// The number of the connection, under which its handle is registered.
    pub connection: u64,
    /// The consumer side of the connection's outbound queue, for the
    /// egress loop.
    pub queue: ConnectionQueue,
    /// The sub-protocol to name in the answer, if any.
    pub subprotocol: Option<String>,
}

/// Admits a user whose identity is settled. The connection gets the
/// number that is due and a new outbound queue of [`QUEUE_CAPACITY`]
/// frames. The producer side of the queue is registered for the user under
/// that number, in place of any connection that the user had, and the
/// consumer side of the same queue is returned for the egress loop. The entries of all other
/// users stay as they are. The answer names the sub-protocol that the
/// request asked for.
pub fn subscribe_chat_handshake(
    registry: &mut ConnectionRegistry,
    user: &User,
    requested_subprotocol: Option<&str>,
) -> (admitted: Handshake)
    ensures
        admitted.connection == old(registry).upcoming(),
        admitted.queue.number() == admitted.connection,
        final(registry)@ == apply_change(
            old(registry)@,
            RegistryChange::Admit { user: user.user_id, connection: admitted.connection },
        ),
        final(registry).upcoming() == following(old(registry).upcoming()),
        match admitted.subprotocol {
            Some(value) => spec_subprotocol_answer(requested_subprotocol) == Some(value@),
            None => spec_subprotocol_answer(requested_subprotocol) is None,
        },
{
    let (producer, consumer) = registry.open_queue(QUEUE_CAPACITY);
    let connection = producer.connection();
    registry.insert(user.user_id, producer);
    Handshake {
        connection,
        queue: consumer,
        subprotocol: subprotocol_answer(requested_subprotocol),
    }
}

/// Takes the connection `connection` of a user out of the registry once
/// its ingress loop has ended. Where the user has connected anew in the
/// meantime, or is gone already, the registry stays as it is. Returns
/// whether the connection was in the registry.
pub fn disconnect(
    registry: &mut ConnectionRegistry,
    user: &User,
    connection: u64,
) -> (was_connected: bool)
    ensures
        final(registry)@ == apply_change(
            old(registry)@,
            RegistryChange::End { user: user.user_id, connection },
        ),
        final(registry).upcoming() == old(registry).upcoming(),
        was_connected == (entry(old(registry)@, user.user_id) == Some(connection)),
{
    match registry.get(user.user_id) {
        Some(handle) => {
            if handle.connection() == connection {
                registry.remove(user.user_id);
                true
            } else {
                false
            }
        },
        None => false,
    }
}

/// Where the ingress loop of a connection stands.
#[derive(Clone, Copy, Debug, PartialEq, Eq, Structural)]
pub enum IngressState {
    Running,
    Closed,
}

/// What the socket gave the ingress loop.
#[derive(Clone, Debug, PartialEq, Eq)]
pub enum IngressEvent {
    /// A binary frame.
    Binary(Vec<u8>),
    /// A frame of any other kind.
    Unexpected,
    /// The end of the stream, or an error in place of a frame.
    SocketClosed,
}

/// What the ingress loop does next.
#[derive(Debug, PartialEq, Eq)]
pub enum IngressAction {
    /// The frame held a packet: these are the runs of its handlers. Carry
    /// out what they ask for and read on.
    Handled(Vec<Dispatch>),
    /// The connection is over: see that the user is out of the registry,
    /// tell the egress loop and stop.
    Disconnect,
    /// The loop has stopped already.
    Stopped,
}

/// Whether `next` is the step that the ingress loop takes from `state` on
/// `event`, with the handlers `handlers` and for the user `user`.
///
/// A closed loop stays closed. A running loop closes and asks for the
/// disconnect on every event but a binary frame that holds an envelope. On
/// such a frame it runs on, and the runs are those of the handlers that
/// accept the type of the envelope, in the order of registration, each
/// with what its handler made of the envelope.
pub open spec fn spec_ingress_step<H: GatewayHandler>(
    handlers: Seq<H>,
    user: UserView,
    state: IngressState,
    event: IngressEvent,
    next: (IngressState, IngressAction),
) -> bool {
    match state {
        IngressState::Closed => next.0 is Closed && next.1 is Stopped,
        IngressState::Running => match event {
            IngressEvent::Binary(frame) => match spec_decode::<PacketMessage>(frame@) {
                Ok(envelope) => {
                    &&& next.0 is Running
                    &&& next.1 matches IngressAction::Handled(runs)
                    &&& dispatched(runs@) == matching(accepted_by(handlers), envelope.id)
                    &&& forall|k: int|
                        0 <= k < runs@.len() ==> outcome_view((#[trigger] runs@[k]).outcome)
                            == handlers[runs@[k].handler as int].spec_handle(user, envelope)
                },
                Err(_) => next.0 is Closed && next.1 is Disconnect,
            },
            _ => next.0 is Closed && next.1 is Disconnect,
        },
    }
}

/// One step of the ingress loop.
///
/// A binary frame that holds an envelope is handed to the handlers, and
/// the loop runs on, whatever the handlers made of the payload. Any other
/// frame, a frame that holds no envelope and the end of the stream close
/// the connection. A closed loop stays closed.
pub fn ingress_step<H: GatewayHandler>(
    gateway: &Gateway<H>,
    user: &User,
    state: IngressState,
    event: &IngressEvent,
) -> (next: (IngressState, IngressAction))
    ensures
        spec_ingress_step(gateway.handlers(), user@, state, *event, next),
{
    match state {
        IngressState::Closed => (IngressState::Closed, IngressAction::Stopped),
        IngressState::Running => match event {
            IngressEvent::Binary(frame) => match decode_message::<PacketMessage>(frame.as_slice()) {
                Ok(envelope) => {
                    let runs = gateway.handle_packet(user, &envelope);
                    (IngressState::Running, IngressAction::Handled(runs))
                },
                Err(_) => (IngressState::Closed, IngressAction::Disconnect),
            },
            IngressEvent::Unexpected => (IngressState::Closed, IngressAction::Disconnect),
            IngressEvent::SocketClosed => (IngressState::Closed, IngressAction::Disconnect),
        },
    }
}

/// One step of the pump of the connection `connection` of a user: what
/// [`ingress_step`] makes of `event`, and, where that ends the connection,
/// the connection taken out of the registry as [`disconnect`] does. Every
/// other step leaves the registry as it is, and no step touches the entry
/// of another user.
pub fn subscribe_chat<H: GatewayHandler>(
    gateway: &Gateway<H>,
    registry: &mut ConnectionRegistry,
    user: &User,
    connection: u64,
    state: IngressState,
    event: &IngressEvent,
) -> (next: (IngressState, IngressAction))
    ensures
        spec_ingress_step(gateway.handlers(), user@, state, *event, next),
        next.1 is Disconnect ==> final(registry)@ == apply_change(
            old(registry)@,
            RegistryChange::End { user: user.user_id, connection },
        ),
        !(next.1 is Disconnect) ==> final(registry)@ == old(registry)@,
        final(registry).upcoming() == old(registry).upcoming(),
{
    let next = ingress_step(gateway, user, state, event);
    match &next.1 {
        IngressAction::Disconnect => {
            disconnect(registry, user, connection);
        },
        _ => {},
    }
    next
}

/// Where the egress loop of a connection stands.
#[derive(Clone, Copy, Debug, PartialEq, Eq, Structural)]
pub enum EgressState {
    /// Frames from the queue go to the socket.
    Running,
    /// The ingress loop has ended: what the queue still holds is stale and
    /// is thrown away.
    Draining,
    /// The loop has ended.
    Closed,
}

/// What the egress loop was given.
#[derive(Clone, Debug, PartialEq, Eq)]
pub enum EgressEvent {
    /// The queue gave a frame.
    Frame(Vec<u8>),
    /// The queue is empty and its last producer is gone.
    QueueClosed,
    /// The socket did not take the frame written last.
    WriteFailed,
    /// The ingress loop of the connection has ended.
    IngressClosed,
}

/// What the egress loop does next.
#[derive(Clone, Debug, PartialEq, Eq)]
pub enum EgressAction {
    /// Write the frame to the socket as one binary frame, then take the
    /// next from the queue.
    Write(Vec<u8>),
    /// Take the next frame from the queue.
    Next,
    /// Stop.
    Stop,
}

/// What an [`EgressAction`] holds.
pub enum EgressActionView {
    Write(Seq<u8>),
    Next,
    Stop,
}

impl View for EgressAction {
    type V = EgressActionView;

    open spec fn view(&self) -> EgressActionView {
        match self {
            EgressAction::Write(frame) => EgressActionView::Write(frame@),
            EgressAction::Next => EgressActionView::Next,
            EgressAction::Stop => EgressActionView::Stop,
        }
    }
}

/// What an [`EgressEvent`] holds.
pub enum EgressEventView {
    Frame(Seq<u8>),
    QueueClosed,
    WriteFailed,
    IngressClosed,
}

impl View for EgressEvent {
    type V = EgressEventView;

    open spec fn view(&self) -> EgressEventView {
        match self {
            EgressEvent::Frame(frame) => EgressEventView::Frame(frame@),
            EgressEvent::QueueClosed => EgressEventView::QueueClosed,
            EgressEvent::WriteFailed => EgressEventView::WriteFailed,
            EgressEvent::IngressClosed => EgressEventView::IngressClosed,
        }
    }
}

/// The step that the egress loop takes from `state` on `event`.
///
/// While the loop runs, a frame from the queue is written as it is. Once
/// the ingress loop has ended, frames are thrown away. The closing of the
/// queue and a failed write end the loop, which then stays closed.
pub open spec fn spec_egress_step(state: EgressState, event: EgressEventView) -> (
    EgressState,
    EgressActionView,
) {
    match state {
        EgressState::Closed => (EgressState::Closed, EgressActionView::Stop),
        EgressState::Running => match event {
            EgressEventView::Frame(frame) => (EgressState::Running, EgressActionView::Write(frame)),
            EgressEventView::IngressClosed => (EgressState::Draining, EgressActionView::Next),
            EgressEventView::QueueClosed => (EgressState::Closed, EgressActionView::Stop),
            EgressEventView::WriteFailed => (EgressState::Closed, EgressActionView::Stop),
        },
        EgressState::Draining => match event {
            EgressEventView::Frame(_) => (EgressState::Draining, EgressActionView::Next),
            EgressEventView::IngressClosed => (EgressState::Draining, EgressActionView::Next),
            EgressEventView::QueueClosed => (EgressState::Closed, EgressActionView::Stop),
            EgressEventView::WriteFailed => (EgressState::Closed, EgressActionView::Stop),
        },
    }
}

/// One step of the egress loop.
pub fn egress_step(state: EgressState, event: EgressEvent) -> (next: (EgressState, EgressAction))
    ensures
        (next.0, next.1@) == spec_egress_step(state, event@),
{
    match state {
        EgressState::Closed => (EgressState::Closed, EgressAction::Stop),
        EgressState::Running => match event {
            EgressEvent::Frame(frame) => (EgressState::Running, EgressAction::Write(frame)),
            EgressEvent::IngressClosed => (EgressState::Draining, EgressAction::Next),
            EgressEvent::QueueClosed => (EgressState::Closed, EgressAction::Stop),
            EgressEvent::WriteFailed => (EgressState::Closed, EgressAction::Stop),
        },
        EgressState::Draining => match event {
            EgressEvent::Frame(_) => (EgressState::Draining, EgressAction::Next),
            EgressEvent::IngressClosed => (EgressState::Draining, EgressAction::Next),
            EgressEvent::QueueClosed => (EgressState::Closed, EgressAction::Stop),
            EgressEvent::WriteFailed => (EgressState::Closed, EgressAction::Stop),
        },
    }
}

/// Only frames that the queue gave reach the socket, and each as it was
/// queued: whatever is written is the frame of the event, and the loop
/// was running.
pub proof fn lemma_egress_writes_queue_frames(state: EgressState, event: EgressEventView)
    ensures
        spec_egress_step(state, event).1 matches EgressActionView::Write(frame) ==> state
            is Running && event == EgressEventView::Frame(frame),
        state is Closed ==> spec_egress_step(state, event).0 is Closed,
{
}

} // verus!
