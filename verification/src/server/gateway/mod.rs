//! Packets and their handlers.
//!
//! A handler decides what an inbound packet asks for. It touches neither the
//! socket nor the store: what it returns is carried out by the caller, who
//! holds both.

use vstd::prelude::*;
use crate::schema::users::User;
use crate::schema::users::UserView;
use crate::server::gateway::messages::ClientboundPacket;
use crate::server::gateway::messages::ClientboundPacketView;
use crate::server::gateway::receipts::ReceiptGatewayHandler;
use crate::server::gateway::typing::TypingGatewayHandler;
use crate::server::messages::PacketMessage;
use crate::server::messages::PacketMessageView;
use crate::server::wire::DecodeError;

pub mod context;
pub mod messages;
pub mod receipts;
pub mod typing;

verus! {

/// What a handler asks the caller to do.
#[derive(Clone, Debug, PartialEq, Eq)]
pub enum GatewayAction {
    /// Nothing.
    Nothing,
    /// Look up the members of the channel and hand each of them the packet.
    SendToChannel { channel_id: i64, packet: ClientboundPacket },
}

/// What a [`GatewayAction`] holds.
pub enum GatewayActionView {
    Nothing,
    SendToChannel { channel_id: i64, packet: ClientboundPacketView },
}

impl View for GatewayAction {
    type V = GatewayActionView;

    open spec fn view(&self) -> GatewayActionView {
        match self {
            GatewayAction::Nothing => GatewayActionView::Nothing,
            GatewayAction::SendToChannel { channel_id, packet } => {
                GatewayActionView::SendToChannel { channel_id: *channel_id, packet: packet@ }
            },
        }
    }
}

/// What a handler made of a packet, by view: the action it asks for, or why
/// it gave the packet up.
pub open spec fn outcome_view(outcome: Result<GatewayAction, DecodeError>) -> Result<
    GatewayActionView,
    DecodeError,
> {
    match outcome {
        Ok(action) => Ok(action@),
        Err(e) => Err(e),
    }
}

/// A handler for the packets of one type.
pub trait GatewayHandler: Send + Sync {
    /// The type identifier that the handler accepts.
    spec fn spec_id(&self) -> i32;

    /// What the handler makes of `message`, sent by `user`.
    spec fn spec_handle(&self, user: UserView, message: PacketMessageView) -> Result<
        GatewayActionView,
        DecodeError,
    >;

    /// The type identifier that the handler accepts.
    fn get_id(&self) -> (id: i32)
        ensures
            id == self.spec_id(),
    ;

    /// Whether the handler accepts packets with the type identifier `id`.
    fn accepts(&self, id: i32) -> (accepted: bool)
        ensures
            accepted == (self.spec_id() == id),
    {
        self.get_id() == id
    }

    /// Decides what `message`, sent by `user`, asks for. A payload that
    /// does not decode makes the handler give this one packet up.
    fn handle(&self, user: &User, message: &PacketMessage) -> (outcome: Result<
        GatewayAction,
        DecodeError,
    >)
        ensures
            outcome_view(outcome) == self.spec_handle(user@, message@),
    ;
}

/// The handlers that come with the gateway.
#[derive(Clone, Copy, Debug, PartialEq, Eq)]
pub enum StandardHandler {
    Receipt(ReceiptGatewayHandler),
    Typing(TypingGatewayHandler),
}

impl GatewayHandler for StandardHandler {
    open spec fn spec_id(&self) -> i32 {
        match self {
            StandardHandler::Receipt(handler) => handler.spec_id(),
            StandardHandler::Typing(handler) => handler.spec_id(),
        }
    }

    open spec fn spec_handle(&self, user: UserView, message: PacketMessageView) -> Result<
        GatewayActionView,
        DecodeError,
    > {
        match self {
            StandardHandler::Receipt(handler) => handler.spec_handle(user, message),
            StandardHandler::Typing(handler) => handler.spec_handle(user, message),
        }
    }

    fn get_id(&self) -> (id: i32) {
        match self {
            StandardHandler::Receipt(handler) => handler.get_id(),
            StandardHandler::Typing(handler) => handler.get_id(),
        }
    }

    fn handle(&self, user: &User, message: &PacketMessage) -> (outcome: Result<
        GatewayAction,
        DecodeError,
    >) {
        match self {
            StandardHandler::Receipt(handler) => handler.handle(user, message),
            StandardHandler::Typing(handler) => handler.handle(user, message),
        }
    }
}

/// One run of one handler.
#[derive(Debug, PartialEq, Eq)]
pub struct Dispatch {
    /// The place of the handler in the order of registration.
    pub handler: usize,
    /// What the handler made of the packet.
    pub outcome: Result<GatewayAction, DecodeError>,
}

/// The places, in rising order, of the handlers that accept `id`, where
/// `accepted[i]` is the identifier that the handler at place `i` accepts.
pub open spec fn matching(accepted: Seq<i32>, id: i32) -> Seq<int>
    decreases accepted.len(),
{
    if accepted.len() == 0 {
        Seq::empty()
    } else if accepted.last() == id {
        matching(accepted.drop_last(), id).push(accepted.len() - 1)
    } else {
        matching(accepted.drop_last(), id)
    }
}

/// The handlers of a gateway in the order they were registered.
pub struct Gateway<H: GatewayHandler> {
    handlers: Vec<H>,
}

impl<H: GatewayHandler> Gateway<H> {
    /// The handlers in the order of registration.
    pub closed spec fn handlers(&self) -> Seq<H> {
        self.handlers@
    }

    /// A gateway without handlers.
    pub fn new() -> (gateway: Gateway<H>)
        ensures
            gateway.handlers() == Seq::<H>::empty(),
    {
        Gateway { handlers: Vec::new() }
    }

    /// Registers `handler` behind the handlers that are registered already.
    pub fn register_handler(&mut self, handler: H)
        ensures
            final(self).handlers() == old(self).handlers().push(handler),
    {
        self.handlers.push(handler);
    }

    /// Hands `message`, sent by `user`, to every handler that accepts its
    /// type, in the order of registration, and to no other handler. Each
    /// such handler runs once, whatever the handlers before it made of the
    /// packet.
    pub fn handle_packet(&self, user: &User, message: &PacketMessage) -> (runs: Vec<Dispatch>)
        ensures
            dispatched(runs@) == matching(accepted_by(self.handlers()), message.id),
            forall|k: int|
                0 <= k < runs@.len() ==> outcome_view((#[trigger] runs@[k]).outcome)
                    == self.handlers()[runs@[k].handler as int].spec_handle(user@, message@),
    {
        let mut runs: Vec<Dispatch> = Vec::new();
        let mut i: usize = 0;
        let ghost accepted = accepted_by(self.handlers());
        proof {
            assert(dispatched(runs@) =~= matching(accepted.take(0), message.id));
        }
        while i < self.handlers.len()
            invariant
                i <= self.handlers.len(),
                accepted == accepted_by(self.handlers()),
                self.handlers() == self.handlers@,
                dispatched(runs@) == matching(accepted.take(i as int), message.id),
                forall|k: int|
                    0 <= k < runs@.len() ==> (#[trigger] runs@[k]).handler < i && outcome_view(
                        runs@[k].outcome,
                    ) == self.handlers@[runs@[k].handler as int].spec_handle(user@, message@),
            decreases self.handlers.len() - i,
        {
            let ghost before = dispatched(runs@);
            proof {
                assert(accepted.take(i + 1).drop_last() =~= accepted.take(i as int));
            }
            if self.handlers[i].accepts(message.id) {
                let outcome = self.handlers[i].handle(user, message);
                runs.push(Dispatch { handler: i, outcome });
                proof {
                    assert(dispatched(runs@) =~= before.push(i as int));
                }
            }
            i = i + 1;
        }
        proof {
            assert(accepted.take(i as int) =~= accepted);
        }
        runs
    }
}

/// The identifiers that `handlers` accept, place by place.
pub open spec fn accepted_by<H: GatewayHandler>(handlers: Seq<H>) -> Seq<i32> {
    Seq::new(handlers.len(), |i: int| handlers[i].spec_id())
}

/// The places of the handlers that ran, run by run.
pub open spec fn dispatched(runs: Seq<Dispatch>) -> Seq<int> {
    Seq::new(runs.len(), |k: int| runs[k].handler as int)
}

/// Registering a handler adds its place to the runs of the packets that it
/// accepts, behind the places of the handlers registered before it, and
/// changes nothing about the runs of any other packet.
pub proof fn lemma_matching_push(accepted: Seq<i32>, registered: i32, id: i32)
    ensures
        matching(accepted.push(registered), id) == if registered == id {
            matching(accepted, id).push(accepted.len() as int)
        } else {
            matching(accepted, id)
        },
{
    assert(accepted.push(registered).drop_last() =~= accepted);
}

/// A packet runs exactly the handlers that accept its type, each once and
/// in the order of registration: the places of a dispatch rise strictly,
/// each of them holds a handler that accepts the identifier, and every
/// place that holds such a handler is among them.
pub proof fn lemma_matching_exact(accepted: Seq<i32>, id: i32)
    ensures
        forall|k: int|
            0 <= k < matching(accepted, id).len() ==> 0 <= #[trigger] matching(accepted, id)[k]
                < accepted.len() && accepted[matching(accepted, id)[k]] == id,
        forall|j: int, k: int|
            0 <= j < k < matching(accepted, id).len() ==> matching(accepted, id)[j] < matching(
                accepted,
                id,
            )[k],
        forall|i: int|
            0 <= i < accepted.len() && accepted[i] == id ==> matching(accepted, id).contains(i),
    decreases accepted.len(),
{
    if accepted.len() > 0 {
        let front = accepted.drop_last();
        let last = accepted.len() - 1;
        lemma_matching_exact(front, id);
        let runs = matching(accepted, id);
        assert forall|i: int| 0 <= i < accepted.len() && accepted[i] == id implies runs.contains(
            i,
        ) by {
            if i < last {
                assert(front[i] == accepted[i]);
                assert(matching(front, id).contains(i));
                let k = choose|k: int|
                    0 <= k < matching(front, id).len() && matching(front, id)[k] == i;
                assert(runs[k] == i);
            } else {
                assert(runs[runs.len() - 1] == i);
            }
        }
    }
}

} // verus!
