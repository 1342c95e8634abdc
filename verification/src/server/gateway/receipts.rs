//! Read receipts.

use vstd::prelude::*;
use crate::schema::users::User;
use crate::schema::users::UserView;
use crate::server::gateway::messages::ChannelRead;
use crate::server::gateway::GatewayAction;
use crate::server::gateway::GatewayActionView;
use crate::server::gateway::GatewayHandler;
use crate::server::messages::PacketMessage;
use crate::server::messages::PacketMessageView;
use crate::server::messages::PacketStaticId;
use crate::server::wire::DecodeError;

verus! {

/// Takes the packets that say that a channel was read. Receipts are
/// switched off: the handler accepts every such packet, whatever its
/// payload, and asks for nothing.
#[derive(Clone, Copy, Debug, PartialEq, Eq)]
pub struct ReceiptGatewayHandler;

impl GatewayHandler for ReceiptGatewayHandler {
    open spec fn spec_id(&self) -> i32 {
        ChannelRead::spec_static_id()
    }

    open spec fn spec_handle(&self, user: UserView, message: PacketMessageView) -> Result<
        GatewayActionView,
        DecodeError,
    > {
        Ok(GatewayActionView::Nothing)
    }

    fn get_id(&self) -> (id: i32) {
        <ChannelRead as PacketStaticId>::get_id()
    }

    fn handle(&self, user: &User, message: &PacketMessage) -> (outcome: Result<
        GatewayAction,
        DecodeError,
    >) {
        Ok(GatewayAction::Nothing)
    }
}

} // verus!
