//! Typing notices.

use vstd::prelude::*;
use crate::schema::users::User;
use crate::schema::users::UserView;
use crate::server::gateway::messages::ChannelTyping;
use crate::server::gateway::messages::ChannelTypingView;
use crate::server::gateway::messages::ClientboundPacket;
use crate::server::gateway::messages::ClientboundPacketView;
use crate::server::gateway::messages::TypingRequest;
use crate::server::gateway::GatewayAction;
use crate::server::gateway::GatewayActionView;
use crate::server::gateway::GatewayHandler;
use crate::server::messages::spec_decode;
use crate::server::messages::Packet;
use crate::server::messages::PacketMessage;
use crate::server::messages::PacketMessageView;
use crate::server::messages::PacketStaticId;
use crate::server::rest::StandardUser;
use crate::server::rest::StandardUserView;
use crate::server::wire::DecodeError;

verus! {

/// Takes the packets that say that their sender is typing, and has every
/// member of the channel told so.
#[derive(Clone, Copy, Debug, PartialEq, Eq)]
pub struct TypingGatewayHandler;

/// The notice that `user` is typing in the channel `channel_id`.
pub open spec fn spec_typing_notice(user: UserView, channel_id: i64) -> GatewayActionView {
    GatewayActionView::SendToChannel {
        channel_id,
        packet: ClientboundPacketView::ChannelTyping(
            ChannelTypingView {
                user: StandardUserView {
                    id: user.user_id,
                    name: user.name,
                    username: user.username,
                },
                channel_id,
            },
        ),
    }
}

impl GatewayHandler for TypingGatewayHandler {
    open spec fn spec_id(&self) -> i32 {
        TypingRequest::spec_static_id()
    }

    open spec fn spec_handle(&self, user: UserView, message: PacketMessageView) -> Result<
        GatewayActionView,
        DecodeError,
    > {
        match spec_decode::<TypingRequest>(message.data) {
            Ok(request) => Ok(spec_typing_notice(user, request.channel_id)),
            Err(e) => Err(e),
        }
    }

    fn get_id(&self) -> (id: i32) {
        <TypingRequest as PacketStaticId>::get_id()
    }

    fn handle(&self, user: &User, message: &PacketMessage) -> (outcome: Result<
        GatewayAction,
        DecodeError,
    >) {
        let request = TypingRequest::decode_data(message.data.as_slice())?;
        Ok(
            GatewayAction::SendToChannel {
                channel_id: request.channel_id,
                packet: ClientboundPacket::ChannelTyping(
                    ChannelTyping {
                        user: StandardUser {
                            id: user.user_id,
                            name: user.name.clone(),
                            username: user.username.clone(),
                        },
                        channel_id: request.channel_id,
                    },
                ),
            },
        )
    }
}

} // verus!
