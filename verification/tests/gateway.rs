use iris_server::schema::users::User;
use iris_server::server::disconnect;
use iris_server::server::egress_step;
use iris_server::server::gateway::messages::ChannelRead;
use iris_server::server::gateway::messages::ChannelTyping;
use iris_server::server::gateway::messages::ClientboundPacket;
use iris_server::server::gateway::messages::ServerboundPacket;
use iris_server::server::gateway::messages::TypingRequest;
use iris_server::server::gateway::receipts::ReceiptGatewayHandler;
use iris_server::server::gateway::typing::TypingGatewayHandler;
use iris_server::server::gateway::Dispatch;
use iris_server::server::gateway::Gateway;
use iris_server::server::gateway::GatewayAction;
use iris_server::server::gateway::GatewayHandler;
use iris_server::server::gateway::StandardHandler;
use iris_server::server::ingress_step;
use iris_server::server::messages::encode_message;
use iris_server::server::messages::PacketMessage;
use iris_server::server::registry::ConnectionRegistry;
use iris_server::server::rest::StandardUser;
use iris_server::server::subscribe_chat_handshake;
use iris_server::server::wire::DecodeError;
use iris_server::server::EgressAction;
use iris_server::server::EgressEvent;
use iris_server::server::EgressState;
use iris_server::server::IngressAction;
use iris_server::server::IngressEvent;
use iris_server::server::IngressState;
use iris_server::server::subprotocol_answer;
use iris_server::server::subscribe_chat;

fn alice() -> User {
    User {
        user_id: 1,
        name: "Alice".to_string(),
        username: "alice".to_string(),
        password: "secret".to_string(),
        email: "alice@example.org".to_string(),
    }
}

fn typing_notice(channel_id: i64) -> GatewayAction {
    GatewayAction::SendToChannel {
        channel_id,
        packet: ClientboundPacket::ChannelTyping(ChannelTyping {
            user: StandardUser { id: 1, name: "Alice".to_string(), username: "alice".to_string() },
            channel_id,
        }),
    }
}

fn standard_gateway() -> Gateway<StandardHandler> {
    let mut gateway = Gateway::new();
    gateway.register_handler(StandardHandler::Receipt(ReceiptGatewayHandler));
    gateway.register_handler(StandardHandler::Typing(TypingGatewayHandler));
    gateway
}

fn typing_request(channel_id: i64) -> PacketMessage {
    ServerboundPacket::TypingRequest(TypingRequest { channel_id }).to_envelope()
}

#[test]
fn handlers_accept_their_own_identifier_only() {
    assert_eq!(ReceiptGatewayHandler.get_id(), 1);
    assert_eq!(TypingGatewayHandler.get_id(), 2);
    assert!(ReceiptGatewayHandler.accepts(1));
    assert!(!ReceiptGatewayHandler.accepts(2));
    assert!(TypingGatewayHandler.accepts(2));
    assert!(!TypingGatewayHandler.accepts(1));
    assert!(!TypingGatewayHandler.accepts(0));
    assert_eq!(StandardHandler::Receipt(ReceiptGatewayHandler).get_id(), 1);
    assert_eq!(StandardHandler::Typing(TypingGatewayHandler).get_id(), 2);
    assert!(StandardHandler::Typing(TypingGatewayHandler).accepts(2));
}

#[test]
fn typing_handler_asks_for_a_notice_to_the_channel() {
    let outcome = TypingGatewayHandler.handle(&alice(), &typing_request(40));
    assert_eq!(outcome, Ok(typing_notice(40)));
}

#[test]
fn typing_handler_gives_up_a_payload_that_does_not_decode() {
    let message = PacketMessage { id: 2, data: b"forty".to_vec() };
    assert_eq!(
        TypingGatewayHandler.handle(&alice(), &message),
        Err(DecodeError::InvalidWireType)
    );
    let message = PacketMessage { id: 2, data: vec![0x08] };
    assert_eq!(TypingGatewayHandler.handle(&alice(), &message), Err(DecodeError::InvalidVarint));
}

#[test]
fn receipt_handler_asks_for_nothing() {
    let message = ServerboundPacket::ChannelRead(ChannelRead { channel_id: 40 }).to_envelope();
    assert_eq!(ReceiptGatewayHandler.handle(&alice(), &message), Ok(GatewayAction::Nothing));
    let message = PacketMessage { id: 1, data: b"forty".to_vec() };
    assert_eq!(ReceiptGatewayHandler.handle(&alice(), &message), Ok(GatewayAction::Nothing));
}

#[test]
fn gateway_without_handlers_runs_nothing() {
    let gateway: Gateway<StandardHandler> = Gateway::new();
    assert_eq!(gateway.handle_packet(&alice(), &typing_request(1)), vec![]);
}

#[test]
fn packet_runs_the_handler_of_its_type() {
    let gateway = standard_gateway();
    assert_eq!(
        gateway.handle_packet(&alice(), &typing_request(40)),
        vec![Dispatch { handler: 1, outcome: Ok(typing_notice(40)) }]
    );
    let read = ServerboundPacket::ChannelRead(ChannelRead { channel_id: 40 }).to_envelope();
    assert_eq!(
        gateway.handle_packet(&alice(), &read),
        vec![Dispatch { handler: 0, outcome: Ok(GatewayAction::Nothing) }]
    );
}

#[test]
fn two_handlers_of_one_type_both_run_once_in_order() {
    let mut gateway = Gateway::new();
    gateway.register_handler(StandardHandler::Typing(TypingGatewayHandler));
    gateway.register_handler(StandardHandler::Receipt(ReceiptGatewayHandler));
    gateway.register_handler(StandardHandler::Typing(TypingGatewayHandler));
    let runs = gateway.handle_packet(&alice(), &typing_request(40));
    assert_eq!(
        runs,
        vec![
            Dispatch { handler: 0, outcome: Ok(typing_notice(40)) },
            Dispatch { handler: 2, outcome: Ok(typing_notice(40)) },
        ]
    );
}

#[test]
fn packet_of_an_unknown_type_runs_nothing() {
    let gateway = standard_gateway();
    for id in [0, 3, -1, 4242] {
        let message = PacketMessage { id, data: vec![0x08, 0x01] };
        assert_eq!(gateway.handle_packet(&alice(), &message), vec![]);
    }
}

#[test]
fn failure_of_one_handler_does_not_stop_the_next() {
    let mut gateway = Gateway::new();
    gateway.register_handler(StandardHandler::Typing(TypingGatewayHandler));
    gateway.register_handler(StandardHandler::Typing(TypingGatewayHandler));
    let message = PacketMessage { id: 2, data: vec![0x0a, 0x00] };
    assert_eq!(
        gateway.handle_packet(&alice(), &message),
        vec![
            Dispatch { handler: 0, outcome: Err(DecodeError::UnexpectedWireType) },
            Dispatch { handler: 1, outcome: Err(DecodeError::UnexpectedWireType) },
        ]
    );
}

#[test]
fn ingress_hands_a_packet_to_its_handlers_and_runs_on() {
    let gateway = standard_gateway();
    let frame = encode_message(&typing_request(40));
    let (state, action) =
        ingress_step(&gateway, &alice(), IngressState::Running, &IngressEvent::Binary(frame));
    assert_eq!(state, IngressState::Running);
    assert_eq!(
        action,
        IngressAction::Handled(vec![Dispatch { handler: 1, outcome: Ok(typing_notice(40)) }])
    );
}

#[test]
fn ingress_keeps_the_connection_when_a_payload_does_not_decode() {
    let gateway = standard_gateway();
    let frame = encode_message(&PacketMessage { id: 2, data: b"forty".to_vec() });
    let (state, action) =
        ingress_step(&gateway, &alice(), IngressState::Running, &IngressEvent::Binary(frame));
    assert_eq!(state, IngressState::Running);
    assert_eq!(
        action,
        IngressAction::Handled(vec![Dispatch {
            handler: 1,
            outcome: Err(DecodeError::InvalidWireType)
        }])
    );
}

#[test]
fn ingress_runs_on_after_a_packet_of_an_unknown_type() {
    let gateway = standard_gateway();
    let frame = encode_message(&PacketMessage { id: 77, data: vec![1, 2, 3] });
    let (state, action) =
        ingress_step(&gateway, &alice(), IngressState::Running, &IngressEvent::Binary(frame));
    assert_eq!(state, IngressState::Running);
    assert_eq!(action, IngressAction::Handled(vec![]));
}

#[test]
fn ingress_closes_on_a_frame_that_holds_no_envelope() {
    let gateway = standard_gateway();
    for frame in [b"{\"id\":1,\"data\":\"abc\"}".to_vec(), vec![0x08], vec![0x12, 0x09, 1]] {
        let (state, action) =
            ingress_step(&gateway, &alice(), IngressState::Running, &IngressEvent::Binary(frame));
        assert_eq!(state, IngressState::Closed);
        assert_eq!(action, IngressAction::Disconnect);
    }
}

#[test]
fn ingress_closes_on_other_frames_and_on_the_end_of_the_stream() {
    let gateway = standard_gateway();
    for event in [IngressEvent::Unexpected, IngressEvent::SocketClosed] {
        let (state, action) = ingress_step(&gateway, &alice(), IngressState::Running, &event);
        assert_eq!(state, IngressState::Closed);
        assert_eq!(action, IngressAction::Disconnect);
    }
}

#[test]
fn closed_ingress_stays_closed() {
    let gateway = standard_gateway();
    let frame = encode_message(&typing_request(40));
    for event in
        [IngressEvent::Binary(frame), IngressEvent::Unexpected, IngressEvent::SocketClosed]
    {
        let (state, action) = ingress_step(&gateway, &alice(), IngressState::Closed, &event);
        assert_eq!(state, IngressState::Closed);
        assert_eq!(action, IngressAction::Stopped);
    }
}

#[test]
fn malformed_envelope_closes_its_sender_only() {
    let gateway = standard_gateway();
    let mut registry = ConnectionRegistry::new();
    let bob = User { user_id: 2, ..alice() };
    let _alice_queue = subscribe_chat_handshake(&mut registry, &alice(), None);
    let _bob_queue = subscribe_chat_handshake(&mut registry, &bob, None);
    let frame = b"not a number".to_vec();
    let (state, action) = subscribe_chat(
        &gateway,
        &mut registry,
        &alice(),
        0,
        IngressState::Running,
        &IngressEvent::Binary(frame),
    );
    assert_eq!((state, action), (IngressState::Closed, IngressAction::Disconnect));
    assert!(!registry.contains(1));
    assert!(registry.contains(2));
    assert!(!disconnect(&mut registry, &alice(), 0));
    let frame = encode_message(&typing_request(40));
    let (state, _) =
        ingress_step(&gateway, &bob, IngressState::Running, &IngressEvent::Binary(frame));
    assert_eq!(state, IngressState::Running);
}

#[test]
fn egress_writes_frames_while_it_runs() {
    assert_eq!(
        egress_step(EgressState::Running, EgressEvent::Frame(vec![1, 2, 3])),
        (EgressState::Running, EgressAction::Write(vec![1, 2, 3]))
    );
    assert_eq!(
        egress_step(EgressState::Running, EgressEvent::Frame(vec![])),
        (EgressState::Running, EgressAction::Write(vec![]))
    );
}

#[test]
fn egress_ends_when_the_queue_closes_or_a_write_fails() {
    for state in [EgressState::Running, EgressState::Draining] {
        assert_eq!(
            egress_step(state, EgressEvent::QueueClosed),
            (EgressState::Closed, EgressAction::Stop)
        );
        assert_eq!(
            egress_step(state, EgressEvent::WriteFailed),
            (EgressState::Closed, EgressAction::Stop)
        );
    }
}

#[test]
fn egress_throws_stale_frames_away_once_ingress_has_ended() {
    assert_eq!(
        egress_step(EgressState::Running, EgressEvent::IngressClosed),
        (EgressState::Draining, EgressAction::Next)
    );
    assert_eq!(
        egress_step(EgressState::Draining, EgressEvent::Frame(vec![1])),
        (EgressState::Draining, EgressAction::Next)
    );
    assert_eq!(
        egress_step(EgressState::Draining, EgressEvent::IngressClosed),
        (EgressState::Draining, EgressAction::Next)
    );
}

#[test]
fn closed_egress_stays_closed() {
    for event in [
        EgressEvent::Frame(vec![1]),
        EgressEvent::QueueClosed,
        EgressEvent::WriteFailed,
        EgressEvent::IngressClosed,
    ] {
        assert_eq!(
            egress_step(EgressState::Closed, event),
            (EgressState::Closed, EgressAction::Stop)
        );
    }
}

#[test]
fn handshake_hands_the_requested_subprotocol_back() {
    assert_eq!(subprotocol_answer(Some("Token")), Some("Token".to_string()));
    assert_eq!(subprotocol_answer(Some("abc.def, chat")), Some("abc.def, chat".to_string()));
    assert_eq!(subprotocol_answer(Some("")), Some(String::new()));
    assert_eq!(subprotocol_answer(None), None);
}

#[test]
fn handshake_registers_the_user_and_answers_the_subprotocol() {
    let mut registry = ConnectionRegistry::new();
    let admitted = subscribe_chat_handshake(&mut registry, &alice(), Some("v1.chat"));
    assert!(registry.contains(1));
    assert_eq!(registry.get(1).unwrap().connection(), admitted.connection);
    assert_eq!(admitted.queue.connection(), admitted.connection);
    assert_eq!(admitted.subprotocol, Some("v1.chat".to_string()));
    let mut queue = admitted.queue.into_receiver();
    registry.get(1).unwrap().sender().try_send(vec![1]).unwrap();
    assert_eq!(queue.try_recv(), Ok(vec![1]));
    let admitted = subscribe_chat_handshake(&mut registry, &alice(), None);
    assert_eq!(admitted.subprotocol, None);
}

#[test]
fn pump_keeps_the_user_registered_while_the_connection_runs() {
    let gateway = standard_gateway();
    let mut registry = ConnectionRegistry::new();
    let _queue = subscribe_chat_handshake(&mut registry, &alice(), None);
    let frame = encode_message(&typing_request(40));
    let (state, action) = subscribe_chat(
        &gateway,
        &mut registry,
        &alice(),
        0,
        IngressState::Running,
        &IngressEvent::Binary(frame),
    );
    assert_eq!(state, IngressState::Running);
    assert_eq!(
        action,
        IngressAction::Handled(vec![Dispatch { handler: 1, outcome: Ok(typing_notice(40)) }])
    );
    assert!(registry.contains(1));
    let (state, action) = subscribe_chat(
        &gateway,
        &mut registry,
        &alice(),
        0,
        IngressState::Closed,
        &IngressEvent::SocketClosed,
    );
    assert_eq!((state, action), (IngressState::Closed, IngressAction::Stopped));
    assert!(registry.contains(1));
}

#[test]
fn pump_takes_the_user_out_when_the_connection_ends() {
    let gateway = standard_gateway();
    for event in [IngressEvent::Unexpected, IngressEvent::SocketClosed] {
        let mut registry = ConnectionRegistry::new();
        let bob = User { user_id: 2, ..alice() };
        let _alice_queue = subscribe_chat_handshake(&mut registry, &alice(), None);
        let _bob_queue = subscribe_chat_handshake(&mut registry, &bob, None);
        let (state, action) =
            subscribe_chat(&gateway, &mut registry, &bob, 1, IngressState::Running, &event);
        assert_eq!((state, action), (IngressState::Closed, IngressAction::Disconnect));
        assert!(registry.contains(1));
        assert!(!registry.contains(2));
    }
}

#[test]
fn admissions_and_removals_leave_those_not_removed() {
    let gateway = standard_gateway();
    let mut registry = ConnectionRegistry::new();
    let users: Vec<User> = (10..40).map(|user_id| User { user_id, ..alice() }).collect();
    let mut queues = Vec::new();
    for (step, user) in users.iter().enumerate() {
        queues.push(subscribe_chat_handshake(&mut registry, user, None));
        if step % 2 == 1 {
            let earlier = &users[step / 2];
            if earlier.user_id % 3 == 0 {
                subscribe_chat(
                    &gateway,
                    &mut registry,
                    earlier,
                    (earlier.user_id - 10) as u64,
                    IngressState::Running,
                    &IngressEvent::SocketClosed,
                );
            }
        }
    }
    for user in users.iter().rev() {
        if user.user_id % 3 == 0 {
            subscribe_chat(
                &gateway,
                &mut registry,
                user,
                (user.user_id - 10) as u64,
                IngressState::Running,
                &IngressEvent::SocketClosed,
            );
        }
    }
    for user in &users {
        assert_eq!(registry.contains(user.user_id), user.user_id % 3 != 0);
    }
    assert!(!registry.contains(9));
}
