use iris_server::schema::reactions::ReactionSummary;
use iris_server::server::gateway::messages::ChannelRead;
use iris_server::server::gateway::messages::ChannelTyping;
use iris_server::server::gateway::messages::ClientboundPacket;
use iris_server::server::gateway::messages::MessageCreated;
use iris_server::server::gateway::messages::MessageDeleted;
use iris_server::server::gateway::messages::MessageEdited;
use iris_server::server::gateway::messages::MessagesRead;
use iris_server::server::gateway::messages::ReactionAdded;
use iris_server::server::gateway::messages::ReactionRemoved;
use iris_server::server::gateway::messages::ServerboundPacket;
use iris_server::server::gateway::messages::TypingRequest;
use iris_server::server::messages::decode_message;
use iris_server::server::messages::encode_message;
use iris_server::server::messages::encode_packet_message;
use iris_server::server::messages::Packet;
use iris_server::server::messages::PacketMessage;
use iris_server::server::messages::PacketStaticId;
use iris_server::server::rest::MessageObject;
use iris_server::server::rest::StandardUser;
use iris_server::server::wire::DecodeError;

fn author() -> StandardUser {
    StandardUser { id: 7, name: "Ada".to_string(), username: "ada".to_string() }
}

fn message_object() -> MessageObject {
    MessageObject {
        id: 9_000_000_001,
        content: "hello, wörld ✓".to_string(),
        user_id: 7,
        channel_id: -3,
        receipt: -2,
        edited: true,
        author: author(),
        reply_to: Some(i64::MIN),
        reactions: vec![
            ReactionSummary { emoji: "👍".to_string(), count: 2, me: true, reaction_id: 11 },
            ReactionSummary { emoji: String::new(), count: -1, me: false, reaction_id: 0 },
        ],
    }
}

fn clientbound_samples() -> Vec<ClientboundPacket> {
    vec![
        ClientboundPacket::MessageCreated(MessageCreated { message: message_object() }),
        ClientboundPacket::MessagesRead(MessagesRead {
            reader_id: -5,
            message_ids: vec![0, 1, -1, i64::MAX, i64::MIN, 300],
        }),
        ClientboundPacket::ChannelTyping(ChannelTyping { user: author(), channel_id: 12 }),
        ClientboundPacket::MessageEdited(MessageEdited {
            message_id: 1,
            channel_id: 2,
            editor_id: 3,
            new_content: "edited".to_string(),
        }),
        ClientboundPacket::MessageDeleted(MessageDeleted { message_id: 5, channel_id: 6 }),
        ClientboundPacket::ReactionAdded(ReactionAdded {
            message_id: 1,
            user_id: 2,
            emoji: "🎉".to_string(),
            reaction_count: 3,
            reaction_id: 4,
            channel_id: 5,
        }),
        ClientboundPacket::ReactionRemoved(ReactionRemoved {
            message_id: 1,
            user_id: 2,
            emoji: String::new(),
            reaction_count: 0,
            reaction_id: 4,
            channel_id: 5,
        }),
    ]
}

#[test]
fn identifiers_follow_the_table() {
    assert_eq!(<ChannelRead as PacketStaticId>::get_id(), 1);
    assert_eq!(<TypingRequest as PacketStaticId>::get_id(), 2);
    assert_eq!(<MessageCreated as PacketStaticId>::get_id(), 2);
    assert_eq!(<MessagesRead as PacketStaticId>::get_id(), 3);
    assert_eq!(<ChannelTyping as PacketStaticId>::get_id(), 4);
    assert_eq!(<MessageEdited as PacketStaticId>::get_id(), 5);
    assert_eq!(<MessageDeleted as PacketStaticId>::get_id(), 6);
    assert_eq!(<ReactionAdded as PacketStaticId>::get_id(), 7);
    assert_eq!(<ReactionRemoved as PacketStaticId>::get_id(), 8);
}

#[test]
fn identifier_of_a_value_is_that_of_its_kind() {
    assert_eq!(ChannelRead { channel_id: 0 }.get_id(), 1);
    assert_eq!(TypingRequest { channel_id: 0 }.get_id(), 2);
    assert_eq!(MessageDeleted { message_id: 0, channel_id: 0 }.get_id(), 6);
    let ids: Vec<i32> = clientbound_samples().iter().map(|packet| packet.get_id()).collect();
    assert_eq!(ids, vec![2, 3, 4, 5, 6, 7, 8]);
    assert_eq!(ServerboundPacket::ChannelRead(ChannelRead { channel_id: 1 }).get_id(), 1);
    assert_eq!(ServerboundPacket::TypingRequest(TypingRequest { channel_id: 1 }).get_id(), 2);
}

#[test]
fn channel_read_bytes() {
    let packet = ChannelRead { channel_id: 150 };
    assert_eq!(packet.encode_data(), vec![0x08, 0x96, 0x01]);
    assert_eq!(ChannelRead::decode_data(&[0x08, 0x96, 0x01]), Ok(packet));
}

#[test]
fn zero_fields_are_written() {
    assert_eq!(ChannelRead { channel_id: 0 }.encode_data(), vec![0x08, 0x00]);
    assert_eq!(
        MessageDeleted { message_id: 0, channel_id: 0 }.encode_data(),
        vec![0x08, 0x00, 0x10, 0x00]
    );
}

#[test]
fn message_deleted_bytes() {
    let packet = MessageDeleted { message_id: 1, channel_id: -1 };
    let bytes = packet.encode_data();
    assert_eq!(
        bytes,
        vec![0x08, 0x01, 0x10, 0xff, 0xff, 0xff, 0xff, 0xff, 0xff, 0xff, 0xff, 0xff, 0x01]
    );
    assert_eq!(MessageDeleted::decode_data(&bytes), Ok(packet));
}

#[test]
fn message_edited_bytes() {
    let packet =
        MessageEdited { message_id: 1, channel_id: 2, editor_id: 3, new_content: "hé".to_string() };
    let bytes = packet.encode_data();
    assert_eq!(bytes, vec![0x08, 0x01, 0x10, 0x02, 0x18, 0x03, 0x22, 0x03, b'h', 0xc3, 0xa9]);
    assert_eq!(MessageEdited::decode_data(&bytes), Ok(packet));
}

#[test]
fn messages_read_bytes() {
    let packet = MessagesRead { reader_id: 4, message_ids: vec![1, 300] };
    let bytes = packet.encode_data();
    assert_eq!(bytes, vec![0x08, 0x04, 0x12, 0x03, 0x01, 0xac, 0x02]);
    assert_eq!(MessagesRead::decode_data(&bytes), Ok(packet));
}

#[test]
fn messages_read_takes_single_values_too() {
    let bytes = vec![0x10, 0x05, 0x12, 0x02, 0x06, 0x07, 0x10, 0x08];
    assert_eq!(
        MessagesRead::decode_data(&bytes),
        Ok(MessagesRead { reader_id: 0, message_ids: vec![5, 6, 7, 8] })
    );
}

#[test]
fn messages_read_without_messages_round_trips() {
    let packet = MessagesRead { reader_id: 1, message_ids: vec![] };
    let bytes = packet.encode_data();
    assert_eq!(bytes, vec![0x08, 0x01, 0x12, 0x00]);
    assert_eq!(MessagesRead::decode_data(&bytes), Ok(packet));
}

#[test]
fn channel_typing_bytes() {
    let packet = ChannelTyping {
        user: StandardUser { id: 1, name: "A".to_string(), username: "b".to_string() },
        channel_id: 2,
    };
    let bytes = packet.encode_data();
    assert_eq!(
        bytes,
        vec![0x0a, 0x08, 0x08, 0x01, 0x12, 0x01, b'A', 0x1a, 0x01, b'b', 0x10, 0x02]
    );
    assert_eq!(ChannelTyping::decode_data(&bytes), Ok(packet));
}

#[test]
fn reaction_added_bytes() {
    let packet = ReactionAdded {
        message_id: 1,
        user_id: 2,
        emoji: "x".to_string(),
        reaction_count: 3,
        reaction_id: -1,
        channel_id: 5,
    };
    let bytes = packet.encode_data();
    assert_eq!(
        bytes,
        vec![
            0x08, 0x01, 0x10, 0x02, 0x1a, 0x01, b'x', 0x20, 0x03, 0x28, 0xff, 0xff, 0xff, 0xff,
            0xff, 0xff, 0xff, 0xff, 0xff, 0x01, 0x30, 0x05
        ]
    );
    assert_eq!(ReactionAdded::decode_data(&bytes), Ok(packet));
}

#[test]
fn message_created_round_trip() {
    let packet = MessageCreated { message: message_object() };
    let bytes = packet.encode_data();
    assert_eq!(MessageCreated::decode_data(&bytes), Ok(packet));
}

#[test]
fn message_without_reply_and_reactions_round_trips() {
    let mut message = message_object();
    message.reply_to = None;
    message.reactions = vec![];
    message.content = String::new();
    message.edited = false;
    let bytes = encode_message(&message);
    assert_eq!(decode_message::<MessageObject>(&bytes), Ok(message));
}

#[test]
fn message_object_bytes() {
    let message = MessageObject {
        id: 1,
        content: "hi".to_string(),
        user_id: 2,
        channel_id: 3,
        receipt: 0,
        edited: true,
        author: StandardUser { id: 2, name: String::new(), username: "u".to_string() },
        reply_to: Some(4),
        reactions: vec![ReactionSummary {
            emoji: "e".to_string(),
            count: 1,
            me: true,
            reaction_id: 9,
        }],
    };
    let bytes = encode_message(&message);
    assert_eq!(
        bytes,
        vec![
            0x08, 0x01, 0x12, 0x02, b'h', b'i', 0x18, 0x02, 0x20, 0x03, 0x28, 0x00, 0x30, 0x01,
            0x3a, 0x07, 0x08, 0x02, 0x12, 0x00, 0x1a, 0x01, b'u', 0x40, 0x04, 0x4a, 0x09, 0x0a,
            0x01, b'e', 0x10, 0x01, 0x18, 0x01, 0x20, 0x09
        ]
    );
    assert_eq!(decode_message::<MessageObject>(&bytes), Ok(message));
}

#[test]
fn every_clientbound_kind_round_trips() {
    for packet in clientbound_samples() {
        let bytes = packet.encode_data();
        assert_eq!(ClientboundPacket::decode(packet.get_id(), &bytes), Ok(packet));
    }
}

#[test]
fn every_clientbound_kind_round_trips_through_its_envelope() {
    for packet in clientbound_samples() {
        let envelope = packet.to_envelope();
        assert_eq!(envelope.id, packet.get_id());
        assert_eq!(envelope.data, packet.encode_data());
        let frame = encode_message(&envelope);
        let received = decode_message::<PacketMessage>(&frame).unwrap();
        assert_eq!(ClientboundPacket::from_envelope(&received), Ok(packet));
    }
}

#[test]
fn every_serverbound_kind_round_trips() {
    for channel_id in [0, 1, -1, i64::MAX, i64::MIN] {
        let read = ServerboundPacket::ChannelRead(ChannelRead { channel_id });
        assert_eq!(ServerboundPacket::decode(1, &read.encode_data()), Ok(read.clone()));
        assert_eq!(ServerboundPacket::from_envelope(&read.to_envelope()), Ok(read));
        let typing = ServerboundPacket::TypingRequest(TypingRequest { channel_id });
        assert_eq!(ServerboundPacket::decode(2, &typing.encode_data()), Ok(typing.clone()));
        assert_eq!(ServerboundPacket::from_envelope(&typing.to_envelope()), Ok(typing));
    }
}

#[test]
fn empty_payload_is_the_empty_packet() {
    assert_eq!(ChannelRead::decode_data(&[]), Ok(ChannelRead { channel_id: 0 }));
    assert_eq!(
        MessageEdited::decode_data(&[]),
        Ok(MessageEdited { message_id: 0, channel_id: 0, editor_id: 0, new_content: String::new() })
    );
    assert_eq!(
        ChannelTyping::decode_data(&[]),
        Ok(ChannelTyping {
            user: StandardUser { id: 0, name: String::new(), username: String::new() },
            channel_id: 0
        })
    );
}

#[test]
fn directions_share_identifiers_but_not_tables() {
    let typing = TypingRequest { channel_id: 77 };
    let bytes = typing.encode_data();
    assert_eq!(
        ServerboundPacket::decode(2, &bytes),
        Ok(ServerboundPacket::TypingRequest(TypingRequest { channel_id: 77 }))
    );
    assert_eq!(
        ClientboundPacket::decode(2, &bytes),
        Err(DecodeError::UnexpectedWireType)
    );
}

#[test]
fn identifier_outside_the_table_is_unknown() {
    for id in [0, 3, -1, i32::MAX, i32::MIN] {
        assert_eq!(ServerboundPacket::decode(id, &[]), Err(DecodeError::UnknownPacket));
        assert_eq!(ServerboundPacket::decode(id, &[0xff]), Err(DecodeError::UnknownPacket));
    }
    for id in [0, 1, 9, -2] {
        assert_eq!(ClientboundPacket::decode(id, &[]), Err(DecodeError::UnknownPacket));
    }
}

#[test]
fn text_that_is_not_utf8_is_rejected() {
    let bytes = vec![0x22, 0x02, 0xc3, 0x28];
    assert_eq!(MessageEdited::decode_data(&bytes), Err(DecodeError::InvalidUtf8));
    let bytes = vec![0x22, 0x01, 0xff];
    assert_eq!(MessageEdited::decode_data(&bytes), Err(DecodeError::InvalidUtf8));
}

#[test]
fn payload_that_is_not_a_number_is_rejected() {
    assert_eq!(ChannelRead::decode_data(b"\"abc\""), Err(DecodeError::BufferUnderflow));
    assert_eq!(ChannelRead::decode_data(b"abc"), Err(DecodeError::BufferUnderflow));
    assert_eq!(ChannelRead::decode_data(b"fab"), Err(DecodeError::InvalidWireType));
    assert_eq!(ChannelRead::decode_data(&[0x0a, 0x01, b'7']), Err(DecodeError::UnexpectedWireType));
    assert_eq!(
        ServerboundPacket::decode(1, &[0x0a, 0x01, b'7']),
        Err(DecodeError::UnexpectedWireType)
    );
}

#[test]
fn fault_inside_a_nested_record_is_reported() {
    let bytes = vec![0x0a, 0x02, 0x08, 0x80];
    assert_eq!(ChannelTyping::decode_data(&bytes), Err(DecodeError::InvalidVarint));
    let bytes = vec![0x08, 0x01];
    assert_eq!(ChannelTyping::decode_data(&bytes), Err(DecodeError::UnexpectedWireType));
    let bytes = vec![0x12, 0x02, 0x01, 0x80];
    assert_eq!(MessagesRead::decode_data(&bytes), Err(DecodeError::InvalidVarint));
}

#[test]
fn repeated_records_keep_their_order() {
    let mut message = message_object();
    message.reactions = (0..5)
        .map(|i| ReactionSummary { emoji: format!("r{i}"), count: i, me: i % 2 == 0, reaction_id: i })
        .collect();
    let decoded = decode_message::<MessageObject>(&encode_message(&message)).unwrap();
    assert_eq!(decoded.reactions, message.reactions);
    assert_eq!(decoded, message);
}

#[test]
fn frame_is_the_encoded_envelope() {
    let packet = MessageDeleted { message_id: 5, channel_id: 6 };
    let frame = encode_packet_message(&packet);
    assert_eq!(frame, vec![0x08, 0x06, 0x12, 0x04, 0x08, 0x05, 0x10, 0x06]);
    let envelope = decode_message::<PacketMessage>(&frame).unwrap();
    assert_eq!(envelope, PacketMessage { id: 6, data: vec![0x08, 0x05, 0x10, 0x06] });
    assert_eq!(MessageDeleted::decode_data(&envelope.data), Ok(packet));
}

#[test]
fn long_text_round_trips() {
    let packet = MessageEdited {
        message_id: 1,
        channel_id: 1,
        editor_id: 1,
        new_content: "å".repeat(20_000),
    };
    let bytes = packet.encode_data();
    assert_eq!(bytes.len(), 6 + 1 + 3 + 40_000);
    assert_eq!(MessageEdited::decode_data(&bytes), Ok(packet));
}
