use iris_server::schema::channels::Channel;
use iris_server::schema::channels::ChannelMember;
use iris_server::schema::channels::PrivateChannelQuery;
use iris_server::schema::ctes::select_messages_from;
use iris_server::schema::ctes::REACTIONS_WITH_ME;
use iris_server::schema::ctes::SELECT_MESSAGES;
use iris_server::schema::messages::CompleteMessage;
use iris_server::schema::messages::ContactWithChannel;
use iris_server::schema::messages::Message;
use iris_server::schema::reactions::ReactionSummary;
use iris_server::schema::users::User;
use iris_server::server::gateway::messages::MessageCreated;
use iris_server::server::gateway::messages::MessageDeleted;
use iris_server::server::gateway::messages::MessageEdited;
use iris_server::server::gateway::messages::ReactionAdded;
use iris_server::server::gateway::messages::ReactionRemoved;
use iris_server::server::rest::auth::login;
use iris_server::server::rest::auth::register;
use iris_server::server::rest::auth::registered;
use iris_server::server::rest::auth::RegisterRequest;
use iris_server::server::rest::auth::CLAIM_ID;
use iris_server::server::rest::contacts::chat;
use iris_server::server::rest::contacts::contact_response;
use iris_server::server::rest::contacts::get_contact;
use iris_server::server::rest::contacts::get_contacts;
use iris_server::server::rest::error;
use iris_server::server::rest::messages::create_message;
use iris_server::server::rest::messages::reply_exists;
use iris_server::server::rest::messages::delete_message;
use iris_server::server::rest::messages::edit_message;
use iris_server::server::rest::messages::get_messages;
use iris_server::server::rest::messages::membership;
use iris_server::server::rest::middlewares::authorize;
use iris_server::server::rest::middlewares::credentials;
use iris_server::server::rest::middlewares::token_span;
use iris_server::server::rest::middlewares::whitespace;
use iris_server::server::rest::reactions::add_reaction;
use iris_server::server::rest::reactions::reaction_added;
use iris_server::server::rest::reactions::remove_reaction;
use iris_server::server::rest::reactions::ReactionEvent;
use iris_server::server::rest::reactions::ReactionStep;
use iris_server::server::rest::search::like_pattern;
use iris_server::server::rest::search::search;
use iris_server::server::rest::search::search_pattern;
use iris_server::server::rest::search::Params;
use iris_server::server::rest::user::get_self;
use iris_server::server::rest::ContactResponse;
use iris_server::server::rest::GeneralSearchResponse;
use iris_server::server::rest::IrisError;
use iris_server::server::rest::MessageObject;
use iris_server::server::rest::PrimordialMessage;
use iris_server::server::rest::PrivateChannel;
use iris_server::server::rest::ReactionAddResponse;
use iris_server::server::rest::StandardUser;
use iris_server::server::rest::UserAuthResponse;
use iris_server::server::rest::UserSelfResponse;
use iris_server::server::rest::BAD_REQUEST;
use iris_server::server::rest::FORBIDDEN;
use iris_server::server::rest::INTERNAL_SERVER_ERROR;
use iris_server::server::rest::NOT_FOUND;
use iris_server::server::rest::UNAUTHORIZED;
use iris_server::util::vectors::reversed;
use iris_server::ws::messages::TextMessage;
use iris_server::ws::echo;
use iris_server::server::messages::decode_message;
use iris_server::server::messages::encode_message;
use iris_server::server::wire::DecodeError;

fn alice() -> User {
    User {
        user_id: 1,
        name: "Alice".to_string(),
        username: "alice".to_string(),
        password: "$argon2id$hash".to_string(),
        email: "alice@example.org".to_string(),
    }
}

fn row() -> CompleteMessage {
    CompleteMessage {
        message_id: 10,
        user_id: 1,
        content: "hello".to_string(),
        channel_id: 40,
        reception_status: 2,
        edited: true,
        reply_to: Some(9),
        author_name: "Alice".to_string(),
        author_username: "alice".to_string(),
        reactions: "[]".to_string(),
    }
}

fn object(reactions: Vec<ReactionSummary>) -> MessageObject {
    MessageObject {
        id: 10,
        content: "hello".to_string(),
        user_id: 1,
        channel_id: 40,
        receipt: 2,
        edited: true,
        author: StandardUser { id: 1, name: "Alice".to_string(), username: "alice".to_string() },
        reply_to: Some(9),
        reactions,
    }
}

fn thumbs() -> ReactionSummary {
    ReactionSummary { emoji: "👍".to_string(), count: 2, me: false, reaction_id: 3 }
}

fn contact_row(message_id: Option<i64>) -> ContactWithChannel {
    ContactWithChannel {
        user_id: 2,
        channel_id: 40,
        name: "Bob".to_string(),
        username: "bob".to_string(),
        message_id,
        content: message_id.map(|id| format!("message {id}")),
        reception_status: message_id.map(|_| 1),
        unread_reception_count: 5,
    }
}

#[test]
fn status_codes() {
    assert_eq!(BAD_REQUEST, 400);
    assert_eq!(UNAUTHORIZED, 401);
    assert_eq!(FORBIDDEN, 403);
    assert_eq!(NOT_FOUND, 404);
    assert_eq!(INTERNAL_SERVER_ERROR, 500);
}

#[test]
fn error_carries_status_and_message() {
    assert_eq!(
        error(NOT_FOUND, "Message not found"),
        IrisError { status: 404, message: "Message not found".to_string() }
    );
    assert_eq!(error(0, ""), IrisError { status: 0, message: String::new() });
}

#[test]
fn user_sees_themselves_without_the_password() {
    let expected = UserSelfResponse {
        id: 1,
        name: "Alice".to_string(),
        username: "alice".to_string(),
        email: "alice@example.org".to_string(),
    };
    assert_eq!(UserSelfResponse::from(alice()), expected);
    assert_eq!(get_self(alice()), expected);
}

#[test]
fn others_see_id_and_names() {
    assert_eq!(
        StandardUser::from_user(&alice()),
        StandardUser { id: 1, name: "Alice".to_string(), username: "alice".to_string() }
    );
}

#[test]
fn login_needs_user_and_token() {
    let granted = login(Some(alice()), Some("token".to_string()));
    assert_eq!(
        granted,
        Ok(UserAuthResponse { user: UserSelfResponse::from(alice()), token: "token".to_string() })
    );
    let refused = IrisError { status: 401, message: "Invalid credentials".to_string() };
    assert_eq!(login(Some(alice()), None), Err(refused.clone()));
    assert_eq!(login(None, Some("token".to_string())), Err(refused.clone()));
    assert_eq!(login(None, None), Err(refused));
}

#[test]
fn register_builds_the_row() {
    let request = RegisterRequest {
        name: "Alice".to_string(),
        username: "alice".to_string(),
        password: "plain".to_string(),
        email: "alice@example.org".to_string(),
    };
    let user = register(1, request, "$argon2id$hash".to_string());
    assert_eq!(user, alice());
    assert_eq!(
        registered(user, "t".to_string()),
        UserAuthResponse { user: UserSelfResponse::from(alice()), token: "t".to_string() }
    );
    assert_eq!(CLAIM_ID, "id");
}

#[test]
fn token_is_the_last_part_of_the_header() {
    assert_eq!(authorize("Bearer abc.def.ghi"), Some("abc.def.ghi".to_string()));
    assert_eq!(authorize("abc"), Some("abc".to_string()));
    assert_eq!(authorize("  Token \t abc \n"), Some("abc".to_string()));
    assert_eq!(authorize("a b c"), Some("c".to_string()));
    assert_eq!(authorize("Bearer\u{a0}tök€n\u{2003}"), Some("tök€n".to_string()));
    assert_eq!(authorize("x"), Some("x".to_string()));
    assert_eq!(authorize(" x"), Some("x".to_string()));
}

#[test]
fn header_of_white_space_holds_no_token() {
    assert_eq!(authorize(""), None);
    assert_eq!(authorize(" "), None);
    assert_eq!(authorize(" \t\r\n\u{a0}"), None);
}

#[test]
fn span_of_the_last_part() {
    assert_eq!(token_span(&vec![true, false, false, true]), Some((1, 3)));
    assert_eq!(token_span(&vec![false, true, false]), Some((2, 3)));
    assert_eq!(token_span(&vec![false, false]), Some((0, 2)));
    assert_eq!(token_span(&vec![false]), Some((0, 1)));
    assert_eq!(token_span(&vec![true, true]), None);
    assert_eq!(token_span(&vec![]), None);
}

#[test]
fn credentials_come_from_the_authorization_header_first() {
    assert_eq!(credentials(Some("Bearer abc"), Some("def")), Ok("abc".to_string()));
    assert_eq!(credentials(Some("Bearer abc"), None), Ok("abc".to_string()));
    assert_eq!(credentials(None, Some("def")), Ok("def".to_string()));
}

#[test]
fn request_without_a_token_is_refused() {
    assert_eq!(
        credentials(None, None),
        Err(IrisError { status: 401, message: "No authorization header provided".to_string() })
    );
    let invalid = IrisError { status: 401, message: "Invalid token".to_string() };
    assert_eq!(credentials(Some(""), None), Err(invalid.clone()));
    assert_eq!(credentials(Some("  "), Some("def")), Err(invalid.clone()));
    assert_eq!(credentials(None, Some("\t")), Err(invalid));
}

#[test]
fn token_agrees_with_split_whitespace() {
    for header in ["", " ", "a", "a ", " a", "Bearer x", "a  b\tc\n", "\u{3000}x\u{3000}y", "é è"] {
        assert_eq!(authorize(header), header.split_whitespace().last().map(str::to_string));
    }
}

#[test]
fn search_pattern_wraps_the_trimmed_term() {
    assert_eq!(search_pattern(&Params { term: "  ada  ".to_string() }), Ok("%ada%".to_string()));
    assert_eq!(search_pattern(&Params { term: "a b".to_string() }), Ok("%a b%".to_string()));
    assert_eq!(like_pattern("x"), Ok("%x%".to_string()));
    assert_eq!(like_pattern(" x "), Ok("% x %".to_string()));
}

#[test]
fn search_term_loses_the_white_space_around_it_only() {
    for term in ["x", " x", "x ", "\t x y \n", "\u{a0}é è\u{3000}", "a\u{2003}b", "\u{200b}x"] {
        let expected = format!("%{}%", term.trim());
        assert_eq!(search_pattern(&Params { term: term.to_string() }), Ok(expected));
    }
    assert_eq!(
        search_pattern(&Params { term: "\u{85} a \u{1680}".to_string() }),
        Ok("%a%".to_string())
    );
    assert_eq!(
        search_pattern(&Params { term: "\u{200b}".to_string() }),
        Ok("%\u{200b}%".to_string())
    );
}

#[test]
fn white_space_is_twenty_five_code_points() {
    let white: Vec<u32> = (0x09..=0x0d)
        .chain([0x20, 0x85, 0xa0, 0x1680])
        .chain(0x2000..=0x200a)
        .chain([0x2028, 0x2029, 0x202f, 0x205f, 0x3000])
        .collect();
    assert_eq!(white.len(), 25);
    for code in 0..=0x10ffffu32 {
        if let Some(c) = char::from_u32(code) {
            let text = c.to_string();
            assert_eq!(white.contains(&code), c.is_whitespace());
            assert_eq!(whitespace(c), c.is_whitespace());
            assert_eq!(authorize(&text).is_none(), c.is_whitespace());
        }
    }
}

#[test]
fn empty_search_term_is_refused() {
    let refused = IrisError { status: 400, message: "Empty search term".to_string() };
    assert_eq!(search_pattern(&Params { term: String::new() }), Err(refused.clone()));
    assert_eq!(search_pattern(&Params { term: " \t\n".to_string() }), Err(refused.clone()));
    assert_eq!(like_pattern(""), Err(refused));
}

#[test]
fn search_shows_users_as_others_see_them() {
    let bob = User { user_id: 2, name: "Bob".to_string(), username: "bob".to_string(), ..alice() };
    assert_eq!(
        search(Some(&vec![alice(), bob])),
        Ok(GeneralSearchResponse {
            users: vec![
                StandardUser { id: 1, name: "Alice".to_string(), username: "alice".to_string() },
                StandardUser { id: 2, name: "Bob".to_string(), username: "bob".to_string() },
            ]
        })
    );
    assert_eq!(search(Some(&vec![])), Ok(GeneralSearchResponse { users: vec![] }));
}

#[test]
fn failed_search_is_reported() {
    assert_eq!(
        search(None),
        Err(IrisError { status: 500, message: "Failed to search users".to_string() })
    );
}

#[test]
fn only_members_list_the_messages_of_a_channel() {
    assert_eq!(membership(true), Ok(()));
    assert_eq!(
        membership(false),
        Err(IrisError {
            status: 403,
            message: "You are not a member of this channel".to_string()
        })
    );
}

#[test]
fn message_of_a_row() {
    assert_eq!(MessageObject::from_row(row(), vec![thumbs()]), object(vec![thumbs()]));
}

#[test]
fn created_message_has_no_reactions() {
    assert_eq!(create_message(Some(row())), Ok(MessageCreated { message: object(vec![]) }));
}

#[test]
fn message_that_was_not_stored_gives_no_packet() {
    assert_eq!(
        create_message(None),
        Err(IrisError { status: 500, message: "Error inserting message".to_string() })
    );
}

#[test]
fn reply_needs_its_message() {
    let missing = IrisError { status: 404, message: "Reply not found".to_string() };
    assert_eq!(reply_exists(Some(true)), Ok(()));
    assert_eq!(reply_exists(Some(false)), Err(missing.clone()));
    assert_eq!(reply_exists(None), Err(missing));
}

#[test]
fn listing_keeps_the_order_of_the_rows() {
    let mut second = row();
    second.message_id = 11;
    second.reply_to = None;
    let messages = get_messages(vec![(row(), vec![thumbs()]), (second, vec![])]);
    let mut expected = object(vec![]);
    expected.id = 11;
    expected.reply_to = None;
    assert_eq!(messages, vec![object(vec![thumbs()]), expected]);
    assert_eq!(get_messages(vec![]), vec![]);
}

#[test]
fn edit_tells_who_changed_what() {
    let editor = User { user_id: 7, ..alice() };
    let (message, packet) =
        edit_message(Some((row(), vec![thumbs()])), &editor, "new".to_string()).unwrap();
    assert_eq!(message, object(vec![thumbs()]));
    assert_eq!(
        packet,
        MessageEdited { message_id: 10, channel_id: 40, editor_id: 7, new_content: "new".to_string() }
    );
}

#[test]
fn delete_names_message_and_channel() {
    let deleted = Message {
        message_id: 10,
        user_id: 1,
        content: "bye".to_string(),
        channel_id: 40,
        reception_status: 0,
        edited: false,
        reply_to: None,
    };
    assert_eq!(
        delete_message(Some(&deleted)),
        Ok(MessageDeleted { message_id: 10, channel_id: 40 })
    );
}

#[test]
fn message_that_is_not_there_is_not_found() {
    let missing = IrisError { status: 404, message: "Message not found".to_string() };
    assert_eq!(edit_message(None, &alice(), "new".to_string()), Err(missing.clone()));
    assert_eq!(delete_message(None), Err(missing));
}

#[test]
fn reaction_by_id_is_raised_then_joined() {
    assert_eq!(
        add_reaction(ReactionEvent::Start { reaction_id: Some(3) }),
        ReactionStep::RaiseById { reaction_id: 3 }
    );
    assert_eq!(
        add_reaction(ReactionEvent::RaisedById { reaction_id: 3, reaction_count: 5 }),
        ReactionStep::Join { reaction_id: 3, reaction_count: 5 }
    );
}

#[test]
fn reaction_by_emoji_is_raised_or_stored() {
    assert_eq!(add_reaction(ReactionEvent::Start { reaction_id: None }), ReactionStep::RaiseByEmoji);
    let found = ReactionAddResponse { reaction_id: 4, reaction_count: 9 };
    assert_eq!(
        add_reaction(ReactionEvent::RaisedByEmoji { found: Some(found) }),
        ReactionStep::Join { reaction_id: 4, reaction_count: 9 }
    );
    assert_eq!(add_reaction(ReactionEvent::RaisedByEmoji { found: None }), ReactionStep::Insert);
    assert_eq!(
        add_reaction(ReactionEvent::Inserted { reaction_id: 8 }),
        ReactionStep::Join { reaction_id: 8, reaction_count: 1 }
    );
}

#[test]
fn reaction_packets() {
    let joined = ReactionAddResponse { reaction_id: 3, reaction_count: 2 };
    let (packet, response) = reaction_added(40, 10, 1, "👍".to_string(), Some(joined)).unwrap();
    assert_eq!(
        packet,
        ReactionAdded {
            message_id: 10,
            user_id: 1,
            emoji: "👍".to_string(),
            reaction_count: 2,
            reaction_id: 3,
            channel_id: 40
        }
    );
    assert_eq!(response, ReactionAddResponse { reaction_id: 3, reaction_count: 2 });
    assert_eq!(
        remove_reaction(40, 10, 1, 3, Some(1)),
        Ok(ReactionRemoved {
            message_id: 10,
            user_id: 1,
            emoji: String::new(),
            reaction_count: 1,
            reaction_id: 3,
            channel_id: 40
        })
    );
}

#[test]
fn failed_statement_undoes_the_transaction() {
    assert_eq!(add_reaction(ReactionEvent::Failed), ReactionStep::RollBack);
}

#[test]
fn undone_transaction_gives_no_packet() {
    assert_eq!(
        reaction_added(40, 10, 1, "👍".to_string(), None),
        Err(IrisError { status: 500, message: "Failed to add reaction".to_string() })
    );
    assert_eq!(
        remove_reaction(40, 10, 1, 3, None),
        Err(IrisError { status: 500, message: "Failed to remove reaction".to_string() })
    );
}

#[test]
fn contact_has_a_last_message_where_the_row_names_one() {
    assert_eq!(
        contact_response(contact_row(Some(10)), 3),
        ContactResponse {
            user_id: 2,
            channel_id: 40,
            name: "Bob".to_string(),
            username: "bob".to_string(),
            last_message: Some(PrimordialMessage {
                id: 10,
                content: "message 10".to_string(),
                receipt: 1
            }),
            unread_count: 3,
        }
    );
    assert_eq!(contact_response(contact_row(None), 0).last_message, None);
}

#[test]
fn listing_of_contacts_counts_nothing_unread() {
    let contacts = get_contacts(vec![contact_row(Some(1)), contact_row(None), contact_row(Some(3))]);
    assert_eq!(contacts.len(), 3);
    assert_eq!(contacts[0], contact_response(contact_row(Some(1)), 0));
    assert_eq!(contacts[1], contact_response(contact_row(None), 0));
    assert_eq!(contacts[2], contact_response(contact_row(Some(3)), 0));
    assert_eq!(get_contacts(vec![]), vec![]);
}

#[test]
fn single_contact_is_the_first_row_with_its_count() {
    assert_eq!(
        get_contact(vec![contact_row(Some(1)), contact_row(None)]),
        Some(contact_response(contact_row(Some(1)), 5))
    );
    assert_eq!(get_contact(vec![]), None);
}

#[test]
fn chat_is_the_first_channel_of_the_answer() {
    let rows = vec![PrivateChannelQuery { channel_id: 7 }, PrivateChannelQuery { channel_id: 8 }];
    assert_eq!(chat(Some(&rows)), Ok(Some(PrivateChannel { channel_id: 7 })));
    assert_eq!(chat(Some(&vec![])), Ok(None));
    assert_eq!(
        chat(None),
        Err(IrisError { status: 500, message: "Failed to get channel".to_string() })
    );
}

#[test]
fn rows_of_channels() {
    let channel = Channel { channel_id: 1, channel_type: 0 };
    let member = ChannelMember { channel_id: 1, user_id: 2 };
    assert_eq!(channel.channel_id, member.channel_id);
}

#[test]
fn reversed_turns_a_vector_round() {
    assert_eq!(reversed(vec![1, 2, 3]), vec![3, 2, 1]);
    assert_eq!(reversed(Vec::<u8>::new()), Vec::<u8>::new());
    assert_eq!(reversed(vec!["a".to_string()]), vec!["a".to_string()]);
}

#[test]
fn query_wraps_the_statement() {
    let query = select_messages_from("SELECT * FROM messages WHERE channel_id = $2");
    let expected = format!(
        r#"
{},
querying_messages AS (
{}
)
{}
FROM querying_messages qm
LEFT JOIN reactions_with_me ON reactions_with_me.message_id = qm.message_id
LEFT JOIN users u ON qm.user_id = u.user_id
GROUP BY
    qm.message_id, qm.user_id, qm.content, qm.channel_id, qm.reception_status, qm.edited, qm.reply_to, u.name, u.username
ORDER BY
    qm.message_id DESC
"#,
        REACTIONS_WITH_ME, "SELECT * FROM messages WHERE channel_id = $2", SELECT_MESSAGES
    );
    assert_eq!(query, expected);
    assert!(query.starts_with("\n\nWITH reactions_with_me AS ("));
    assert!(query.contains("\n)\n,\nquerying_messages AS (\nSELECT * FROM messages WHERE channel_id = $2\n)\n\nSELECT\n    qm.message_id,"));
    assert!(query.ends_with("ORDER BY\n    qm.message_id DESC\n"));
}

#[test]
fn query_of_an_empty_statement() {
    let query = select_messages_from("");
    assert!(query.contains("querying_messages AS (\n\n)"));
    assert_eq!(query.len(), select_messages_from("x").len() - 1);
}

#[test]
fn echo_says_what_was_said() {
    let frame = encode_message(&TextMessage { content: "hi".to_string() });
    assert_eq!(frame, vec![0x0a, 0x02, b'h', b'i']);
    let answer = echo(&frame).unwrap();
    assert_eq!(
        decode_message::<TextMessage>(&answer),
        Ok(TextMessage { content: "You said: hi".to_string() })
    );
    let answer = echo(&[]).unwrap();
    assert_eq!(
        decode_message::<TextMessage>(&answer),
        Ok(TextMessage { content: "You said: ".to_string() })
    );
}

#[test]
fn echo_refuses_what_is_no_line() {
    assert_eq!(echo(&[0x0a, 0x01, 0xff]), Err(DecodeError::InvalidUtf8));
    assert_eq!(echo(&[0x08, 0x01]), Err(DecodeError::UnexpectedWireType));
    assert_eq!(echo(&[0x0a]), Err(DecodeError::InvalidVarint));
}
