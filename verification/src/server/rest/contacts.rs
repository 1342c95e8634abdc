//! Contacts and the channels shared with them.

use vstd::prelude::*;
use crate::util::vectors::reversed;
use crate::schema::channels::PrivateChannelQuery;
use crate::schema::messages::ContactWithChannel;
use crate::server::rest::error;
use crate::server::rest::ContactResponse;
use crate::server::rest::IrisError;
use crate::server::rest::PrimordialMessage;
use crate::server::rest::PrivateChannel;
use crate::server::rest::INTERNAL_SERVER_ERROR;

verus! {

/// A row whose last message is whole: a row that names a message names
/// its content and its reception status too.
pub open spec fn complete_row(row: ContactWithChannel) -> bool {
    row.message_id is Some ==> row.content is Some && row.reception_status is Some
}

/// The contact of a row, by what it holds, with the unread count
/// `unread_count`.
pub open spec fn spec_contact(
    row: ContactWithChannel,
    unread_count: i64,
    contact: ContactResponse,
) -> bool {
    &&& contact.user_id == row.user_id
    &&& contact.channel_id == row.channel_id
    &&& contact.name == row.name
    &&& contact.username == row.username
    &&& contact.unread_count == unread_count
    &&& contact.last_message is Some <==> row.message_id is Some
    &&& contact.last_message matches Some(last) ==> last.id == row.message_id->0 && last.content
        == row.content->0 && last.receipt == row.reception_status->0
}

/// The contact of the row `row`, with the unread count `unread_count`. The
/// contact has a last message exactly where the row names one.
pub fn contact_response(row: ContactWithChannel, unread_count: i64) -> (contact: ContactResponse)
    requires
        complete_row(row),
    ensures
        spec_contact(row, unread_count, contact),
{
    let last_message = match row.message_id {
        Some(id) => Some(
            PrimordialMessage {
                id,
                content: row.content.unwrap(),
                receipt: row.reception_status.unwrap(),
            },
        ),
        None => None,
    };
    ContactResponse {
        user_id: row.user_id,
        channel_id: row.channel_id,
        name: row.name,
        username: row.username,
        last_message,
        unread_count,
    }
}

/// The contacts of the rows of a listing, in the order of the rows. The
/// listing does not count what is unread: every count is zero.
pub fn get_contacts(rows: Vec<ContactWithChannel>) -> (contacts: Vec<ContactResponse>)
    requires
        forall|i: int| 0 <= i < rows@.len() ==> complete_row(#[trigger] rows@[i]),
    ensures
        contacts@.len() == rows@.len(),
        forall|i: int| 0 <= i < rows@.len() ==> spec_contact(rows@[i], 0, #[trigger] contacts@[i]),
{
    let mut contacts: Vec<ContactResponse> = Vec::new();
    let mut rest = reversed(rows);
    let ghost total = rows@.len();
    while rest.len() > 0
        invariant
            total == rows@.len(),
            rest@.len() + contacts@.len() == total,
            forall|i: int| 0 <= i < rest@.len() ==> rest@[i] == rows@[total - 1 - i],
            forall|i: int| 0 <= i < rows@.len() ==> complete_row(#[trigger] rows@[i]),
            forall|i: int|
                0 <= i < contacts@.len() ==> spec_contact(rows@[i], 0, #[trigger] contacts@[i]),
        decreases rest.len(),
    {
        let row = rest.pop().unwrap();
        contacts.push(contact_response(row, 0));
    }
    contacts
}

/// The contact of the first row of an answer, with the unread count that
/// the row names, or nothing where the answer has no row.
pub fn get_contact(rows: Vec<ContactWithChannel>) -> (contact: Option<ContactResponse>)
    requires
        rows@.len() > 0 ==> complete_row(rows@[0]),
    ensures
        contact is Some <==> rows@.len() > 0,
        contact matches Some(found) ==> spec_contact(
            rows@[0],
            rows@[0].unread_reception_count,
            found,
        ),
{
    let mut rest = rows;
    if rest.len() == 0 {
        None
    } else {
        let row = rest.swap_remove(0);
        let unread_count = row.unread_reception_count;
        Some(contact_response(row, unread_count))
    }
}

/// The channel of the first row of an answer, or nothing where the answer
/// has no row. `rows` is the answer of the store, or nothing where the
/// store failed: then the request has failed.
pub fn chat(rows: Option<&Vec<PrivateChannelQuery>>) -> (channel: Result<
    Option<PrivateChannel>,
    IrisError,
>)
    ensures
        match channel {
            Ok(found) => rows matches Some(answer) && found == if answer@.len() == 0 {
                None::<PrivateChannel>
            } else {
                Some(PrivateChannel { channel_id: answer@[0].channel_id })
            },
            Err(failure) => rows is None && failure.status == INTERNAL_SERVER_ERROR
                && failure.message@ == "Failed to get channel"@,
        },
{
    match rows {
        Some(answer) => {
            if answer.len() == 0 {
                Ok(None)
            } else {
                Ok(Some(PrivateChannel { channel_id: answer[0].channel_id }))
            }
        },
        None => Err(error(INTERNAL_SERVER_ERROR, "Failed to get channel")),
    }
}

} // verus!
