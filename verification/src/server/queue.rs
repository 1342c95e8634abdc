//! The outbound queue of a connection and the number that the connection
//! is known by.
//!
//! A number is drawn as a ticket, and a ticket opens one queue: the two
//! sides of the queue, and nothing else, bear its number. Outside this
//! module a side cannot be made or renumbered, so a producer and a consumer
//! under one number are the two sides of one queue.

use vstd::prelude::*;
use tokio::sync::mpsc::Receiver;
use tokio::sync::mpsc::Sender;

verus! {

/// `tokio::sync::mpsc::Sender`, the producer side of a bounded queue.
#[verifier::external_type_specification]
#[verifier::external_body]
#[verifier::reject_recursive_types(T)]
pub struct ExSender<T>(Sender<T>);

/// `tokio::sync::mpsc::Receiver`, the consumer side of a bounded queue.
#[verifier::external_type_specification]
#[verifier::external_body]
#[verifier::reject_recursive_types(T)]
pub struct ExReceiver<T>(Receiver<T>);

/// `Sender::clone`: one more producer of the same queue. Nothing is said of
/// it here.
pub assume_specification<T>[ <Sender<T> as Clone>::clone ](sender: &Sender<T>) -> (copy: Sender<T>);

/// The number that follows `connection`: the next, and zero after the
/// largest.
pub open spec fn following(connection: u64) -> u64 {
    if connection == u64::MAX {
        0
    } else {
        (connection + 1) as u64
    }
}

/// The right to open the queue of one connection under one number.
pub struct ConnectionTicket {
    number: u64,
}

impl ConnectionTicket {
    /// The number of the ticket.
    pub closed spec fn number(&self) -> u64 {
        self.number
    }
}

/// Gives out the numbers of connections, one after the other.
pub struct TicketCounter {
    upcoming: u64,
}

impl TicketCounter {
    /// The number that is due.
    pub closed spec fn upcoming(&self) -> u64 {
        self.upcoming
    }

    /// A counter that starts at zero.
    pub fn new() -> (counter: Self)
        ensures
            counter.upcoming() == 0,
    {
        TicketCounter { upcoming: 0 }
    }

    /// A ticket with the number that is due, after which the number that
    /// follows it is due. Numbers come again only after all of them have
    /// been given out.
    pub fn draw(&mut self) -> (ticket: ConnectionTicket)
        ensures
            ticket.number() == old(self).upcoming(),
            final(self).upcoming() == following(old(self).upcoming()),
    {
        let number = self.upcoming;
        self.upcoming = if number == u64::MAX {
            0
        } else {
            number + 1
        };
        ConnectionTicket { number }
    }
}

/// The handle of a connection: the producer side of its outbound queue,
/// under the number of the connection.
#[derive(Clone)]
pub struct ConnectionHandle {
    connection: u64,
    sender: Sender<Vec<u8>>,
}

impl ConnectionHandle {
    /// The number of the connection.
    pub closed spec fn number(&self) -> u64 {
        self.connection
    }

    /// The number of the connection.
    pub fn connection(&self) -> (connection: u64)
        ensures
            connection == self.number(),
    {
        self.connection
    }

    /// The producer side of the connection's queue.
    pub fn sender(&self) -> &Sender<Vec<u8>> {
        &self.sender
    }
}

/// The consumer side of the outbound queue of a connection, under the
/// number of the connection.
pub struct ConnectionQueue {
    connection: u64,
    receiver: Receiver<Vec<u8>>,
}

impl ConnectionQueue {
    /// The number of the connection.
    pub closed spec fn number(&self) -> u64 {
        self.connection
    }

    /// The number of the connection.
    pub fn connection(&self) -> (connection: u64)
        ensures
            connection == self.number(),
    {
        self.connection
    }

    /// The consumer side itself, for the loop that drains it.
    pub fn into_receiver(self) -> Receiver<Vec<u8>> {
        self.receiver
    }
}

/// `tokio::sync::mpsc::channel`: the two sides of a new bounded queue, each
/// under the number of the ticket that opened it.
#[verifier::external_body]
pub(crate) fn new_queue(ticket: ConnectionTicket, capacity: usize) -> (sides: (
    ConnectionHandle,
    ConnectionQueue,
))
    requires
        1 <= capacity <= 0x1fff_ffff,
    ensures
        sides.0.number() == ticket.number(),
        sides.1.number() == ticket.number(),
{
    let (sender, receiver) = tokio::sync::mpsc::channel(capacity);
    (
        ConnectionHandle { connection: ticket.number, sender },
        ConnectionQueue { connection: ticket.number, receiver },
    )
}

} // verus!
