//! A connected server as the client sees it: it holds the settings of the
//! connection, takes commands for sending, and yields the messages that come
//! in, one after the other.
//!
//! What a server does on the wire is not known here. What is known is kept
//! as a trace: one event for every command handed over, with the answer of
//! the transport, and one for every time the incoming messages were asked
//! for the next one, with what came. The contracts of this crate say how
//! each call makes the trace grow.

pub mod mock;
pub mod utils;

use crate::data::command::{Command, CommandView};
use crate::data::config::Config;
use crate::data::message::Message;
use std::io::Error;
use vstd::prelude::*;

verus! {

/// `std::io::Error`, the failure of a transport. Nothing is known of what is
/// inside: a value of it is only carried from the server to the caller.
#[verifier::external_type_specification]
#[verifier::external_body]
pub struct ExIoError(std::io::Error);

/// One thing that happened on a connection.
pub enum Event {
    /// `command` was handed over for sending, and the transport answered
    /// with `result`.
    Sent { command: CommandView, result: Result<(), Error> },
    /// The incoming sequence was asked for its next element and gave
    /// `message`; `None` when it had come to its end.
    Received { message: Option<Message> },
}

/// The commands that were handed over for sending in `trace`, oldest first,
/// whether or not the transport took them.
pub open spec fn sent_commands(trace: Seq<Event>) -> Seq<CommandView>
    decreases trace.len(),
{
    if trace.len() == 0 {
        Seq::empty()
    } else {
        let earlier = sent_commands(trace.drop_last());
        match trace.last() {
            Event::Sent { command, .. } => earlier.push(command),
            Event::Received { .. } => earlier,
        }
    }
}

/// The messages that the incoming sequence gave in `trace`, oldest first.
pub open spec fn received_messages(trace: Seq<Event>) -> Seq<Message>
    decreases trace.len(),
{
    if trace.len() == 0 {
        Seq::empty()
    } else {
        let earlier = received_messages(trace.drop_last());
        match trace.last() {
            Event::Received { message: Some(message) } => earlier.push(message),
            _ => earlier,
        }
    }
}

/// What a connected server can do for a client.
///
/// A server is described by two things: the settings it was connected with,
/// which never change, and the trace of what has happened on the connection
/// so far. Every call that reaches the transport adds exactly one event to
/// the end of the trace and leaves the settings alone. What more a kind of
/// server promises of such a call, it says in its two step relations; code
/// that works on any server hands that promise on to its callers.
pub trait Server: Sized {
    /// The settings of the connection.
    spec fn spec_config(&self) -> &Config;

    /// Everything that has happened on the connection, oldest first.
    spec fn trace(&self) -> Seq<Event>;

    /// What this kind of server promises of one send, beyond the trace and
    /// the settings: handing `command` to the server as it stands here may
    /// be answered with `result` and leave the server as `after`.
    spec fn sent_step(&self, command: CommandView, result: Result<(), Error>, after: Self) -> bool;

    /// What this kind of server promises of one step of its incoming
    /// messages, beyond the trace and the settings: asked as it stands
    /// here, it may give `message` and be left as `after`.
    spec fn received_step(&self, message: Option<Message>, after: Self) -> bool;

    /// Gives the settings of the connection.
    #[verifier::when_used_as_spec(spec_config)]
    fn config(&self) -> (config: &Config)
        ensures
            config == self.spec_config(),
    ;

    /// Hands `command` to the transport, once, and says how that went. A
    /// failure is the transport's own; nothing is tried again.
    fn send(&mut self, command: Command) -> (result: Result<(), Error>)
        ensures
            final(self).config() == old(self).config(),
            final(self).trace() == old(self).trace().push(
                Event::Sent { command: command@, result },
            ),
            old(self).sent_step(command@, result, *final(self)),
    ;

    /// Takes the next message off the incoming sequence; `None` at its end.
    fn recv(&mut self) -> (message: Option<Message>)
        ensures
            final(self).config() == old(self).config(),
            final(self).trace() == old(self).trace().push(Event::Received { message }),
            old(self).received_step(message, *final(self)),
    ;

    /// The incoming messages as a sequence to step through. The iterator
    /// borrows this server and nothing else: what it yields is what `recv`
    /// gives.
    fn iter(&mut self) -> (incoming: ServerIterator<'_, Self>)
        ensures
            *incoming.server == *old(self),
            *final(incoming.server) == *final(self),
    {
        ServerIterator { server: self }
    }
}

/// One send on a server of any kind: `command` was handed to `before`, the
/// answer was `result`, and the server was left as `after`. The settings
/// stay, the trace grows by this one event, and the step is one that this
/// kind of server makes.
pub open spec fn sends<S: Server>(
    before: S,
    command: CommandView,
    result: Result<(), Error>,
    after: S,
) -> bool {
    &&& after.config() == before.config()
    &&& after.trace() == before.trace().push(Event::Sent { command, result })
    &&& before.sent_step(command, result, after)
}

/// One step of the incoming messages of a server of any kind: `before` was
/// asked for the next message, gave `message`, and was left as `after`.
/// The settings stay, the trace grows by this one event, and the step is
/// one that this kind of server makes.
pub open spec fn receives<S: Server>(before: S, message: Option<Message>, after: S) -> bool {
    &&& after.config() == before.config()
    &&& after.trace() == before.trace().push(Event::Received { message })
    &&& before.received_step(message, after)
}

/// Steps of the incoming messages, one after the other: asked once for
/// each element of `messages`, `before` gave these answers in this order
/// and was left as `after`.
pub open spec fn receives_all<S: Server>(
    before: S,
    messages: Seq<Option<Message>>,
    after: S,
) -> bool
    decreases messages.len(),
{
    if messages.len() == 0 {
        after == before
    } else {
        exists|middle: S|
            receives_all(before, messages.drop_last(), middle) && #[trigger] receives(
                middle,
                messages.last(),
                after,
            )
    }
}

/// One more step of the incoming messages makes the run longer by what it
/// gave.
pub proof fn lemma_receives_one_more<S: Server>(
    before: S,
    messages: Seq<Option<Message>>,
    middle: S,
    message: Option<Message>,
    after: S,
)
    requires
        receives_all(before, messages, middle),
        receives(middle, message, after),
    ensures
        receives_all(before, messages.push(message), after),
{
    let longer = messages.push(message);
    assert(longer.drop_last() == messages);
    assert(longer.last() == message);
}

/// The incoming messages of a server, handed out one by one as they are
/// asked for. Nothing is read ahead, and the sequence need not end.
pub struct ServerIterator<'a, S: Server> {
    /// The server that the messages come from.
    pub server: &'a mut S,
}

impl<'a, S: Server> ServerIterator<'a, S> {
    /// The next incoming message, taken from the server by one `recv`. The
    /// iterator goes on borrowing the same server.
    pub fn next(&mut self) -> (message: Option<Message>)
        ensures
            *final(final(self).server) == *final(old(self).server),
            receives(*old(self).server, message, *final(self).server),
    {
        self.server.recv()
    }
}

/// Handing over one more command adds it to the commands sent and leaves the
/// messages received as they were.
pub proof fn lemma_sent_event(trace: Seq<Event>, command: CommandView, result: Result<(), Error>)
    ensures
        sent_commands(trace.push(Event::Sent { command, result })) == sent_commands(trace).push(
            command,
        ),
        received_messages(trace.push(Event::Sent { command, result })) == received_messages(trace),
{
    let longer = trace.push(Event::Sent { command, result });
    assert(longer.drop_last() == trace);
}

/// Asking for the next message leaves the commands sent as they were, and
/// adds the message, if one came, to the messages received.
pub proof fn lemma_received_event(trace: Seq<Event>, message: Option<Message>)
    ensures
        sent_commands(trace.push(Event::Received { message })) == sent_commands(trace),
        received_messages(trace.push(Event::Received { message })) == match message {
            Some(m) => received_messages(trace).push(m),
            None => received_messages(trace),
        },
{
    let longer = trace.push(Event::Received { message });
    assert(longer.drop_last() == trace);
}

} // verus!
