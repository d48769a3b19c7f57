//! A server that only keeps a record: it has no transport, takes note of
//! every command, and answers and yields what it was told to.

use crate::data::command::{Command, CommandView};
use crate::data::config::Config;
use crate::data::message::Message;
use crate::server::{
    lemma_received_event, lemma_sent_event, receives, receives_all, sent_commands, Event, Server,
};
use std::collections::VecDeque;
use std::io::Error;
use vstd::prelude::*;

verus! {

/// The commands behind `commands` as values of characters, in the same
/// order.
pub open spec fn command_views(commands: Seq<&Command>) -> Seq<CommandView> {
    commands.map_values(|command: &Command| command@)
}

/// One line of the record. The command of a send is kept as it came; what
/// went back to the caller is remembered for the trace only.
enum Record {
    Sent { command: Command, result: Ghost<Result<(), Error>> },
    Received { message: Ghost<Option<Message>> },
}

impl Record {
    /// The event that this line stands for.
    spec fn event(self) -> Event {
        match self {
            Record::Sent { command, result } => Event::Sent { command: command@, result: result@ },
            Record::Received { message } => Event::Received { message: message@ },
        }
    }
}

/// A server for trying things out. Commands sent to it go nowhere but into
/// a record. What a send returns, and which messages come in, is scripted
/// beforehand; with nothing scripted every send succeeds and no message
/// comes.
pub struct MockServer {
    config: Config,
    record: Vec<Record>,
    answers: VecDeque<Result<(), Error>>,
    incoming: VecDeque<Message>,
}

impl MockServer {
    /// The answers that the coming sends will get, the next one first.
    pub closed spec fn scripted(&self) -> Seq<Result<(), Error>> {
        self.answers@
    }

    /// The messages that are still to come in, the next one first.
    pub closed spec fn pending(&self) -> Seq<Message> {
        self.incoming@
    }

    /// A server with the settings `config` on which nothing has happened
    /// and nothing is scripted.
    pub fn new(config: Config) -> (server: MockServer)
        ensures
            *server.config() == config,
            server.trace() == Seq::<Event>::empty(),
            server.scripted() == Seq::<Result<(), Error>>::empty(),
            server.pending() == Seq::<Message>::empty(),
    {
        MockServer {
            config,
            record: Vec::new(),
            answers: VecDeque::new(),
            incoming: VecDeque::new(),
        }
    }

    /// Scripts the answer to one more send, after those scripted already.
    pub fn answer(&mut self, result: Result<(), Error>)
        ensures
            final(self).scripted() == old(self).scripted().push(result),
            final(self).pending() == old(self).pending(),
            final(self).config() == old(self).config(),
            final(self).trace() == old(self).trace(),
    {
        self.answers.push_back(result);
    }

    /// Scripts one more incoming message, after those scripted already.
    pub fn deliver(&mut self, message: Message)
        ensures
            final(self).pending() == old(self).pending().push(message),
            final(self).scripted() == old(self).scripted(),
            final(self).config() == old(self).config(),
            final(self).trace() == old(self).trace(),
    {
        self.incoming.push_back(message);
    }

    /// The commands that were handed over for sending, oldest first.
    pub fn sent(&self) -> (commands: Vec<&Command>)
        ensures
            command_views(commands@) == sent_commands(self.trace()),
    {
        let mut commands: Vec<&Command> = Vec::new();
        let mut index: usize = 0;
        while index < self.record.len()
            invariant
                index <= self.record.len(),
                command_views(commands@) == sent_commands(self.trace().take(index as int)),
            decreases self.record.len() - index,
        {
            let ghost seen = self.trace().take(index as int);
            assert(self.trace().take(index + 1) == seen.push(self.trace()[index as int]));
            match &self.record[index] {
                Record::Sent { command, result } => {
                    proof {
                        lemma_sent_event(seen, command@, result@);
                        assert(command_views(commands@.push(command)) == command_views(
                            commands@,
                        ).push(command@));
                    }
                    commands.push(command);
                },
                Record::Received { message } => {
                    proof {
                        lemma_received_event(seen, message@);
                    }
                },
            }
            index += 1;
        }
        assert(self.trace().take(index as int) == self.trace());
        commands
    }
}

/// Two servers with the same messages to come yield the same sequence:
/// asked equally often, they give the same answers in the same order and
/// are left with the same messages to come. It does not matter how they
/// are asked, by `recv`, by their iterator, or by the iterator that a
/// wrapper hands out, which is the server's own.
pub proof fn lemma_same_stream(
    one: MockServer,
    other: MockServer,
    from_one: Seq<Option<Message>>,
    from_other: Seq<Option<Message>>,
    one_after: MockServer,
    other_after: MockServer,
)
    requires
        one.pending() == other.pending(),
        from_one.len() == from_other.len(),
        receives_all(one, from_one, one_after),
        receives_all(other, from_other, other_after),
    ensures
        from_one == from_other,
        one_after.pending() == other_after.pending(),
    decreases from_one.len(),
{
    if from_one.len() > 0 {
        let one_middle = choose|middle: MockServer|
            receives_all(one, from_one.drop_last(), middle) && #[trigger] receives(
                middle,
                from_one.last(),
                one_after,
            );
        let other_middle = choose|middle: MockServer|
            receives_all(other, from_other.drop_last(), middle) && #[trigger] receives(
                middle,
                from_other.last(),
                other_after,
            );
        lemma_same_stream(
            one,
            other,
            from_one.drop_last(),
            from_other.drop_last(),
            one_middle,
            other_middle,
        );
        assert(from_one == from_one.drop_last().push(from_one.last()));
        assert(from_other == from_other.drop_last().push(from_other.last()));
    }
}

impl Server for MockServer {
    closed spec fn spec_config(&self) -> &Config {
        &self.config
    }

    closed spec fn trace(&self) -> Seq<Event> {
        self.record@.map_values(|line: Record| line.event())
    }

    fn config(&self) -> (config: &Config) {
        &self.config
    }

    /// A send takes the next scripted answer off the script, or succeeds
    /// when none is left, and leaves the messages to come alone.
    open spec fn sent_step(
        &self,
        command: CommandView,
        result: Result<(), Error>,
        after: Self,
    ) -> bool {
        &&& after.pending() == self.pending()
        &&& if self.scripted().len() == 0 {
            result is Ok && after.scripted() == self.scripted()
        } else {
            result == self.scripted().first() && after.scripted() == self.scripted().drop_first()
        }
    }

    /// A step of the incoming messages takes the next scripted message off
    /// the front, or gives `None` when none is left, and leaves the script
    /// of answers alone.
    open spec fn received_step(&self, message: Option<Message>, after: Self) -> bool {
        &&& after.scripted() == self.scripted()
        &&& if self.pending().len() == 0 {
            message is None && after.pending() == self.pending()
        } else {
            message == Some(self.pending().first()) && after.pending()
                == self.pending().drop_first()
        }
    }

    /// Takes note of `command` and gives the next scripted answer, or
    /// success when none is left.
    fn send(&mut self, command: Command) -> (result: Result<(), Error>) {
        let result = match self.answers.pop_front() {
            Some(answer) => answer,
            None => Ok(()),
        };
        let ghost sent = command@;
        self.record.push(Record::Sent { command, result: Ghost(result) });
        assert(self.trace() == old(self).trace().push(Event::Sent { command: sent, result }));
        result
    }

    /// Gives the next scripted message, or `None` when none is left.
    fn recv(&mut self) -> (message: Option<Message>) {
        let message = self.incoming.pop_front();
        self.record.push(Record::Received { message: Ghost(message) });
        assert(self.trace() == old(self).trace().push(Event::Received { message }));
        message
    }
}

} // verus!
