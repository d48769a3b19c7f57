//! Shortcuts for the commands that a client sends most.
//!
//! A `Wrapper` borrows a server for as long as it lives. Each shortcut builds
//! one command from the arguments as they are given, hands it to the server,
//! and returns what the server returned. The wrapper keeps nothing between
//! calls, checks nothing, and tries nothing twice.
//!
//! Every call that takes the wrapper by `&mut` promises first that the
//! wrapper goes on borrowing the same server, so that what is known of
//! `wrapper.server` when the wrapper is dropped is known of the server that
//! was lent to it. The clauses after that one say what the call did to that
//! server: which sends it made, each of them a step of that server's own
//! kind, so that whatever the server promises of a send holds of a send made
//! through the wrapper.

use crate::data::command::{lemma_user_mode, user_mode, Command, CommandView, USER_MODE};
use crate::data::config::Config;
use crate::data::message::Message;
use crate::server::{
    lemma_sent_event, received_messages, sends, sent_commands, Event, Server, ServerIterator,
};
use std::io::Error;
use vstd::prelude::*;

verus! {

/// A server with shortcuts on top.
pub struct Wrapper<'a, S: Server> {
    /// The server that the commands go to.
    pub server: &'a mut S,
}

/// A wrapper is a server too: the settings and the trace are those of the
/// server behind it, and every call goes straight through.
impl<'a, S: Server> Server for Wrapper<'a, S> {
    open spec fn spec_config(&self) -> &Config {
        self.server.config()
    }

    open spec fn trace(&self) -> Seq<Event> {
        self.server.trace()
    }

    /// A send through the wrapper is a send of the server behind it.
    open spec fn sent_step(
        &self,
        command: CommandView,
        result: Result<(), Error>,
        after: Self,
    ) -> bool {
        self.server.sent_step(command, result, *after.server)
    }

    /// A step of the incoming messages through the wrapper is that step of
    /// the server behind it.
    open spec fn received_step(&self, message: Option<Message>, after: Self) -> bool {
        self.server.received_step(message, *after.server)
    }

    /// Gives the settings of the server behind the wrapper, as that server
    /// gives them.
    fn config(&self) -> (config: &Config) {
        self.server.config()
    }

    /// Hands `command` to the server behind the wrapper as it is, and
    /// returns what that server returned.
    fn send(&mut self, command: Command) -> (result: Result<(), Error>)
        ensures
            *final(final(self).server) == *final(old(self).server),
    {
        self.server.send(command)
    }

    /// Takes the next incoming message from the server behind the wrapper,
    /// and returns it as it came.
    fn recv(&mut self) -> (message: Option<Message>)
        ensures
            *final(final(self).server) == *final(old(self).server),
    {
        self.server.recv()
    }
}

/// The command that announces the nickname of `config`.
pub open spec fn nick_command(config: Config) -> CommandView {
    CommandView::NICK(config.nickname@)
}

/// The command that names the user of `config`.
pub open spec fn user_command(config: Config) -> CommandView {
    CommandView::USER(config.username@, user_mode(), config.realname@)
}

/// How a trace grows when a client with the settings `config` identifies
/// itself, and what the caller is told.
///
/// The nickname goes first. If the transport refuses it, nothing more is
/// sent and the caller gets that failure. Otherwise the user command
/// follows, and the caller gets whatever the transport said to that one.
pub open spec fn identified(
    config: Config,
    before: Seq<Event>,
    after: Seq<Event>,
    result: Result<(), Error>,
) -> bool {
    let first = after[before.len() as int]->result;
    let with_nick = before.push(Event::Sent { command: nick_command(config), result: first });
    if first is Ok {
        after == with_nick.push(Event::Sent { command: user_command(config), result })
    } else {
        after == with_nick && result == first
    }
}

/// The steps that the server behind a wrapper makes when a client
/// identifies itself: from `before`, one send of the nickname leads to a
/// state in the middle. If that send was refused, the server stays there
/// and the caller gets the refusal. Otherwise one send of the user command
/// leads on to `after`, and the caller gets its answer.
pub open spec fn identify_steps<S: Server>(before: S, after: S, result: Result<(), Error>) -> bool {
    exists|first: Result<(), Error>, middle: S| #[trigger]
        sends(before, nick_command(*before.config()), first, middle) && if first is Ok {
            sends(middle, user_command(*before.config()), result, after)
        } else {
            after == middle && result == first
        }
}

/// Identifying sends the nickname and then the user, in this order and
/// nothing besides, and receives nothing. When the nickname is refused it
/// sends the nickname alone and the caller gets that very refusal; in every
/// other case the caller gets the answer to the user command. So the caller
/// is told of success exactly when both commands were taken.
pub proof fn lemma_identified(
    config: Config,
    before: Seq<Event>,
    after: Seq<Event>,
    result: Result<(), Error>,
)
    requires
        identified(config, before, after, result),
    ensures
        after.subrange(0, before.len() as int) == before,
        after[before.len() as int] is Sent,
        after.last() is Sent,
        after.last()->result == result,
        received_messages(after) == received_messages(before),
        after[before.len() as int]->result is Err ==> after.len() == before.len() + 1
            && sent_commands(after) == sent_commands(before).push(nick_command(config)),
        after[before.len() as int]->result is Ok ==> after.len() == before.len() + 2
            && sent_commands(after) == sent_commands(before).push(nick_command(config)).push(
            user_command(config),
        ),
        result is Ok <==> after == before.push(
            Event::Sent { command: nick_command(config), result: Ok(()) },
        ).push(Event::Sent { command: user_command(config), result: Ok(()) }),
{
    let first = after[before.len() as int]->result;
    let with_nick = before.push(Event::Sent { command: nick_command(config), result: first });
    lemma_sent_event(before, nick_command(config), first);
    assert(with_nick.subrange(0, before.len() as int) == before);
    if first is Ok {
        lemma_sent_event(with_nick, user_command(config), result);
        assert(first->Ok_0 == ());
        if result is Ok {
            assert(result->Ok_0 == ());
        }
        assert(after.subrange(0, before.len() as int) == before);
    }
}

impl<'a, S: Server> Wrapper<'a, S> {
    /// Puts the shortcuts on top of `server`, which stays borrowed until the
    /// wrapper is gone.
    pub fn new(server: &'a mut S) -> (wrapper: Wrapper<'a, S>)
        ensures
            *wrapper.server == *old(server),
            *final(wrapper.server) == *final(server),
    {
        Wrapper { server }
    }

    /// The incoming messages of the server behind the wrapper, as that
    /// server gives them: the iterator is the server's own.
    pub fn iter(&mut self) -> (incoming: ServerIterator<'_, S>)
        ensures
            *incoming.server == *old(self).server,
            *final(incoming.server) == *final(self).server,
            *final(final(self).server) == *final(old(self).server),
    {
        self.server.iter()
    }

    /// Sends a NICK and a USER to identify: the nickname of the server's
    /// settings first, then the username and the real name with the mode
    /// `USER_MODE`. Stops at the first failure and returns it.
    pub fn identify(&mut self) -> (result: Result<(), Error>)
        ensures
            *final(final(self).server) == *final(old(self).server),
            final(self).config() == old(self).config(),
            identified(*old(self).config(), old(self).trace(), final(self).trace(), result),
            identify_steps(*old(self).server, *final(self).server, result),
    {
        let nickname = self.server.config().nickname.clone();
        let first = self.server.send(Command::NICK(nickname));
        let ghost middle = *self.server;
        assert(sends(*old(self).server, nick_command(*old(self).config()), first, middle));
        if let Err(error) = first {
            return Err(error);
        }
        let username = self.server.config().username.clone();
        let realname = self.server.config().realname.clone();
        proof {
            lemma_user_mode();
        }
        let result = self.server.send(Command::USER(username, USER_MODE.to_owned(), realname));
        assert(sends(middle, user_command(*old(self).config()), result, *self.server));
        result
    }

    /// Sends a PONG with the specified message, for no server in particular.
    pub fn send_pong(&mut self, msg: &str) -> (result: Result<(), Error>)
        ensures
            *final(final(self).server) == *final(old(self).server),
            sends(*old(self).server, CommandView::PONG(msg@, None), result, *final(self).server),
    {
        self.server.send(Command::PONG(msg.to_owned(), None))
    }

    /// Joins the specified channel or chanlist, without keys.
    pub fn send_join(&mut self, chanlist: &str) -> (result: Result<(), Error>)
        ensures
            *final(final(self).server) == *final(old(self).server),
            sends(
                *old(self).server,
                CommandView::JOIN(chanlist@, None),
                result,
                *final(self).server,
            ),
    {
        self.server.send(Command::JOIN(chanlist.to_owned(), None))
    }

    /// Attempts to oper up using the specified username and password.
    pub fn send_oper(&mut self, username: &str, password: &str) -> (result: Result<(), Error>)
        ensures
            *final(final(self).server) == *final(old(self).server),
            sends(
                *old(self).server,
                CommandView::OPER(username@, password@),
                result,
                *final(self).server,
            ),
    {
        self.server.send(Command::OPER(username.to_owned(), password.to_owned()))
    }

    /// Sends a message to the specified target.
    pub fn send_privmsg(&mut self, target: &str, message: &str) -> (result: Result<(), Error>)
        ensures
            *final(final(self).server) == *final(old(self).server),
            sends(
                *old(self).server,
                CommandView::PRIVMSG(target@, message@),
                result,
                *final(self).server,
            ),
    {
        self.server.send(Command::PRIVMSG(target.to_owned(), message.to_owned()))
    }

    /// Kills the target with the provided message.
    pub fn send_kill(&mut self, target: &str, message: &str) -> (result: Result<(), Error>)
        ensures
            *final(final(self).server) == *final(old(self).server),
            sends(
                *old(self).server,
                CommandView::KILL(target@, message@),
                result,
                *final(self).server,
            ),
    {
        self.server.send(Command::KILL(target.to_owned(), message.to_owned()))
    }

    /// Changes the mode of the target. The parameters go along when there
    /// are any, and stay away when there are none.
    pub fn send_samode(
        &mut self,
        target: &str,
        mode: &str,
        modeparams: Option<&str>,
    ) -> (result: Result<(), Error>)
        ensures
            *final(final(self).server) == *final(old(self).server),
            sends(
                *old(self).server,
                CommandView::SAMODE(target@, mode@, modeparams.deep_view()),
                result,
                *final(self).server,
            ),
    {
        let params = match modeparams {
            Some(text) => Some(text.to_owned()),
            None => None,
        };
        self.server.send(Command::SAMODE(target.to_owned(), mode.to_owned(), params))
    }

    /// Forces a user to change from the old nickname to the new nickname.
    pub fn send_sanick(&mut self, old_nick: &str, new_nick: &str) -> (result: Result<(), Error>)
        ensures
            *final(final(self).server) == *final(old(self).server),
            sends(
                *old(self).server,
                CommandView::SANICK(old_nick@, new_nick@),
                result,
                *final(self).server,
            ),
    {
        self.server.send(Command::SANICK(old_nick.to_owned(), new_nick.to_owned()))
    }
}

} // verus!
