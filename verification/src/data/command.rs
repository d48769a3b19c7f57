//! The commands that a client sends to a server.

use vstd::prelude::*;

verus! {

/// The mode that a `USER` command carries when a client identifies itself.
pub const USER_MODE: &'static str = "0";

/// What `USER_MODE` reads as: the single character `0`.
pub open spec fn user_mode() -> Seq<char> {
    seq!['0']
}

/// A command for the server, with the arguments of its verb. The arguments
/// are carried as they were given: nothing is checked or escaped here.
#[allow(non_camel_case_types)]
#[derive(Debug, Clone, PartialEq, Eq)]
pub enum Command {
    /// Takes a nickname.
    NICK(String),
    /// Names the user: username, mode, real name.
    USER(String, String, String),
    /// Answers a ping: message, and the server it is meant for if any.
    PONG(String, Option<String>),
    /// Joins channels: the channel list, and the keys if any.
    JOIN(String, Option<String>),
    /// Asks for operator rights: username, password.
    OPER(String, String),
    /// A message for a user or a channel: target, text.
    PRIVMSG(String, String),
    /// Disconnects a user from the network: target, reason.
    KILL(String, String),
    /// Changes a mode with services rights: target, mode, parameters if any.
    SAMODE(String, String, Option<String>),
    /// Changes a user's nickname with services rights: old, new.
    SANICK(String, String),
}

/// A command as a value of characters: what is compared when two commands
/// are said to be the same.
#[allow(non_camel_case_types)]
pub enum CommandView {
    NICK(Seq<char>),
    USER(Seq<char>, Seq<char>, Seq<char>),
    PONG(Seq<char>, Option<Seq<char>>),
    JOIN(Seq<char>, Option<Seq<char>>),
    OPER(Seq<char>, Seq<char>),
    PRIVMSG(Seq<char>, Seq<char>),
    KILL(Seq<char>, Seq<char>),
    SAMODE(Seq<char>, Seq<char>, Option<Seq<char>>),
    SANICK(Seq<char>, Seq<char>),
}

impl View for Command {
    type V = CommandView;

    open spec fn view(&self) -> CommandView {
        match *self {
            Command::NICK(nickname) => CommandView::NICK(nickname@),
            Command::USER(username, mode, realname) => CommandView::USER(
                username@,
                mode@,
                realname@,
            ),
            Command::PONG(message, target) => CommandView::PONG(message@, target.deep_view()),
            Command::JOIN(chanlist, keys) => CommandView::JOIN(chanlist@, keys.deep_view()),
            Command::OPER(username, password) => CommandView::OPER(username@, password@),
            Command::PRIVMSG(target, message) => CommandView::PRIVMSG(target@, message@),
            Command::KILL(target, message) => CommandView::KILL(target@, message@),
            Command::SAMODE(target, mode, modeparams) => CommandView::SAMODE(
                target@,
                mode@,
                modeparams.deep_view(),
            ),
            Command::SANICK(old_nick, new_nick) => CommandView::SANICK(old_nick@, new_nick@),
        }
    }
}

/// The mode constant holds exactly the character `0`.
pub proof fn lemma_user_mode()
    ensures
        USER_MODE@ == user_mode(),
{
    reveal_strlit("0");
    assert(USER_MODE@ =~= user_mode());
}

} // verus!
