//! The commands of the bot: the tree that declares them, the choice of the
//! command that a message invokes, and what each command decides and
//! answers. Sending the answers and driving the audio is left to the caller.

pub mod config;
pub mod fun;
pub mod music;
pub mod utility;

use crate::parser::argument::Argument;
use crate::parser::argument::ArgumentMetadata;
use crate::parser::command::invoked;
use crate::parser::command::Command;
use crate::parser::command::CommandWithData;
use crate::parser::command::CommandFn;
use crate::parser::textcommand::strip_prefix;
use crate::parser::textcommand::texts;
use crate::parser::textcommand::whitespace_words;
use crate::parser::textcommand::without_prefix;
use crate::parser::textcommand::TextCommand;
use vstd::prelude::*;

verus! {

/// The argument takes text, is called `label` and takes `size` words.
pub open spec fn is_text_arg(a: Argument, label: Seq<char>, size: u32) -> bool {
    a matches Argument::String(m) && m.label@ == label && m.size == size
}

/// The argument takes an unsigned number, is called `label` and takes `size`
/// words.
pub open spec fn is_uint_arg(a: Argument, label: Seq<char>, size: u32) -> bool {
    a matches Argument::UInt(m) && m.label@ == label && m.size == size
}

/// The command is called `name`, runs `handler` and has no subcommands.
pub open spec fn is_leaf(c: Command, name: Seq<char>, handler: CommandFn) -> bool {
    &&& c.name@ == name
    &&& c.function == Some(handler)
    &&& c.subcommands matches Some(subs) && subs@.len() == 0
    &&& c.arguments is Some
}

/// The command declares no argument.
pub open spec fn takes_nothing(c: Command) -> bool {
    c.arguments matches Some(args) && args@.len() == 0
}

/// The command declares one argument: all the words that are left, as text
/// called `label`.
pub open spec fn takes_words(c: Command, label: Seq<char>) -> bool {
    c.arguments matches Some(args) && args@.len() == 1 && is_text_arg(args@[0], label, 0)
}

/// The command declares one argument: one word, as an unsigned number called
/// `label`.
pub open spec fn takes_number(c: Command, label: Seq<char>) -> bool {
    c.arguments matches Some(args) && args@.len() == 1 && is_uint_arg(args@[0], label, 1)
}

/// The command declares two arguments: one word as an unsigned number called
/// `number`, then all the words that are left as text called `words`.
pub open spec fn takes_number_and_words(c: Command, number: Seq<char>, words: Seq<char>) -> bool {
    c.arguments matches Some(args) && args@.len() == 2 && is_uint_arg(args@[0], number, 1)
        && is_text_arg(args@[1], words, 0)
}

/// An argument that takes all the words that are left, as text.
fn words_arg(label: &str) -> (a: Argument)
    ensures
        is_text_arg(a, label@, 0),
{
    Argument::String(ArgumentMetadata { label: String::from_str(label), size: 0 })
}

/// An argument that takes one word, as an unsigned number.
fn number_arg(label: &str) -> (a: Argument)
    ensures
        is_uint_arg(a, label@, 1),
{
    Argument::UInt(ArgumentMetadata { label: String::from_str(label), size: 1 })
}

/// A command without subcommands.
fn leaf(name: &str, handler: CommandFn, arguments: Vec<Argument>) -> (c: Command)
    ensures
        is_leaf(c, name@, handler),
        c.arguments == Some(arguments),
{
    Command::new(String::from_str(name), Some(handler), Vec::new(), arguments)
}

/// The tree of the commands that the bot knows: a root that runs nothing,
/// with one subcommand for each command, in the order in which they are
/// looked up.
pub fn rootcmd() -> (root: Command)
    ensures
        root.name@ == "cta"@,
        root.function.is_none(),
        takes_nothing(root),
        root.subcommands matches Some(subs) && {
            &&& subs@.len() == 13
            &&& is_leaf(subs@[0], "ping"@, CommandFn::Ping) && takes_words(subs@[0], "text"@)
            &&& is_leaf(subs@[1], "jump"@, CommandFn::Jump) && takes_number(subs@[1], "amount"@)
            &&& is_leaf(subs@[2], "join"@, CommandFn::Join) && takes_nothing(subs@[2])
            &&& is_leaf(subs@[3], "leave"@, CommandFn::Leave) && takes_nothing(subs@[3])
            &&& is_leaf(subs@[4], "pause"@, CommandFn::Pause) && takes_nothing(subs@[4])
            &&& is_leaf(subs@[5], "unpause"@, CommandFn::Unpause) && takes_nothing(subs@[5])
            &&& is_leaf(subs@[6], "play"@, CommandFn::Play) && takes_words(subs@[6], "song"@)
            &&& is_leaf(subs@[7], "playnext"@, CommandFn::PlayNext) && takes_words(
                subs@[7],
                "song"@,
            )
            &&& is_leaf(subs@[8], "next"@, CommandFn::Next) && takes_nothing(subs@[8])
            &&& is_leaf(subs@[9], "prev"@, CommandFn::Prev) && takes_nothing(subs@[9])
            &&& is_leaf(subs@[10], "queue"@, CommandFn::Queue) && takes_nothing(subs@[10])
            &&& is_leaf(subs@[11], "remove"@, CommandFn::Remove) && takes_number(
                subs@[11],
                "index"@,
            )
            &&& is_leaf(subs@[12], "insert"@, CommandFn::Insert) && takes_number_and_words(
                subs@[12],
                "index"@,
                "song"@,
            )
        },
{
    let mut subs: Vec<Command> = Vec::new();
    subs.push(leaf("ping", CommandFn::Ping, vec![words_arg("text")]));
    subs.push(leaf("jump", CommandFn::Jump, vec![number_arg("amount")]));
    subs.push(leaf("join", CommandFn::Join, Vec::new()));
    subs.push(leaf("leave", CommandFn::Leave, Vec::new()));
    subs.push(leaf("pause", CommandFn::Pause, Vec::new()));
    subs.push(leaf("unpause", CommandFn::Unpause, Vec::new()));
    subs.push(leaf("play", CommandFn::Play, vec![words_arg("song")]));
    subs.push(leaf("playnext", CommandFn::PlayNext, vec![words_arg("song")]));
    subs.push(leaf("next", CommandFn::Next, Vec::new()));
    subs.push(leaf("prev", CommandFn::Prev, Vec::new()));
    subs.push(leaf("queue", CommandFn::Queue, Vec::new()));
    subs.push(leaf("remove", CommandFn::Remove, vec![number_arg("index")]));
    subs.push(leaf("insert", CommandFn::Insert, vec![number_arg("index"), words_arg("song")]));
    Command::new(String::from_str("cta"), None, subs, Vec::new())
}

/// A command to run: what runs, and the command as the message invoked it.
pub struct Call {
    pub handler: CommandFn,
    pub command: CommandWithData,
}

/// The subcommand of `root` that a message of these words invokes under
/// `prefix`: the one called as the first word without the prefix, if the
/// word begins with the prefix, such a subcommand exists and it runs
/// anything.
pub open spec fn invoked_command(root: Command, prefix: Seq<char>, words: Seq<Seq<char>>) -> Option<
    Command,
> {
    if words.len() == 0 {
        None
    } else {
        match without_prefix(words[0], prefix) {
            Some(name) => match root.subcommand_named(name) {
                Some(sub) => if sub.function is Some {
                    Some(sub)
                } else {
                    None
                },
                None => None,
            },
            None => None,
        }
    }
}

/// Chooses the command that the words of a message invoke under `prefix`
/// and reads its arguments from the words behind the first. A message
/// without words, one whose first word does not begin with the prefix and
/// one that names no command that runs anything invoke nothing.
pub fn dispatch(root: &Command, prefix: &str, t: TextCommand) -> (call: Option<Call>)
    ensures
        match invoked_command(*root, prefix@, t.words()) {
            Some(sub) => call matches Some(c) && Some(c.handler) == sub.function
                && c.command.model() == invoked(t.strings(), 1, sub),
            None => call.is_none(),
        },
{
    if t.is_empty() {
        return None;
    }
    match strip_prefix(t.first(), prefix) {
        Some(name) => match root.find_command(name) {
            Some(sub) => match sub.function {
                Some(handler) => Some(Call { handler, command: CommandWithData::read(&t, 1, sub) }),
                None => None,
            },
            None => None,
        },
        None => None,
    }
}

/// Chooses the command that `message` invokes under `prefix`, as
/// [`dispatch`] does for its words.
pub fn handle_message(root: &Command, prefix: &str, message: &str) -> (call: Option<Call>)
    ensures
        match invoked_command(*root, prefix@, whitespace_words(message@)) {
            Some(sub) => call matches Some(c) && Some(c.handler) == sub.function && exists|
                strings: Seq<String>,
            |
                #[trigger] texts(strings) == whitespace_words(message@) && c.command.model()
                    == invoked(strings, 1, sub),
            None => call.is_none(),
        },
{
    let t: TextCommand = TextCommand::new(message);
    let ghost strings = t.strings();
    let call: Option<Call> = dispatch(root, prefix, t);
    proof {
        assert(texts(strings) == whitespace_words(message@));
    }
    call
}

} // verus!
