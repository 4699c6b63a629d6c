//! The tree of commands that the bot knows, and a command as a message
//! invoked it: its name, the subcommand that was named, the values of its
//! arguments.

use crate::parser::argument::Argument;
use crate::parser::argument::ArgumentWithData;
use crate::parser::argument::ParseError;
use crate::parser::textcommand::same_text;
use crate::parser::textcommand::TextCommand;
use vstd::prelude::*;

verus! {

/// What a command runs when it is invoked.
#[derive(Clone, Copy, Debug, PartialEq, Eq)]
pub enum CommandFn {
    Ping,
    Jump,
    Join,
    Leave,
    Pause,
    Unpause,
    Play,
    PlayNext,
    Next,
    Prev,
    Queue,
    Remove,
    Insert,
    Prefix,
}

/// A command that the bot knows.
#[derive(Debug, PartialEq, Eq)]
pub struct Command {
    pub name: String,
    pub function: Option<CommandFn>,
    pub subcommands: Option<Vec<Command>>,
    pub arguments: Option<Vec<Argument>>,
}

/// A command as a message invoked it.
#[derive(Debug, PartialEq, Eq)]
pub struct CommandWithData {
    pub name: String,
    pub subcommand: Option<Box<CommandWithData>>,
    pub arguments: Option<Vec<ArgumentWithData>>,
}

/// The index of the first command from `from` on that is called `name`.
pub open spec fn first_named(commands: Seq<Command>, name: Seq<char>, from: nat) -> Option<nat>
    decreases commands.len() - from,
{
    if from >= commands.len() {
        None
    } else if commands[from as int].name@ == name {
        Some(from)
    } else {
        first_named(commands, name, from + 1)
    }
}

impl Command {
    /// A command with the given subcommands and arguments.
    pub fn new(
        name: String,
        function: Option<CommandFn>,
        subcommands: Vec<Command>,
        arguments: Vec<Argument>,
    ) -> (c: Command)
        ensures
            c.name == name,
            c.function == function,
            c.subcommands == Some(subcommands),
            c.arguments == Some(arguments),
    {
        Command { name, function, subcommands: Some(subcommands), arguments: Some(arguments) }
    }

    /// The subcommand that `find_command` answers with: the first one that is
    /// called `command`.
    pub open spec fn subcommand_named(&self, command: Seq<char>) -> Option<Command> {
        match self.subcommands {
            Some(subs) => match first_named(subs@, command, 0) {
                Some(i) => Some(subs@[i as int]),
                None => None,
            },
            None => None,
        }
    }

    /// The first subcommand that is called `command`, if there is one.
    pub fn find_command(&self, command: &str) -> (found: Option<&Command>)
        ensures
            match self.subcommand_named(command@) {
                Some(c) => found == Some(&c),
                None => found.is_none(),
            },
    {
        match &self.subcommands {
            Some(subs) => {
                let mut i: usize = 0;
                while i < subs.len()
                    invariant
                        i <= subs@.len(),
                        self.subcommands == Some(*subs),
                        first_named(subs@, command@, 0) == first_named(subs@, command@, i as nat),
                    decreases subs@.len() - i,
                {
                    if same_text(subs[i].name.as_str(), command) {
                        assert(first_named(subs@, command@, i as nat) == Some(i as nat));
                        return Some(&subs[i]);
                    }
                    i = i + 1;
                }
                None
            },
            None => None,
        }
    }
}

/// The mathematical content of a [`CommandWithData`].
pub struct Invocation {
    pub name: String,
    pub subcommand: Option<Box<Invocation>>,
    pub arguments: Option<Seq<ArgumentWithData>>,
}

/// Which subcommand the words name, and the cursor behind the words that
/// were spent on finding out. The subcommands are tried in their order, each
/// against a word of its own: the first against the word at `ptr`, the next
/// against the word after it, until one is called as its word or the words
/// or the subcommands run out.
pub open spec fn matched_sub(words: Seq<String>, ptr: nat, subs: Seq<Command>, k: nat) -> (
    Option<nat>,
    nat,
)
    decreases subs.len() - k,
{
    if k >= subs.len() || ptr >= words.len() {
        (None, ptr)
    } else if subs[k as int].name@ == words[ptr as int]@ {
        (Some(k), ptr + 1)
    } else {
        matched_sub(words, ptr + 1, subs, k + 1)
    }
}

/// The words from `from` on, each read as a value of `arg`; nothing if one
/// of them cannot be read.
pub open spec fn read_rest(arg: Argument, words: Seq<String>, from: nat) -> Option<
    Seq<ArgumentWithData>,
>
    decreases words.len() - from,
{
    if from >= words.len() {
        Some(Seq::empty())
    } else {
        match (ArgumentWithData::read(arg, words[from as int]), read_rest(arg, words, from + 1)) {
            (Ok(value), Some(rest)) => Some(seq![value] + rest),
            _ => None,
        }
    }
}

/// The values of the arguments from the `k`th on, read from the words at
/// `ptr`. An argument of size zero takes all the words that are left and
/// leaves them for the arguments after it; any other takes one word, if
/// there is one. Nothing if one word cannot be read as its argument asks.
pub open spec fn collected(words: Seq<String>, ptr: nat, args: Seq<Argument>, k: nat) -> Option<
    Seq<ArgumentWithData>,
>
    decreases args.len() - k,
{
    if k >= args.len() {
        Some(Seq::empty())
    } else if args[k as int].metadata().size == 0 {
        match (read_rest(args[k as int], words, ptr), collected(words, ptr, args, k + 1)) {
            (Some(values), Some(rest)) => Some(values + rest),
            _ => None,
        }
    } else if ptr < words.len() {
        match (
            ArgumentWithData::read(args[k as int], words[ptr as int]),
            collected(words, ptr + 1, args, k + 1),
        ) {
            (Ok(value), Some(rest)) => Some(seq![value] + rest),
            _ => None,
        }
    } else {
        collected(words, ptr, args, k + 1)
    }
}

/// The values of a command's arguments, read from the words at `ptr`.
pub open spec fn arguments_read(words: Seq<String>, ptr: nat, args: Option<Vec<Argument>>) -> Option<
    Seq<ArgumentWithData>,
> {
    match args {
        Some(a) => collected(words, ptr, a@, 0),
        None => None,
    }
}

/// The command `c` as the words from `ptr` on invoke it: the subcommand they
/// name, invoked by the words that follow, and the values of the command's
/// arguments, read from the words behind those spent on the subcommand.
pub open spec fn invoked(words: Seq<String>, ptr: nat, c: Command) -> Invocation
    decreases c,
{
    match c.subcommands {
        Some(subs) => {
            let (at, after) = matched_sub(words, ptr, subs@, 0);
            Invocation {
                name: c.name,
                subcommand: match at {
                    Some(k) => if k < subs.len() {
                        Some(Box::new(invoked(words, after, subs[k as int])))
                    } else {
                        None
                    },
                    None => None,
                },
                arguments: arguments_read(words, after, c.arguments),
            }
        },
        None => Invocation {
            name: c.name,
            subcommand: None,
            arguments: arguments_read(words, ptr, c.arguments),
        },
    }
}

/// Finds the subcommand that the words at `ptr` name.
fn match_sub(t: &TextCommand, ptr: usize, subs: &Vec<Command>) -> (r: (Option<usize>, usize))
    ensures
        matched_sub(t.strings(), ptr as nat, subs@, 0).1 == r.1,
        match matched_sub(t.strings(), ptr as nat, subs@, 0).0 {
            Some(k) => r.0 == Some(k as usize) && k < subs@.len(),
            None => r.0.is_none(),
        },
{
    let mut k: usize = 0;
    let mut p: usize = ptr;
    let n: usize = t.len();
    while k < subs.len()
        invariant
            k <= subs@.len(),
            n == t.strings().len(),
            matched_sub(t.strings(), ptr as nat, subs@, 0) == matched_sub(
                t.strings(),
                p as nat,
                subs@,
                k as nat,
            ),
        decreases subs@.len() - k,
    {
        match t.word(p) {
            Some(word) => {
                if same_text(subs[k].name.as_str(), word.as_str()) {
                    return (Some(k), p + 1);
                }
                p = p + 1;
            },
            None => {
                return (None, p);
            },
        }
        k = k + 1;
    }
    (None, p)
}

/// Reads every word from `from` on as a value of `arg` and adds the values
/// to `values`. Answers whether all of them could be read.
fn read_words(arg: &Argument, t: &TextCommand, from: usize, values: &mut Vec<ArgumentWithData>) -> (ok:
    bool)
    ensures
        match read_rest(*arg, t.strings(), from as nat) {
            Some(rest) => ok && final(values)@ == old(values)@ + rest,
            None => !ok,
        },
{
    let mut i: usize = from;
    let n: usize = t.len();
    while i < n
        invariant
            n == t.strings().len(),
            from <= i,
            match read_rest(*arg, t.strings(), i as nat) {
                Some(rest) => read_rest(*arg, t.strings(), from as nat) == Some(
                    (values@ + rest).skip(old(values)@.len() as int),
                ) && old(values)@ == (values@ + rest).take(old(values)@.len() as int),
                None => read_rest(*arg, t.strings(), from as nat).is_none(),
            },
            old(values)@.len() <= values@.len(),
        decreases n - i,
    {
        let word: String = t.word(i).unwrap();
        let ghost before = values@;
        match ArgumentWithData::new(arg, word) {
            Ok(value) => {
                values.push(value);
                proof {
                    match read_rest(*arg, t.strings(), (i + 1) as nat) {
                        Some(rest) => {
                            assert(before + (seq![value] + rest) =~= values@ + rest);
                        },
                        None => {},
                    }
                }
            },
            Err(_) => {
                return false;
            },
        }
        i = i + 1;
    }
    proof {
        let rest = read_rest(*arg, t.strings(), i as nat).unwrap();
        assert(rest =~= Seq::<ArgumentWithData>::empty());
        assert(values@ + rest =~= values@);
        let whole = read_rest(*arg, t.strings(), from as nat).unwrap();
        assert(values@ =~= old(values)@ + whole);
    }
    true
}

/// Reads the values of the arguments from the words at `ptr`.
fn collect(t: &TextCommand, ptr: usize, args: &Vec<Argument>) -> (r: Option<Vec<ArgumentWithData>>)
    ensures
        match collected(t.strings(), ptr as nat, args@, 0) {
            Some(values) => r.is_some() && r.unwrap()@ == values,
            None => r.is_none(),
        },
{
    let mut values: Vec<ArgumentWithData> = Vec::new();
    let mut k: usize = 0;
    let mut p: usize = ptr;
    let n: usize = t.len();
    while k < args.len()
        invariant
            k <= args@.len(),
            n == t.strings().len(),
            match collected(t.strings(), p as nat, args@, k as nat) {
                Some(rest) => collected(t.strings(), ptr as nat, args@, 0) == Some(values@ + rest),
                None => collected(t.strings(), ptr as nat, args@, 0).is_none(),
            },
        decreases args@.len() - k,
    {
        let ghost before = values@;
        if args[k].width() == 0 {
            let ok: bool = read_words(&args[k], t, p, &mut values);
            if !ok {
                return None;
            }
            proof {
                let read = read_rest(args@[k as int], t.strings(), p as nat).unwrap();
                match collected(t.strings(), p as nat, args@, (k + 1) as nat) {
                    Some(rest) => {
                        assert(before + (read + rest) =~= values@ + rest);
                    },
                    None => {},
                }
            }
        } else {
            match t.word(p) {
                Some(word) => {
                    match ArgumentWithData::new(&args[k], word) {
                        Ok(value) => {
                            values.push(value);
                            proof {
                                match collected(
                                    t.strings(),
                                    (p + 1) as nat,
                                    args@,
                                    (k + 1) as nat,
                                ) {
                                    Some(rest) => {
                                        assert(before + (seq![value] + rest) =~= values@ + rest);
                                    },
                                    None => {},
                                }
                            }
                            p = p + 1;
                        },
                        Err(_) => {
                            return None;
                        },
                    }
                },
                None => {},
            }
        }
        k = k + 1;
    }
    proof {
        assert(values@ + Seq::<ArgumentWithData>::empty() =~= values@);
    }
    Some(values)
}

impl CommandWithData {
    /// The mathematical content: the values of the arguments as a sequence,
    /// the subcommand likewise.
    pub open spec fn model(self) -> Invocation
        decreases self,
    {
        Invocation {
            name: self.name,
            subcommand: match self.subcommand {
                Some(sub) => Some(Box::new(sub.model())),
                None => None,
            },
            arguments: match self.arguments {
                Some(values) => Some(values@),
                None => None,
            },
        }
    }

    /// Reads the command `c` as the words of `t` from `ptr` on invoke it.
    pub fn read(t: &TextCommand, ptr: usize, c: &Command) -> (r: CommandWithData)
        ensures
            r.model() == invoked(t.strings(), ptr as nat, *c),
        decreases c,
    {
        let mut after: usize = ptr;
        let mut subcommand: Option<Box<CommandWithData>> = None;
        match &c.subcommands {
            Some(subs) => {
                let (at, p) = match_sub(t, ptr, subs);
                after = p;
                match at {
                    Some(k) => {
                        subcommand = Some(Box::new(CommandWithData::read(t, p, &subs[k])));
                    },
                    None => {},
                }
            },
            None => {},
        }
        let arguments: Option<Vec<ArgumentWithData>> = match &c.arguments {
            Some(args) => collect(t, after, args),
            None => None,
        };
        CommandWithData { name: c.name.clone(), subcommand, arguments }
    }

    /// Reads the command `c` as the words of `t` behind its cursor invoke
    /// it. Every command can be read: where a word does not fit the argument
    /// that it is meant for, the command comes out without arguments.
    pub fn new(t: TextCommand, c: Command) -> (r: Result<CommandWithData, ParseError>)
        ensures
            r.is_ok(),
            r.unwrap().model() == invoked(t.strings(), t.cursor(), c),
    {
        Ok(CommandWithData::read(&t, t.position(), &c))
    }
}

} // verus!
