//! Commands that work on a guild's queue.
//!
//! Each function takes the command as it was read and the queue, changes the
//! queue and answers with the text to send and with what the driver has to
//! do to the audio.

use crate::parser::argument::ArgumentWithData;
use crate::parser::command::CommandWithData;
use crate::queue::Queue;
use crate::queue::Transition;
use crate::tracklist::decimal;
use crate::tracklist::decimal_text;
use vstd::prelude::*;

verus! {

/// The value of the argument at `at`, if the command has that many.
pub open spec fn argument_at(c: CommandWithData, at: nat) -> Option<ArgumentWithData> {
    match c.arguments {
        Some(args) => if at < args@.len() {
            Some(args@[at as int])
        } else {
            None
        },
        None => None,
    }
}

/// The number at `at` among the command's arguments, if an unsigned number
/// stands there.
pub open spec fn number_at(c: CommandWithData, at: nat) -> Option<u32> {
    match argument_at(c, at) {
        Some(ArgumentWithData::UInt(n)) => Some(n),
        _ => None,
    }
}

/// The text at `at` among the command's arguments, if text stands there.
pub open spec fn text_at(c: CommandWithData, at: nat) -> Option<String> {
    match argument_at(c, at) {
        Some(ArgumentWithData::String(t)) => Some(t),
        _ => None,
    }
}

/// The number at `at` among the command's arguments.
pub fn uint_argument(c: &CommandWithData, at: usize) -> (n: Option<u32>)
    ensures
        n == number_at(*c, at as nat),
{
    match &c.arguments {
        Some(args) => if at < args.len() {
            args[at].uint()
        } else {
            None
        },
        None => None,
    }
}

/// The text at `at` among the command's arguments.
pub fn string_argument(c: &CommandWithData, at: usize) -> (t: Option<String>)
    ensures
        t == text_at(*c, at as nat),
{
    match &c.arguments {
        Some(args) => if at < args.len() {
            args[at].string()
        } else {
            None
        },
        None => None,
    }
}

/// Skips to the next track. At the last track, and in an empty queue, the
/// audio is stopped and the position stays.
pub fn next<T, H>(queue: &mut Queue<T, H>) -> (t: Transition)
    requires
        old(queue).wf(),
    ensures
        final(queue).wf(),
        final(queue).channel() == old(queue).channel(),
        final(queue).handle().is_none(),
        final(queue).handle_len().is_none(),
        old(queue)@.pos + 1 < old(queue)@.songs.len() ==> t == (Transition::Restart {
            index: (old(queue)@.pos + 1) as usize,
            notify: old(queue).channel(),
        }) && final(queue)@ == old(queue)@.goto(old(queue)@.pos + 1),
        old(queue)@.pos + 1 >= old(queue)@.songs.len() ==> t == Transition::Stop && final(queue)@
            == old(queue)@,
{
    let pos: usize = queue.pos();
    let len: usize = queue.len();
    if len == 0 || pos >= len - 1 {
        queue.stop();
        return Transition::Stop;
    }
    match queue.goto(pos + 1) {
        Ok(t) => t,
        Err(_) => Transition::Stop,
    }
}

/// Goes back to the track before the current one. At the first track nothing
/// happens.
pub fn prev<T, H>(queue: &mut Queue<T, H>) -> (t: Transition)
    requires
        old(queue).wf(),
    ensures
        final(queue).wf(),
        final(queue).channel() == old(queue).channel(),
        old(queue)@.pos > 0 ==> t == (Transition::Restart {
            index: (old(queue)@.pos - 1) as usize,
            notify: old(queue).channel(),
        }) && final(queue)@ == old(queue)@.goto((old(queue)@.pos - 1) as nat) && final(queue).handle().is_none() && final(queue).handle_len().is_none(),
        old(queue)@.pos == 0 ==> t == Transition::Keep && *final(queue) == *old(queue),
{
    let pos: usize = queue.pos();
    if pos == 0 {
        return Transition::Keep;
    }
    match queue.goto(pos - 1) {
        Ok(t) => t,
        Err(_) => Transition::Keep,
    }
}

/// What a command did: the text to answer with and what the driver has to do
/// to the audio.
pub struct Outcome {
    pub content: String,
    pub transition: Transition,
}

/// The answer to a removal, by the number that the user gave; tracks are
/// numbered from one.
pub open spec fn removal_reply(number: Option<u32>, len: nat) -> Seq<char> {
    match number {
        None => "You cannot remove nothing from the queue. Nice try dummy."@,
        Some(n) => if n == 0 {
            "There is nothing before the queue. You cannot remove nothing."@
        } else if n > len {
            "Add more songs if you want to remove something from after the queue."@
        } else {
            "Removed: "@ + decimal(n as nat) + " from the queue."@
        },
    }
}

/// Whether a removal by this number takes a track out.
pub open spec fn removal_applies(number: Option<u32>, len: nat) -> bool {
    number matches Some(n) && 1 <= n <= len
}

/// Removes the track whose number, counted from one, is the command's first
/// argument. Without a number, with zero and with a number behind the end
/// the queue stays as it is and the answer says why.
pub fn remove<T, H>(queue: &mut Queue<T, H>, c: &CommandWithData) -> (out: Outcome)
    requires
        old(queue).wf(),
    ensures
        final(queue).wf(),
        final(queue).channel() == old(queue).channel(),
        out.content@ == removal_reply(number_at(*c, 0), old(queue)@.songs.len()),
        removal_applies(number_at(*c, 0), old(queue)@.songs.len()) ==> {
            let index = (number_at(*c, 0).unwrap() - 1) as nat;
            &&& final(queue)@ == old(queue)@.remove(index)
            &&& out.transition == old(queue)@.remove_transition(index, old(queue).channel())
        },
        !removal_applies(number_at(*c, 0), old(queue)@.songs.len()) ==> *final(queue) == *old(queue) && out.transition == Transition::Keep,
{
    match uint_argument(c, 0) {
        None => Outcome {
            content: String::from_str("You cannot remove nothing from the queue. Nice try dummy."),
            transition: Transition::Keep,
        },
        Some(number) => {
            if number == 0 {
                Outcome {
                    content: String::from_str(
                        "There is nothing before the queue. You cannot remove nothing.",
                    ),
                    transition: Transition::Keep,
                }
            } else if number as usize > queue.len() {
                Outcome {
                    content: String::from_str(
                        "Add more songs if you want to remove something from after the queue.",
                    ),
                    transition: Transition::Keep,
                }
            } else {
                let transition: Transition = match queue.remove(number as usize - 1) {
                    Ok(t) => t,
                    Err(_) => Transition::Keep,
                };
                let mut content: String = String::from_str("Removed: ");
                content.append(decimal_text(number as u64).as_str());
                content.append(" from the queue.");
                Outcome { content, transition }
            }
        },
    }
}

/// What an insertion has to do before the queue can change.
pub enum InsertPlan {
    /// Nothing is inserted; this is the answer.
    Reply(String),
    /// Resolve `url` to a track and its line, then insert the track as
    /// number `number`, counted from one.
    Fetch { url: String, number: u32 },
}

/// The number that the hint of an insertion without a number proposes: one
/// less than the length of the queue, in 32 bits.
pub open spec fn hint_number(len: nat) -> u32 {
    if len == 0 {
        u32::MAX
    } else {
        ((len - 1) % 0x1_0000_0000) as u32
    }
}

/// The answer to an insertion without a number.
pub open spec fn insert_hint(len: nat, url: Option<String>) -> Seq<char> {
    "You can't insert something at nothing. Perhaps you meant `insert "@ + decimal(
        hint_number(len) as nat,
    ) + " "@ + (match url {
        Some(u) => u@,
        None => "<song here>"@,
    }) + "`"@
}

/// Decides what an insertion does, from the command's number and text.
pub fn insert_plan(c: &CommandWithData, len: usize) -> (plan: InsertPlan)
    ensures
        match (number_at(*c, 0), text_at(*c, 1)) {
            (None, url) => plan matches InsertPlan::Reply(content) && content@ == insert_hint(
                len as nat,
                url,
            ),
            (Some(n), Some(url)) => if n == 0 {
                plan matches InsertPlan::Reply(content) && content@ == "There is no 0th position."@
            } else {
                plan == (InsertPlan::Fetch { url, number: n })
            },
            (Some(n), None) => plan matches InsertPlan::Reply(content) && content@ == if n == 0 {
                "There is no 0th position."@
            } else {
                "Insert what? Insert nothing? Not possible."@
            },
        },
{
    let url: Option<String> = string_argument(c, 1);
    match uint_argument(c, 0) {
        None => {
            let hint: u64 = if len == 0 {
                0xffff_ffff
            } else {
                (len as u64 - 1) % 0x1_0000_0000
            };
            let mut content: String = String::from_str(
                "You can't insert something at nothing. Perhaps you meant `insert ",
            );
            content.append(decimal_text(hint).as_str());
            content.append(" ");
            match &url {
                Some(u) => content.append(u.as_str()),
                None => content.append("<song here>"),
            }
            content.append("`");
            InsertPlan::Reply(content)
        },
        Some(number) => {
            if number == 0 {
                InsertPlan::Reply(String::from_str("There is no 0th position."))
            } else {
                match url {
                    Some(u) => InsertPlan::Fetch { url: u, number },
                    None => InsertPlan::Reply(
                        String::from_str("Insert what? Insert nothing? Not possible."),
                    ),
                }
            }
        },
    }
}

/// The answer to an insertion that took place.
pub open spec fn inserted_reply(song: Seq<char>, number: nat) -> Seq<char> {
    "Inserted: '"@ + song + "' at "@ + decimal(number) + " in the queue"@
}

/// Inserts `track` as number `number`, counted from one, and answers with
/// its line `song`. The audio goes on undisturbed.
pub fn insert<T, H>(queue: &mut Queue<T, H>, track: T, number: u32, song: &str) -> (content: String)
    requires
        old(queue).wf(),
        number >= 1,
    ensures
        final(queue).wf(),
        final(queue)@ == old(queue)@.insert(track, (number - 1) as nat),
        final(queue).handle() == old(queue).handle(),
        final(queue).handle_len() == old(queue).handle_len(),
        final(queue).channel() == old(queue).channel(),
        content@ == inserted_reply(song@, number as nat),
{
    queue.insert(track, number as usize - 1);
    let mut content: String = String::from_str("Inserted: '");
    content.append(song);
    content.append("' at ");
    content.append(decimal_text(number as u64).as_str());
    content.append(" in the queue");
    content
}

/// The address of the track that a play-next command names, if it names
/// one.
pub fn playnext_url(c: &CommandWithData) -> (url: Option<String>)
    ensures
        url == text_at(*c, 0),
{
    string_argument(c, 0)
}

/// Inserts `track` directly behind the current track and answers with its
/// line `song` and the number, counted from one, at which it now stands.
pub fn playnext<T, H>(queue: &mut Queue<T, H>, track: T, song: &str) -> (content: String)
    requires
        old(queue).wf(),
    ensures
        final(queue).wf(),
        final(queue)@ == old(queue)@.insert(track, old(queue)@.pos + 1),
        final(queue).handle() == old(queue).handle(),
        final(queue).handle_len() == old(queue).handle_len(),
        final(queue).channel() == old(queue).channel(),
        content@ == inserted_reply(song@, old(queue)@.pos + 2),
{
    let pos: usize = queue.pos();
    // The lengths before and after bound the position and the number shown.
    let _before: usize = queue.len();
    queue.insert(track, pos + 1);
    let _after: usize = queue.len();
    let mut content: String = String::from_str("Inserted: '");
    content.append(song);
    content.append("' at ");
    content.append(decimal_text((pos + 2) as u64).as_str());
    content.append(" in the queue");
    content
}

/// The answer where a play-next command names no track.
pub fn playnext_nothing() -> (content: String)
    ensures
        content@ == "You can't play nothing."@,
{
    String::from_str("You can't play nothing.")
}

/// Every value is text.
pub open spec fn all_text(args: Seq<ArgumentWithData>) -> bool {
    forall|i: int| 0 <= i < args.len() ==> args[i] is String
}

/// The text of a value that is text.
pub open spec fn text_of(arg: ArgumentWithData) -> Seq<char> {
    match arg {
        ArgumentWithData::String(t) => t@,
        _ => Seq::empty(),
    }
}

/// The texts of the first `n` values, with one blank between neighbours.
pub open spec fn joined(args: Seq<ArgumentWithData>, n: nat) -> Seq<char>
    recommends
        n <= args.len(),
    decreases n,
{
    if n == 0 {
        Seq::empty()
    } else if n == 1 {
        text_of(args[0])
    } else {
        joined(args, (n - 1) as nat) + " "@ + text_of(args[n - 1])
    }
}

/// What a play command asks for: the words of its arguments, joined by
/// blanks; nothing where it has no arguments.
pub fn play_query(c: &CommandWithData) -> (query: Option<String>)
    requires
        c.arguments matches Some(args) ==> all_text(args@),
    ensures
        match c.arguments {
            Some(args) => if args@.len() > 0 {
                query matches Some(q) && q@ == joined(args@, args@.len())
            } else {
                query.is_none()
            },
            None => query.is_none(),
        },
{
    match &c.arguments {
        None => None,
        Some(args) => {
            if args.len() == 0 {
                return None;
            }
            let mut query: String = String::new();
            let mut i: usize = 0;
            while i < args.len()
                invariant
                    i <= args@.len(),
                    all_text(args@),
                    query@ == joined(args@, i as nat),
                decreases args@.len() - i,
            {
                let ghost before = query@;
                if i > 0 {
                    query.append(" ");
                }
                match &args[i] {
                    ArgumentWithData::String(t) => query.append(t.as_str()),
                    _ => {},
                }
                i = i + 1;
                assert(query@ =~= joined(args@, i as nat));
            }
            Some(query)
        },
    }
}

/// What a play command does once the bot is in the voice channel.
pub enum PlayPlan {
    /// Nothing: the guild has a queue and the command names no track.
    Nothing,
    /// Resolve the query and append the track to the guild's queue.
    Append(String),
    /// Create the guild's queue, resolve the query, append the track and
    /// start it.
    Start(String),
}

/// Decides what a play command does: a guild that has a queue gets the track
/// appended, a guild that has none gets a queue that starts with it.
pub fn play_plan(has_queue: bool, query: Option<String>) -> (plan: PlayPlan)
    requires
        has_queue || query is Some,
    ensures
        plan == match (has_queue, query) {
            (true, Some(q)) => PlayPlan::Append(q),
            (true, None) => PlayPlan::Nothing,
            (false, Some(q)) => PlayPlan::Start(q),
            (false, None) => PlayPlan::Nothing,
        },
{
    match query {
        Some(q) => if has_queue {
            PlayPlan::Append(q)
        } else {
            PlayPlan::Start(q)
        },
        None => PlayPlan::Nothing,
    }
}

/// The answer to a track that was appended.
pub fn added_reply(artist: &str, title: &str) -> (content: String)
    ensures
        content@ == "Added: '"@ + artist@ + " - "@ + title@ + "' to Queue"@,
{
    let mut content: String = String::from_str("Added: '");
    content.append(artist);
    content.append(" - ");
    content.append(title);
    content.append("' to Queue");
    content
}

/// The notice that a track has started; `song` is the track's line.
pub fn now_playing(song: &str) -> (content: String)
    ensures
        content@ == "Now playing: "@ + song@ + "."@,
{
    let mut content: String = String::from_str("Now playing: ");
    content.append(song);
    content.append(".");
    content
}

/// The answer to joining the voice channel `channel`.
pub fn joined_reply(channel: u64) -> (content: String)
    ensures
        content@ == "Joined: <#"@ + decimal(channel as nat) + ">"@,
{
    let mut content: String = String::from_str("Joined: <#");
    content.append(decimal_text(channel).as_str());
    content.append(">");
    content
}

/// The answer to leaving: it names the voice channel `channel` that the user
/// is in, and says whether that is the channel that was left.
pub fn left_reply(same_channel: bool, channel: u64) -> (content: String)
    ensures
        content@ == if same_channel {
            "Left: <#"@ + decimal(channel as nat) + ">, and cleared the queue."@
        } else {
            "You are not in <#"@ + decimal(channel as nat) + ">. FUCK YOU!"@
        },
{
    if same_channel {
        let mut content: String = String::from_str("Left: <#");
        content.append(decimal_text(channel).as_str());
        content.append(">, and cleared the queue.");
        content
    } else {
        let mut content: String = String::from_str("You are not in <#");
        content.append(decimal_text(channel).as_str());
        content.append(">. FUCK YOU!");
        content
    }
}

} // verus!
