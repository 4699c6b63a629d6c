//! Commands of general use.

use crate::commands::music::string_argument;
use crate::commands::music::text_at;
use crate::parser::command::CommandWithData;
use crate::tracklist::decimal;
use crate::tracklist::decimal_text;
use vstd::prelude::*;

verus! {

/// The answer to a ping: the command's first word, or "Pong!" in its place,
/// and the second `now` at which the command was processed, as a relative
/// time stamp.
pub open spec fn ping_reply(c: CommandWithData, now: u64) -> Seq<char> {
    (match text_at(c, 0) {
        Some(t) => t@,
        None => "Pong!"@,
    }) + " - processed <t:"@ + decimal(now as nat) + ":R>"@
}

/// Answers a ping that was processed at second `now` of the epoch.
pub fn ping(c: &CommandWithData, now: u64) -> (content: String)
    ensures
        content@ == ping_reply(*c, now),
{
    let mut content: String = match string_argument(c, 0) {
        Some(t) => t,
        None => String::from_str("Pong!"),
    };
    content.append(" - processed <t:");
    content.append(decimal_text(now).as_str());
    content.append(":R>");
    content
}

} // verus!
