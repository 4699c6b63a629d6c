//! The command that sets the prefix of a guild.

use crate::commands::music::string_argument;
use crate::commands::music::text_at;
use crate::config::servers::ServerConfig;
use crate::parser::command::CommandWithData;
use vstd::prelude::*;

verus! {

/// Sets the guild's prefix to the command's first word and answers with the
/// news. Without a word nothing changes and nothing is answered.
pub fn prefix(config: &mut ServerConfig, c: &CommandWithData) -> (content: Option<String>)
    ensures
        match text_at(*c, 0) {
            Some(pfx) => {
                &&& final(config).custom_prefix() == Some(pfx@)
                &&& content matches Some(text) && text@ == "Changed prefix to `"@ + pfx@ + "`."@
            },
            None => final(config).prefix == old(config).prefix && content.is_none(),
        },
        final(config).channels == old(config).channels,
        final(config).reaction_roles == old(config).reaction_roles,
        final(config).reminders == old(config).reminders,
        final(config).mute_role == old(config).mute_role,
        final(config).blacklisted_words == old(config).blacklisted_words,
        final(config).auto_responses == old(config).auto_responses,
        final(config).auto_reacts == old(config).auto_reacts,
        final(config).significant_reaction_count == old(config).significant_reaction_count,
{
    match string_argument(c, 0) {
        Some(pfx) => {
            config.set_prefix(pfx.as_str());
            let mut text: String = String::from_str("Changed prefix to `");
            text.append(pfx.as_str());
            text.append("`.");
            Some(text)
        },
        None => None,
    }
}

} // verus!
