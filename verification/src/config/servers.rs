//! The configuration of one guild. A setting that is absent switches the
//! behaviour it belongs to off.

use crate::registry::Registry;
use std::collections::HashMap;
use std::time::Duration;
use vstd::prelude::*;

verus! {

/// `Duration` is a `Copy` type: its clone is the value itself.
pub assume_specification[ <Duration as Clone>::clone ](d: &Duration) -> (r: Duration)
    ensures
        r == *d,
;

/// A message to send to a user once a span of time has run out.
#[derive(Clone)]
pub struct Reminder {
    pub begin: Duration,
    pub end: Duration,
    pub message: String,
}

/// The channels that serve a special purpose in a guild.
#[derive(Clone)]
pub struct ChannelSet {
    pub log: Option<u64>,
    pub spam: Option<u64>,
    /// For each emoji, the channel where messages that gathered enough of it
    /// are reposted.
    pub significant_reactions: Option<HashMap<u64, u64>>,
}

/// The configuration of one guild.
#[derive(Clone)]
pub struct ServerConfig {
    /// The prefix that commands begin with; absent, it is "~".
    pub prefix: Option<String>,
    pub channels: ChannelSet,
    /// The role that a reaction with an emoji to a message grants.
    pub reaction_roles: Option<HashMap<(u64, u64), u64>>,
    pub reminders: Option<HashMap<u64, Vec<Reminder>>>,
    pub mute_role: Option<u64>,
    pub blacklisted_words: Option<Vec<String>>,
    pub auto_responses: Option<HashMap<String, String>>,
    pub auto_reacts: Option<HashMap<String, u64>>,
    pub significant_reaction_count: Option<u32>,
}

impl ServerConfig {
    /// The prefix that was set, if any.
    pub open spec fn custom_prefix(&self) -> Option<Seq<char>> {
        match self.prefix {
            Some(p) => Some(p@),
            None => None,
        }
    }

    /// The prefix that commands begin with: the one that was set, or "~".
    pub open spec fn effective_prefix(&self) -> Seq<char> {
        match self.custom_prefix() {
            Some(p) => p,
            None => "~"@,
        }
    }

    /// Nothing is set.
    pub open spec fn is_blank(&self) -> bool {
        &&& self.prefix.is_none()
        &&& self.channels.log.is_none()
        &&& self.channels.spam.is_none()
        &&& self.channels.significant_reactions.is_none()
        &&& self.reaction_roles.is_none()
        &&& self.reminders.is_none()
        &&& self.mute_role.is_none()
        &&& self.blacklisted_words.is_none()
        &&& self.auto_responses.is_none()
        &&& self.auto_reacts.is_none()
        &&& self.significant_reaction_count.is_none()
    }

    /// A configuration with nothing set.
    pub fn new() -> (c: ServerConfig)
        ensures
            c.is_blank(),
    {
        ServerConfig {
            prefix: None,
            channels: ChannelSet { log: None, spam: None, significant_reactions: None },
            reaction_roles: None,
            reminders: None,
            mute_role: None,
            blacklisted_words: None,
            auto_responses: None,
            auto_reacts: None,
            significant_reaction_count: None,
        }
    }

    /// The prefix that commands begin with.
    pub fn prefix(&self) -> (p: String)
        ensures
            p@ == self.effective_prefix(),
    {
        match &self.prefix {
            Some(p) => p.clone(),
            None => String::from_str("~"),
        }
    }

    /// Sets the prefix that commands begin with; nothing else changes.
    pub fn set_prefix(&mut self, pfx: &str)
        ensures
            final(self).custom_prefix() == Some(pfx@),
            final(self).channels == old(self).channels,
            final(self).reaction_roles == old(self).reaction_roles,
            final(self).reminders == old(self).reminders,
            final(self).mute_role == old(self).mute_role,
            final(self).blacklisted_words == old(self).blacklisted_words,
            final(self).auto_responses == old(self).auto_responses,
            final(self).auto_reacts == old(self).auto_reacts,
            final(self).significant_reaction_count == old(self).significant_reaction_count,
    {
        self.prefix = Some(String::from_str(pfx));
    }
}

/// Gives every guild of `guilds` that has no configuration yet one with
/// nothing set. Configurations that exist stay as they are.
pub fn generate_configs(configs: &mut Registry<ServerConfig>, guilds: &Vec<u64>)
    requires
        old(configs).wf(),
    ensures
        final(configs).wf(),
        forall|g: u64|
            final(configs)@.contains_key(g) <==> (old(configs)@.contains_key(g) || guilds@.contains(
                g,
            )),
        forall|g: u64|
            old(configs)@.contains_key(g) ==> final(configs)@.contains_key(g) && final(configs)@[g]
                == old(configs)@[g],
        forall|g: u64|
            guilds@.contains(g) && !old(configs)@.contains_key(g) ==> final(configs)@.contains_key(g)
                && #[trigger] final(configs)@[g].is_blank(),
{
    let mut i: usize = 0;
    while i < guilds.len()
        invariant
            i <= guilds@.len(),
            configs.wf(),
            forall|g: u64|
                configs@.contains_key(g) <==> (old(configs)@.contains_key(g) || guilds@.take(
                    i as int,
                ).contains(g)),
            forall|g: u64|
                old(configs)@.contains_key(g) ==> configs@.contains_key(g) && configs@[g] == old(
                    configs,
                )@[g],
            forall|g: u64|
                guilds@.take(i as int).contains(g) && !old(configs)@.contains_key(g)
                    ==> configs@.contains_key(g) && #[trigger] configs@[g].is_blank(),
        decreases guilds@.len() - i,
    {
        let ghost before = configs@;
        let ghost seen = guilds@.take(i as int);
        let _created: bool = configs.create_if_absent(guilds[i], ServerConfig::new());
        proof {
            let grown = guilds@.take(i + 1);
            assert(grown =~= seen.push(guilds@[i as int]));
            assert forall|g: u64| grown.contains(g) <==> (seen.contains(g) || g == guilds@[i as int]) by {
                if grown.contains(g) {
                    let k = choose|k: int| 0 <= k < grown.len() && grown[k] == g;
                    if k < seen.len() {
                        assert(seen[k] == g);
                    }
                }
                if seen.contains(g) {
                    let k = choose|k: int| 0 <= k < seen.len() && seen[k] == g;
                    assert(grown[k] == g);
                }
                if g == guilds@[i as int] {
                    assert(grown[i as int] == g);
                }
            }
        }
        i = i + 1;
    }
    assert(guilds@.take(i as int) =~= guilds@);
}

} // verus!
