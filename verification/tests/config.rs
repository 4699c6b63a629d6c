use guild_queue::config::{Reminder, ServerConfig};
use std::time::Duration;

#[test]
fn new_config_has_default_prefix_and_nothing_set() {
    let c = ServerConfig::new();
    assert_eq!(c.prefix(), "~");
    assert!(c.channels.log.is_none());
    assert!(c.channels.spam.is_none());
    assert!(c.channels.significant_reactions.is_none());
    assert!(c.reaction_roles.is_none());
    assert!(c.reminders.is_none());
    assert!(c.mute_role.is_none());
    assert!(c.blacklisted_words.is_none());
    assert!(c.auto_responses.is_none());
    assert!(c.auto_reacts.is_none());
    assert!(c.significant_reaction_count.is_none());
}

#[test]
fn set_prefix_changes_only_the_prefix() {
    let mut c = ServerConfig::new();
    c.mute_role = Some(9);
    c.set_prefix("!!");
    assert_eq!(c.prefix(), "!!");
    assert_eq!(c.mute_role, Some(9));
    c.set_prefix("");
    assert_eq!(c.prefix(), "");
}

#[test]
fn reminder_clone_keeps_fields() {
    let r = Reminder {
        begin: Duration::from_secs(1),
        end: Duration::from_secs(5),
        message: String::from("tea"),
    };
    let s = r.clone();
    assert_eq!(s.begin, Duration::from_secs(1));
    assert_eq!(s.end, Duration::from_secs(5));
    assert_eq!(s.message, "tea");
}

#[test]
fn generate_configs_adds_missing_guilds_only() {
    let mut configs: guild_queue::registry::Registry<ServerConfig> =
        guild_queue::registry::Registry::new();
    let mut custom = ServerConfig::new();
    custom.set_prefix("!");
    assert!(configs.create_if_absent(2, custom));
    guild_queue::config::servers::generate_configs(&mut configs, &vec![1, 2, 3, 1]);
    assert_eq!(configs.guilds(), vec![2, 1, 3]);
    assert_eq!(configs.get(2).unwrap().prefix(), "!");
    assert_eq!(configs.get(1).unwrap().prefix(), "~");
    assert_eq!(configs.get(3).unwrap().prefix(), "~");
    assert!(configs.get(1).unwrap().mute_role.is_none());
}
