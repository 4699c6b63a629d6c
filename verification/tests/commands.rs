use guild_queue::commands::config::prefix::prefix;
use guild_queue::commands::fun::{jump, jump_tosses};
use guild_queue::commands::music::{
    added_reply, insert, insert_plan, joined_reply, left_reply, next, now_playing, play_plan,
    play_query, playnext, playnext_nothing, playnext_url, prev, remove, string_argument,
    uint_argument, InsertPlan, PlayPlan,
};
use guild_queue::commands::utility::ping;
use guild_queue::commands::{dispatch, handle_message, rootcmd};
use guild_queue::config::ServerConfig;
use guild_queue::parser::{
    Argument, ArgumentMetadata, ArgumentWithData, Command, CommandWithData, CommandFn, TextCommand,
};
use guild_queue::queue::{Queue, Transition};

fn queue_of(tracks: &[&'static str], pos: usize) -> Queue<&'static str, u32> {
    let mut q: Queue<&'static str, u32> = Queue::new(None, None, Some(7));
    for t in tracks {
        q.push(*t);
    }
    if !tracks.is_empty() {
        assert!(q.goto(pos).is_ok());
        q.set_current_track(1, None);
    }
    q
}

fn cmd(name: &str, arguments: Option<Vec<ArgumentWithData>>) -> CommandWithData {
    CommandWithData { name: String::from(name), subcommand: None, arguments }
}

fn text(t: &str) -> ArgumentWithData {
    ArgumentWithData::String(String::from(t))
}

#[test]
fn root_command_lists_every_command() {
    let root = rootcmd();
    assert_eq!(root.name, "cta");
    assert_eq!(root.function, None);
    assert_eq!(root.arguments, Some(vec![]));
    let subs = root.subcommands.as_ref().unwrap();
    let names: Vec<&str> = subs.iter().map(|c| c.name.as_str()).collect();
    assert_eq!(
        names,
        vec![
            "ping", "jump", "join", "leave", "pause", "unpause", "play", "playnext", "next",
            "prev", "queue", "remove", "insert"
        ]
    );
    let handlers: Vec<Option<CommandFn>> = subs.iter().map(|c| c.function).collect();
    assert_eq!(
        handlers,
        vec![
            Some(CommandFn::Ping),
            Some(CommandFn::Jump),
            Some(CommandFn::Join),
            Some(CommandFn::Leave),
            Some(CommandFn::Pause),
            Some(CommandFn::Unpause),
            Some(CommandFn::Play),
            Some(CommandFn::PlayNext),
            Some(CommandFn::Next),
            Some(CommandFn::Prev),
            Some(CommandFn::Queue),
            Some(CommandFn::Remove),
            Some(CommandFn::Insert)
        ]
    );
    assert_eq!(
        subs[12].arguments,
        Some(vec![
            Argument::UInt(ArgumentMetadata { label: String::from("index"), size: 1 }),
            Argument::String(ArgumentMetadata { label: String::from("song"), size: 0 }),
        ])
    );
    assert_eq!(
        subs[0].arguments,
        Some(vec![Argument::String(ArgumentMetadata { label: String::from("text"), size: 0 })])
    );
    assert_eq!(subs[2].arguments, Some(vec![]));
    assert_eq!(subs[2].subcommands, Some(vec![]));
}

#[test]
fn find_command_takes_first_match() {
    let root = rootcmd();
    assert_eq!(root.find_command("play").map(|c| c.function), Some(Some(CommandFn::Play)));
    assert_eq!(root.find_command("playnext").map(|c| c.function), Some(Some(CommandFn::PlayNext)));
    assert!(root.find_command("nope").is_none());
    assert!(root.find_command("").is_none());
    let twice = Command::new(
        String::from("r"),
        None,
        vec![
            Command::new(String::from("x"), Some(CommandFn::Ping), vec![], vec![]),
            Command::new(String::from("x"), Some(CommandFn::Jump), vec![], vec![]),
        ],
        vec![],
    );
    assert_eq!(twice.find_command("x").map(|c| c.function), Some(Some(CommandFn::Ping)));
    let bare = Command { name: String::from("b"), function: None, subcommands: None, arguments: None };
    assert!(bare.find_command("x").is_none());
}

#[test]
fn message_invokes_command_with_arguments() {
    let root = rootcmd();
    let call = handle_message(&root, "~", "~insert 2 never gonna").unwrap();
    assert_eq!(call.handler, CommandFn::Insert);
    assert_eq!(call.command.name, "insert");
    assert_eq!(call.command.subcommand, None);
    assert_eq!(
        call.command.arguments,
        Some(vec![ArgumentWithData::UInt(2), text("never"), text("gonna")])
    );
}

#[test]
fn message_without_prefix_or_command_invokes_nothing() {
    let root = rootcmd();
    assert!(handle_message(&root, "~", "insert 2 x").is_none());
    assert!(handle_message(&root, "~", "").is_none());
    assert!(handle_message(&root, "~", "   ").is_none());
    assert!(handle_message(&root, "~", "~dance").is_none());
    assert!(handle_message(&root, "!!", "~play x").is_none());
    assert!(handle_message(&root, "!!", "!!play x").is_some());
    assert!(dispatch(&root, "~", TextCommand::from_words(vec![])).is_none());
}

#[test]
fn argument_that_does_not_parse_drops_all_arguments() {
    let root = rootcmd();
    let call = handle_message(&root, "~", "~remove two").unwrap();
    assert_eq!(call.handler, CommandFn::Remove);
    assert_eq!(call.command.arguments, None);
    let call = handle_message(&root, "~", "~remove").unwrap();
    assert_eq!(call.command.arguments, Some(vec![]));
    let call = handle_message(&root, "~", "~remove 3 4").unwrap();
    assert_eq!(call.command.arguments, Some(vec![ArgumentWithData::UInt(3)]));
}

#[test]
fn subcommands_are_matched_word_by_word() {
    let leaf = |name: &str| {
        Command::new(
            String::from(name),
            Some(CommandFn::Ping),
            vec![],
            vec![Argument::UInt(ArgumentMetadata { label: String::from("n"), size: 1 })],
        )
    };
    let c = Command::new(String::from("top"), None, vec![leaf("a"), leaf("b")], vec![]);
    let t = TextCommand::from_words(vec![String::from("x"), String::from("b"), String::from("5")]);
    let d = CommandWithData::new(t, c).unwrap();
    assert_eq!(d.name, "top");
    let sub = d.subcommand.unwrap();
    assert_eq!(sub.name, "b");
    assert_eq!(sub.arguments, Some(vec![ArgumentWithData::UInt(5)]));
    assert_eq!(d.arguments, Some(vec![]));

    let c = Command::new(String::from("top"), None, vec![leaf("a"), leaf("b")], vec![]);
    let t = TextCommand::from_words(vec![String::from("b"), String::from("a")]);
    let d = CommandWithData::new(t, c).unwrap();
    assert_eq!(d.subcommand, None);
}

#[test]
fn read_starts_at_given_word() {
    let root = rootcmd();
    let play = root.find_command("play").unwrap();
    let t = TextCommand::new("~play a b");
    let d = CommandWithData::read(&t, 1, play);
    assert_eq!(d.arguments, Some(vec![text("a"), text("b")]));
    let d = CommandWithData::read(&t, 9, play);
    assert_eq!(d.arguments, Some(vec![]));
}

#[test]
fn arguments_are_picked_by_place_and_kind() {
    let c = cmd("x", Some(vec![ArgumentWithData::UInt(3), text("s")]));
    assert_eq!(uint_argument(&c, 0), Some(3));
    assert_eq!(uint_argument(&c, 1), None);
    assert_eq!(uint_argument(&c, 2), None);
    assert_eq!(string_argument(&c, 1), Some(String::from("s")));
    assert_eq!(string_argument(&c, 0), None);
    assert_eq!(uint_argument(&cmd("x", None), 0), None);
}

#[test]
fn next_moves_on_or_stops_at_end() {
    let mut q = queue_of(&["A", "B"], 0);
    assert_eq!(next(&mut q), Transition::Restart { index: 1, notify: Some(7) });
    assert_eq!(q.pos(), 1);
    q.set_current_track(2, None);
    assert_eq!(next(&mut q), Transition::Stop);
    assert_eq!(q.pos(), 1);
    assert_eq!(q.current_track(), None);
    let mut e: Queue<&'static str, u32> = Queue::new(None, None, None);
    assert_eq!(next(&mut e), Transition::Stop);
    assert_eq!(e.pos(), 0);
}

#[test]
fn prev_moves_back_or_stays_at_start() {
    let mut q = queue_of(&["A", "B"], 1);
    assert_eq!(prev(&mut q), Transition::Restart { index: 0, notify: Some(7) });
    assert_eq!(q.pos(), 0);
    q.set_current_track(2, None);
    assert_eq!(prev(&mut q), Transition::Keep);
    assert_eq!(q.pos(), 0);
    assert_eq!(q.current_track(), Some(&2));
}

#[test]
fn remove_command_counts_from_one() {
    let mut q = queue_of(&["A", "B", "C"], 0);
    let out = remove(&mut q, &cmd("remove", Some(vec![ArgumentWithData::UInt(3)])));
    assert_eq!(out.content, "Removed: 3 from the queue.");
    assert_eq!(out.transition, Transition::Keep);
    assert_eq!(q.tracks(), &vec!["A", "B"]);
    let out = remove(&mut q, &cmd("remove", Some(vec![ArgumentWithData::UInt(1)])));
    assert_eq!(out.content, "Removed: 1 from the queue.");
    assert_eq!(out.transition, Transition::Restart { index: 0, notify: Some(7) });
    assert_eq!(q.tracks(), &vec!["B"]);
}

#[test]
fn remove_command_explains_refusals() {
    let mut q = queue_of(&["A", "B"], 1);
    let out = remove(&mut q, &cmd("remove", Some(vec![])));
    assert_eq!(out.content, "You cannot remove nothing from the queue. Nice try dummy.");
    let out = remove(&mut q, &cmd("remove", None));
    assert_eq!(out.content, "You cannot remove nothing from the queue. Nice try dummy.");
    let out = remove(&mut q, &cmd("remove", Some(vec![ArgumentWithData::UInt(0)])));
    assert_eq!(out.content, "There is nothing before the queue. You cannot remove nothing.");
    let out = remove(&mut q, &cmd("remove", Some(vec![ArgumentWithData::UInt(3)])));
    assert_eq!(
        out.content,
        "Add more songs if you want to remove something from after the queue."
    );
    assert_eq!(out.transition, Transition::Keep);
    assert_eq!(q.tracks(), &vec!["A", "B"]);
    assert_eq!(q.pos(), 1);
}

#[test]
fn insert_plan_covers_every_case() {
    let both = cmd("insert", Some(vec![ArgumentWithData::UInt(2), text("url")]));
    match insert_plan(&both, 3) {
        InsertPlan::Fetch { url, number } => {
            assert_eq!(url, "url");
            assert_eq!(number, 2);
        }
        InsertPlan::Reply(r) => panic!("{}", r),
    }
    let zero = cmd("insert", Some(vec![ArgumentWithData::UInt(0), text("url")]));
    match insert_plan(&zero, 3) {
        InsertPlan::Reply(r) => assert_eq!(r, "There is no 0th position."),
        InsertPlan::Fetch { .. } => panic!("fetch"),
    }
    let no_song = cmd("insert", Some(vec![ArgumentWithData::UInt(2)]));
    match insert_plan(&no_song, 3) {
        InsertPlan::Reply(r) => assert_eq!(r, "Insert what? Insert nothing? Not possible."),
        InsertPlan::Fetch { .. } => panic!("fetch"),
    }
    let nothing = cmd("insert", Some(vec![]));
    match insert_plan(&nothing, 3) {
        InsertPlan::Reply(r) => assert_eq!(
            r,
            "You can't insert something at nothing. Perhaps you meant `insert 2 <song here>`"
        ),
        InsertPlan::Fetch { .. } => panic!("fetch"),
    }
    let swapped = cmd("insert", Some(vec![text("a"), text("b")]));
    match insert_plan(&swapped, 0) {
        InsertPlan::Reply(r) => assert_eq!(
            r,
            "You can't insert something at nothing. Perhaps you meant `insert 4294967295 b`"
        ),
        InsertPlan::Fetch { .. } => panic!("fetch"),
    }
}

#[test]
fn insert_command_counts_from_one() {
    let mut q = queue_of(&["A", "B"], 1);
    assert_eq!(insert(&mut q, "t", 1, "'x - y'"), "Inserted: ''x - y'' at 1 in the queue");
    assert_eq!(q.tracks(), &vec!["t", "A", "B"]);
    assert_eq!(q.pos(), 2);
    assert_eq!(q.current_track(), Some(&1));
    assert_eq!(insert(&mut q, "u", 40, "s"), "Inserted: 's' at 40 in the queue");
    assert_eq!(q.tracks(), &vec!["t", "A", "B", "u"]);
}

#[test]
fn playnext_inserts_behind_current() {
    let mut q = queue_of(&["A", "B", "C"], 1);
    assert_eq!(playnext(&mut q, "t", "s"), "Inserted: 's' at 3 in the queue");
    assert_eq!(q.tracks(), &vec!["A", "B", "t", "C"]);
    assert_eq!(q.pos(), 1);
    assert_eq!(playnext_nothing(), "You can't play nothing.");
    assert_eq!(playnext_url(&cmd("playnext", Some(vec![text("u"), text("v")]))), Some(String::from("u")));
    assert_eq!(playnext_url(&cmd("playnext", Some(vec![]))), None);
}

#[test]
fn play_query_joins_words() {
    assert_eq!(
        play_query(&cmd("play", Some(vec![text("never"), text("gonna"), text("give")]))),
        Some(String::from("never gonna give"))
    );
    assert_eq!(play_query(&cmd("play", Some(vec![text("one")]))), Some(String::from("one")));
    assert_eq!(play_query(&cmd("play", Some(vec![]))), None);
    assert_eq!(play_query(&cmd("play", None)), None);
}

#[test]
fn play_plan_appends_or_starts() {
    assert!(matches!(play_plan(true, Some(String::from("q"))), PlayPlan::Append(q) if q == "q"));
    assert!(matches!(play_plan(false, Some(String::from("q"))), PlayPlan::Start(q) if q == "q"));
    assert!(matches!(play_plan(true, None), PlayPlan::Nothing));
}

#[test]
fn replies_have_fixed_wording() {
    assert_eq!(added_reply("Band", "Song"), "Added: 'Band - Song' to Queue");
    assert_eq!(now_playing("'Band - Song'"), "Now playing: 'Band - Song'.");
    assert_eq!(joined_reply(123), "Joined: <#123>");
    assert_eq!(left_reply(true, 45), "Left: <#45>, and cleared the queue.");
    assert_eq!(left_reply(false, 45), "You are not in <#45>. FUCK YOU!");
}

#[test]
fn jump_answers_each_toss() {
    let three = cmd("jump", Some(vec![ArgumentWithData::UInt(3)]));
    assert_eq!(jump_tosses(&three), 3);
    assert_eq!(
        jump(&three, &vec![true, false, true]),
        vec![
            "YOU MADE THE JUMP!!! YOURE SO AWESOME. HERE'S THE BEEF.",
            "CONGRATULATIONS, YOU'VE DROPPED YOURSELF INTO NOOB JAIL, DUMBASS.",
            "YOU MADE THE JUMP!!! YOURE SO AWESOME. HERE'S THE BEEF.",
        ]
    );
    let dflt = cmd("jump", Some(vec![]));
    assert_eq!(jump_tosses(&dflt), 1);
    assert_eq!(jump(&dflt, &vec![false]).len(), 1);
    let ten = cmd("jump", Some(vec![ArgumentWithData::UInt(10)]));
    assert_eq!(jump_tosses(&ten), 10);
    let many = cmd("jump", Some(vec![ArgumentWithData::UInt(11)]));
    assert_eq!(jump_tosses(&many), 0);
    assert_eq!(
        jump(&many, &vec![]),
        vec!["YOU TOOK THE FIZZY LIFTING DRINKS. YOU LOSE. GOOD DAY TO YOU."]
    );
    let zero = cmd("jump", Some(vec![ArgumentWithData::UInt(0)]));
    assert_eq!(jump(&zero, &vec![]), Vec::<String>::new());
}

#[test]
fn ping_echoes_word_and_time() {
    assert_eq!(ping(&cmd("ping", Some(vec![text("hi")])), 1700000000), "hi - processed <t:1700000000:R>");
    assert_eq!(ping(&cmd("ping", Some(vec![])), 5), "Pong! - processed <t:5:R>");
    assert_eq!(ping(&cmd("ping", None), 0), "Pong! - processed <t:0:R>");
}

#[test]
fn prefix_command_sets_prefix() {
    let mut c = ServerConfig::new();
    assert_eq!(
        prefix(&mut c, &cmd("prefix", Some(vec![text("!")]))),
        Some(String::from("Changed prefix to `!`."))
    );
    assert_eq!(c.prefix(), "!");
    assert_eq!(prefix(&mut c, &cmd("prefix", Some(vec![]))), None);
    assert_eq!(c.prefix(), "!");
}
