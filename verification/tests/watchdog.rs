use guild_queue::queue::{Probe, Queue, Transition};
use guild_queue::watchdog::{
    count_listeners, get_done_vcs, get_empty_vcs, is_listed, poll_queue, recheck, IdleAction,
    IdleWatch, Poll, VoiceMember, VoiceScan, GRACE_SECS,
};

fn human(user: u64) -> VoiceMember {
    VoiceMember { user, bot: false }
}

fn bot(user: u64) -> VoiceMember {
    VoiceMember { user, bot: true }
}

#[test]
fn poll_is_due_when_over_and_not_last() {
    assert!(Poll { guild: 1, over: true, pos: 0, len: 2 }.is_due());
    assert!(!Poll { guild: 1, over: true, pos: 1, len: 2 }.is_due());
    assert!(!Poll { guild: 1, over: false, pos: 0, len: 2 }.is_due());
    assert!(!Poll { guild: 1, over: true, pos: 0, len: 0 }.is_due());
    assert!(!Poll { guild: 1, over: true, pos: usize::MAX, len: 3 }.is_due());
}

#[test]
fn done_vcs_keep_scan_order() {
    let polls = vec![
        Poll { guild: 4, over: true, pos: 0, len: 3 },
        Poll { guild: 9, over: true, pos: 2, len: 3 },
        Poll { guild: 2, over: false, pos: 0, len: 3 },
        Poll { guild: 7, over: true, pos: 1, len: 3 },
    ];
    assert_eq!(get_done_vcs(&polls), vec![4, 7]);
    assert_eq!(get_done_vcs(&Vec::new()), Vec::<u64>::new());
}

#[test]
fn poll_queue_reads_queue_state() {
    let mut q: Queue<&'static str, u32> = Queue::new(None, None, None);
    q.push("A");
    q.push("B");
    q.set_current_track(1, None);
    assert_eq!(poll_queue(3, &q, Probe::Done), Poll { guild: 3, over: true, pos: 0, len: 2 });
    assert_eq!(poll_queue(3, &q, Probe::Failed), Poll { guild: 3, over: false, pos: 0, len: 2 });
}

#[test]
fn watchdog_does_not_advance_past_last_track() {
    let mut q: Queue<&'static str, u32> = Queue::new(None, None, None);
    q.push("A");
    q.push("B");
    q.push("C");
    assert!(q.goto(2).is_ok());
    q.set_current_track(1, None);
    let polls = vec![poll_queue(1, &q, Probe::Done)];
    assert_eq!(get_done_vcs(&polls), Vec::<u64>::new());
    assert_eq!(q.advance(Probe::Done), Transition::Keep);
    assert_eq!(q.pos(), 2);
    assert_eq!(q.tracks(), &vec!["A", "B", "C"]);
}

#[test]
fn listeners_are_the_members_that_are_no_bots() {
    assert_eq!(count_listeners(&vec![]), 0);
    assert_eq!(count_listeners(&vec![bot(1), bot(2)]), 0);
    assert_eq!(count_listeners(&vec![bot(1), human(2), human(3), bot(4)]), 2);
}

#[test]
fn empty_vcs_are_bound_channels_without_listeners() {
    let scans = vec![
        VoiceScan { guild: 1, members: Some(vec![bot(10)]) },
        VoiceScan { guild: 2, members: None },
        VoiceScan { guild: 3, members: Some(vec![bot(10), human(11)]) },
        VoiceScan { guild: 4, members: Some(vec![]) },
    ];
    assert!(scans[0].is_deserted());
    assert!(!scans[1].is_deserted());
    assert!(!scans[2].is_deserted());
    assert_eq!(get_empty_vcs(&scans), vec![1, 4]);
}

#[test]
fn recheck_leaves_only_when_still_empty_and_queue_exists() {
    assert_eq!(recheck(1, &vec![2, 1], true), IdleAction::Leave);
    assert_eq!(recheck(1, &vec![2], true), IdleAction::Nothing);
    assert_eq!(recheck(1, &vec![2, 1], false), IdleAction::Nothing);
    assert_eq!(recheck(1, &vec![], true), IdleAction::Nothing);
    assert!(is_listed(&vec![2, 1], 1));
    assert!(!is_listed(&vec![2, 1], 3));
}

#[test]
fn idle_watch_schedules_one_recheck_per_guild() {
    assert_eq!(GRACE_SECS, 60);
    let mut w = IdleWatch::new();
    assert!(!w.is_pending(1));
    assert!(w.flag(1, 100));
    assert!(!w.flag(1, 130));
    assert!(w.is_pending(1));
    assert!(!w.take_if_due(1, 159));
    assert!(w.is_pending(1));
    assert!(w.take_if_due(1, 160));
    assert!(!w.is_pending(1));
    assert!(!w.take_if_due(1, 500));
    assert!(w.flag(1, 500));
    assert!(w.cancel(1));
    assert!(!w.cancel(1));
    assert!(!w.is_pending(1));
}

#[test]
fn idle_watch_grace_saturates() {
    let mut w = IdleWatch::new();
    assert!(w.flag(1, u64::MAX - 3));
    assert!(!w.take_if_due(1, u64::MAX - 1));
    assert!(w.take_if_due(1, u64::MAX));
}

#[test]
fn member_rejoining_within_grace_prevents_leave() {
    let mut w = IdleWatch::new();
    let gone = vec![VoiceScan { guild: 8, members: Some(vec![bot(1)]) }];
    let flagged = get_empty_vcs(&gone);
    assert_eq!(flagged, vec![8]);
    assert!(w.flag(8, 0));
    assert!(!w.take_if_due(8, 30));
    let back = vec![VoiceScan { guild: 8, members: Some(vec![bot(1), human(2)]) }];
    assert!(w.take_if_due(8, 60));
    let still_empty = get_empty_vcs(&back);
    assert_eq!(recheck(8, &still_empty, true), IdleAction::Nothing);
}

#[test]
fn member_staying_away_leads_to_leave() {
    let mut w = IdleWatch::new();
    let gone = vec![VoiceScan { guild: 8, members: Some(vec![bot(1)]) }];
    assert!(w.flag(8, 0));
    assert!(w.take_if_due(8, 60));
    assert_eq!(recheck(8, &get_empty_vcs(&gone), true), IdleAction::Leave);
}

#[test]
fn take_due_hands_out_ripe_rechecks_in_order() {
    let mut w = IdleWatch::new();
    assert!(w.flag(3, 0));
    assert!(w.flag(1, 10));
    assert!(w.flag(2, 5));
    assert_eq!(w.pending_guilds(), vec![3, 1, 2]);
    assert_eq!(w.take_due(59), Vec::<u64>::new());
    assert_eq!(w.take_due(65), vec![3, 2]);
    assert_eq!(w.pending_guilds(), vec![1]);
    assert!(!w.is_pending(3));
    assert!(w.is_pending(1));
    assert_eq!(w.take_due(70), vec![1]);
    assert_eq!(w.take_due(1000), Vec::<u64>::new());
}
