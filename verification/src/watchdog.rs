//! The decisions of the two background watchdogs.
//!
//! The completion watchdog moves a queue on when its current track has
//! finished and another follows. The idle watchdog leaves a voice channel
//! that holds no listener, after a grace period in which a listener may come
//! back. Both loops run outside; here is what they decide from what they saw.

use crate::queue::Probe;
use crate::queue::Queue;
use crate::registry::Registry;
use vstd::prelude::*;

verus! {

/// What one scan of the completion watchdog saw of a guild's queue.
#[derive(Clone, Copy, Debug, PartialEq, Eq)]
pub struct Poll {
    pub guild: u64,
    /// Whether the current track has finished.
    pub over: bool,
    pub pos: usize,
    pub len: usize,
}

impl Poll {
    /// The guild's queue is to move on: its track has finished and is not
    /// the last.
    pub open spec fn due(self) -> bool {
        self.over && self.pos + 1 < self.len
    }

    /// Whether the guild's queue is to move on.
    pub fn is_due(&self) -> (d: bool)
        ensures
            d == self.due(),
    {
        self.over && self.pos < self.len && self.pos + 1 < self.len
    }
}

/// The guild of a poll that is due, nothing of one that is not.
pub open spec fn due_guild(p: Poll) -> Option<u64> {
    if p.due() {
        Some(p.guild)
    } else {
        None
    }
}

/// Records what the driver answered about the audio of `guild`.
pub fn poll_queue<T, H>(guild: u64, queue: &Queue<T, H>, probe: Probe) -> (p: Poll)
    ensures
        p.guild == guild,
        p.over == queue.track_over(probe),
        p.pos == queue@.pos,
        p.len == queue@.songs.len(),
{
    Poll { guild, over: queue.current_track_over(probe), pos: queue.pos(), len: queue.len() }
}

/// The guilds whose queues are to move on, in the order of the scan.
pub fn get_done_vcs(polls: &Vec<Poll>) -> (guilds: Vec<u64>)
    ensures
        guilds@ == polls@.filter_map(|p: Poll| due_guild(p)),
{
    let ghost pick = |p: Poll| due_guild(p);
    let mut guilds: Vec<u64> = Vec::new();
    let mut i: usize = 0;
    while i < polls.len()
        invariant
            i <= polls@.len(),
            pick == (|p: Poll| due_guild(p)),
            guilds@ == polls@.take(i as int).filter_map(pick),
        decreases polls@.len() - i,
    {
        proof {
            polls@.lemma_filter_map_take_succ(pick, i as int);
        }
        if polls[i].is_due() {
            guilds.push(polls[i].guild);
        }
        i = i + 1;
    }
    assert(polls@.take(i as int) =~= polls@);
    guilds
}

/// Someone who is connected to a voice channel.
#[derive(Clone, Copy, Debug, PartialEq, Eq)]
pub struct VoiceMember {
    pub user: u64,
    pub bot: bool,
}

/// The members that are no bots.
pub open spec fn listeners(members: Seq<VoiceMember>) -> Seq<VoiceMember> {
    members.filter(|m: VoiceMember| !m.bot)
}

/// Counts the members that are no bots.
pub fn count_listeners(members: &Vec<VoiceMember>) -> (n: usize)
    ensures
        n == listeners(members@).len(),
{
    let ghost human = |m: VoiceMember| !m.bot;
    let mut n: usize = 0;
    let mut i: usize = 0;
    while i < members.len()
        invariant
            i <= members@.len(),
            human == (|m: VoiceMember| !m.bot),
            n == members@.take(i as int).filter(human).len(),
            n <= i,
        decreases members@.len() - i,
    {
        proof {
            assert(members@.take(i + 1) =~= members@.take(i as int).push(members@[i as int]));
            members@.take(i as int).lemma_filter_push(members@[i as int], human);
        }
        if !members[i].bot {
            n = n + 1;
        }
        i = i + 1;
    }
    assert(members@.take(i as int) =~= members@);
    n
}

/// What one scan of the idle watchdog saw of a guild: the members of the
/// voice channel that its call is bound to, or nothing where the guild has no
/// call or the call is bound to no channel.
pub struct VoiceScan {
    pub guild: u64,
    pub members: Option<Vec<VoiceMember>>,
}

impl VoiceScan {
    /// The guild's call is bound to a channel in which nobody but bots is
    /// left.
    pub open spec fn deserted(self) -> bool {
        match self.members {
            Some(members) => listeners(members@).len() == 0,
            None => false,
        }
    }

    /// Whether the guild's call is bound to a channel without listeners.
    pub fn is_deserted(&self) -> (d: bool)
        ensures
            d == self.deserted(),
    {
        match &self.members {
            Some(members) => count_listeners(members) == 0,
            None => false,
        }
    }
}

/// The guild of a scan that found a deserted channel, nothing of another.
pub open spec fn deserted_guild(s: VoiceScan) -> Option<u64> {
    if s.deserted() {
        Some(s.guild)
    } else {
        None
    }
}

/// The guilds whose voice channels are deserted, in the order of the scan.
pub fn get_empty_vcs(scans: &Vec<VoiceScan>) -> (guilds: Vec<u64>)
    ensures
        guilds@ == scans@.filter_map(|s: VoiceScan| deserted_guild(s)),
{
    let ghost pick = |s: VoiceScan| deserted_guild(s);
    let mut guilds: Vec<u64> = Vec::new();
    let mut i: usize = 0;
    while i < scans.len()
        invariant
            i <= scans@.len(),
            pick == (|s: VoiceScan| deserted_guild(s)),
            guilds@ == scans@.take(i as int).filter_map(pick),
        decreases scans@.len() - i,
    {
        proof {
            scans@.lemma_filter_map_take_succ(pick, i as int);
        }
        if scans[i].is_deserted() {
            guilds.push(scans[i].guild);
        }
        i = i + 1;
    }
    assert(scans@.take(i as int) =~= scans@);
    guilds
}

/// Whether `guild` is among `guilds`.
pub fn is_listed(guilds: &Vec<u64>, guild: u64) -> (b: bool)
    ensures
        b == guilds@.contains(guild),
{
    let mut i: usize = 0;
    while i < guilds.len()
        invariant
            i <= guilds@.len(),
            forall|j: int| 0 <= j < i ==> guilds@[j] != guild,
        decreases guilds@.len() - i,
    {
        if guilds[i] == guild {
            return true;
        }
        i = i + 1;
    }
    false
}

/// What the idle watchdog does about a guild at its re-check.
#[derive(Clone, Copy, Debug, PartialEq, Eq)]
pub enum IdleAction {
    /// Leave the voice channel and drop the guild's queue.
    Leave,
    /// Do nothing.
    Nothing,
}

/// The verdict of a re-check: the guild is left only if its channel is still
/// deserted and its queue still exists. A guild whose listeners came back, or
/// whose queue went away in the meantime, is let be.
pub fn recheck(guild: u64, still_empty: &Vec<u64>, has_queue: bool) -> (a: IdleAction)
    ensures
        a == if has_queue && still_empty@.contains(guild) {
            IdleAction::Leave
        } else {
            IdleAction::Nothing
        },
{
    if has_queue && is_listed(still_empty, guild) {
        IdleAction::Leave
    } else {
        IdleAction::Nothing
    }
}

/// The seconds between the scan that finds a channel deserted and the
/// re-check that may leave it.
pub const GRACE_SECS: u64 = 60;

/// When the re-check of a channel found deserted at `now` falls due.
pub open spec fn grace_end(now: u64) -> u64 {
    if now + GRACE_SECS <= u64::MAX {
        (now + GRACE_SECS) as u64
    } else {
        u64::MAX
    }
}

/// The re-checks that are waiting for their time, at most one per guild.
pub struct IdleWatch {
    pending: Registry<u64>,
}

impl View for IdleWatch {
    type V = Map<u64, u64>;

    /// For each guild with a pending re-check, the second at which it falls
    /// due.
    closed spec fn view(&self) -> Map<u64, u64> {
        self.pending@
    }
}

impl IdleWatch {
    /// The watch's invariant.
    pub closed spec fn wf(&self) -> bool {
        self.pending.wf()
    }

    /// The guilds with a pending re-check, in the order in which they were
    /// flagged.
    pub closed spec fn order(&self) -> Seq<u64> {
        self.pending.order()
    }

    /// A watch with nothing pending.
    pub fn new() -> (w: IdleWatch)
        ensures
            w.wf(),
            w@ == Map::<u64, u64>::empty(),
            w.order() == Seq::<u64>::empty(),
    {
        IdleWatch { pending: Registry::new() }
    }

    /// Whether a re-check of `guild` is pending.
    pub fn is_pending(&self, guild: u64) -> (b: bool)
        ensures
            b == self@.contains_key(guild),
    {
        self.pending.contains(guild)
    }

    /// Notes that the channel of `guild` was found deserted at `now`. Unless
    /// a re-check of the guild is pending already, one is scheduled for the
    /// end of the grace period. Answers whether one was scheduled.
    pub fn flag(&mut self, guild: u64, now: u64) -> (scheduled: bool)
        requires
            old(self).wf(),
        ensures
            final(self).wf(),
            scheduled == !old(self)@.contains_key(guild),
            scheduled ==> final(self)@ == old(self)@.insert(guild, grace_end(now)) && final(self).order() == old(self).order().push(guild),
            !scheduled ==> final(self)@ == old(self)@ && final(self).order() == old(self).order(),
    {
        let due: u64 = if now <= u64::MAX - GRACE_SECS {
            now + GRACE_SECS
        } else {
            u64::MAX
        };
        self.pending.create_if_absent(guild, due)
    }

    /// Forgets the pending re-check of `guild`, if there is one.
    pub fn cancel(&mut self, guild: u64) -> (was_pending: bool)
        requires
            old(self).wf(),
        ensures
            final(self).wf(),
            was_pending == old(self)@.contains_key(guild),
            final(self)@ == old(self)@.remove(guild),
            final(self).order() == old(self).order().filter(|g: u64| g != guild),
    {
        self.pending.remove(guild).is_some()
    }

    /// Whether the re-check of `guild` has fallen due at `now`.
    pub open spec fn ripe(&self, guild: u64, now: u64) -> bool {
        self@.contains_key(guild) && self@[guild] <= now
    }

    /// Takes out the re-check of `guild` if it has fallen due at `now`, and
    /// answers whether it had. One that is not due yet stays pending.
    pub fn take_if_due(&mut self, guild: u64, now: u64) -> (due: bool)
        requires
            old(self).wf(),
        ensures
            final(self).wf(),
            due == old(self).ripe(guild, now),
            due ==> final(self)@ == old(self)@.remove(guild) && final(self).order() == old(self).order().filter(|g: u64| g != guild),
            !due ==> final(self)@ == old(self)@ && final(self).order() == old(self).order(),
    {
        let ripe: bool = match self.pending.get(guild) {
            Some(at) => *at <= now,
            None => false,
        };
        if ripe {
            let _gone = self.pending.remove(guild);
        }
        ripe
    }

    /// The guilds with a pending re-check, in the order in which they were
    /// flagged.
    pub fn pending_guilds(&self) -> (guilds: Vec<u64>)
        ensures
            guilds@ == self.order(),
    {
        self.pending.guilds()
    }

    /// The order lists the guilds with a pending re-check, each once.
    pub proof fn lemma_order_lists_pending(&self)
        requires
            self.wf(),
        ensures
            self.order().no_duplicates(),
            forall|guild: u64| self.order().contains(guild) <==> self@.contains_key(guild),
    {
        self.pending.lemma_order_lists_guilds();
    }

    /// Takes out every re-check that has fallen due at `now` and answers
    /// with their guilds, in the order in which they were flagged. The
    /// others stay pending.
    pub fn take_due(&mut self, now: u64) -> (due: Vec<u64>)
        requires
            old(self).wf(),
        ensures
            final(self).wf(),
            due@ == old(self).order().filter(|g: u64| old(self).ripe(g, now)),
            forall|g: u64| #[trigger]
                final(self)@.contains_key(g) <==> old(self)@.contains_key(g) && !old(self).ripe(
                    g,
                    now,
                ),
            forall|g: u64| #[trigger] final(self)@.contains_key(g) ==> final(self)@[g] == old(self)@[g],
    {
        let ids: Vec<u64> = self.pending.guilds();
        let ghost ripe = |g: u64| old(self).ripe(g, now);
        proof {
            old(self).lemma_order_lists_pending();
        }
        let mut due: Vec<u64> = Vec::new();
        let mut i: usize = 0;
        while i < ids.len()
            invariant
                i <= ids@.len(),
                self.wf(),
                ids@ == old(self).order(),
                ids@.no_duplicates(),
                forall|g: u64| ids@.contains(g) <==> old(self)@.contains_key(g),
                ripe == (|g: u64| old(self).ripe(g, now)),
                due@ == ids@.take(i as int).filter(ripe),
                forall|g: u64| #[trigger]
                    self@.contains_key(g) <==> old(self)@.contains_key(g) && !(ids@.take(
                        i as int,
                    ).contains(g) && old(self).ripe(g, now)),
                forall|g: u64| #[trigger] self@.contains_key(g) ==> self@[g] == old(self)@[g],
            decreases ids@.len() - i,
        {
            let guild: u64 = ids[i];
            let ghost seen = ids@.take(i as int);
            proof {
                assert(ids@.contains(guild));
                assert(!seen.contains(guild)) by {
                    if seen.contains(guild) {
                        let k = choose|k: int| 0 <= k < seen.len() && seen[k] == guild;
                        assert(ids@[k] == guild);
                    }
                }
                let grown = ids@.take(i + 1);
                assert(grown =~= seen.push(guild));
                seen.lemma_filter_push(guild, ripe);
                assert forall|g: u64| grown.contains(g) <==> (seen.contains(g) || g == guild) by {
                    if grown.contains(g) {
                        let k = choose|k: int| 0 <= k < grown.len() && grown[k] == g;
                        if k < seen.len() {
                            assert(seen[k] == g);
                        }
                    }
                    if seen.contains(g) {
                        let k = choose|k: int| 0 <= k < seen.len() && seen[k] == g;
                        assert(grown[k] == g);
                    }
                    if g == guild {
                        assert(grown[i as int] == g);
                    }
                }
            }
            assert(old(self)@.contains_key(guild) && self@.contains_key(guild));
            if self.take_if_due(guild, now) {
                due.push(guild);
            }
            i = i + 1;
        }
        proof {
            assert(ids@.take(i as int) =~= ids@);
        }
        due
    }
}

} // verus!
