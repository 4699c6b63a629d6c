//! The guild-keyed registry of queues.
//!
//! The registry holds one handle per guild. A handle is whatever the caller
//! shares a queue through (a reference-counted lock, say); the registry only
//! keeps it, hands it out and drops it. Callers guard the registry with a
//! lock of its own and hold that lock for one call at a time.

use vstd::prelude::*;

verus! {

/// One guild and the handle of its queue.
pub struct Entry<Q> {
    pub guild: u64,
    pub queue: Q,
}

/// Whether some entry belongs to `guild`.
pub open spec fn has_guild<Q>(entries: Seq<Entry<Q>>, guild: u64) -> bool {
    exists|i: int| 0 <= i < entries.len() && (#[trigger] entries[i]).guild == guild
}

/// No two entries belong to one guild.
pub open spec fn distinct_guilds<Q>(entries: Seq<Entry<Q>>) -> bool {
    forall|i: int, j: int|
        0 <= i < entries.len() && 0 <= j < entries.len() && (#[trigger] entries[i]).guild == (
        #[trigger] entries[j]).guild ==> i == j
}

/// The entries as a map from guild to handle.
pub open spec fn as_map<Q>(entries: Seq<Entry<Q>>) -> Map<u64, Q> {
    Map::new(
        |guild: u64| has_guild(entries, guild),
        |guild: u64|
            entries[choose|i: int| 0 <= i < entries.len() && (#[trigger] entries[i]).guild == guild].queue,
    )
}

/// With distinct guilds, the map holds each entry's handle under its guild.
pub proof fn lemma_as_map_holds_entries<Q>(entries: Seq<Entry<Q>>)
    requires
        distinct_guilds(entries),
    ensures
        forall|i: int|
            0 <= i < entries.len() ==> as_map(entries).contains_key((#[trigger] entries[i]).guild)
                && as_map(entries)[entries[i].guild] == entries[i].queue,
{
    assert forall|i: int| 0 <= i < entries.len() implies as_map(entries).contains_key(
        (#[trigger] entries[i]).guild,
    ) && as_map(entries)[entries[i].guild] == entries[i].queue by {
        let g = entries[i].guild;
        let j = choose|j: int| 0 <= j < entries.len() && (#[trigger] entries[j]).guild == g;
        assert(i == j);
    }
}

/// Replacing the handle of one entry replaces it in the map and keeps the
/// guilds distinct.
pub proof fn lemma_update_queue<Q>(entries: Seq<Entry<Q>>, at: int, queue: Q)
    requires
        distinct_guilds(entries),
        0 <= at < entries.len(),
    ensures
        distinct_guilds(entries.update(at, Entry { guild: entries[at].guild, queue })),
        as_map(entries.update(at, Entry { guild: entries[at].guild, queue })) == as_map(
            entries,
        ).insert(entries[at].guild, queue),
        entries.update(at, Entry { guild: entries[at].guild, queue }).map_values(
            |e: Entry<Q>| e.guild,
        ) == entries.map_values(|e: Entry<Q>| e.guild),
{
    let guild = entries[at].guild;
    let after = entries.update(at, Entry { guild, queue });
    assert forall|i: int| 0 <= i < after.len() implies (#[trigger] after[i]).guild
        == entries[i].guild by {}
    assert(distinct_guilds(after)) by {
        assert forall|i: int, j: int|
            0 <= i < after.len() && 0 <= j < after.len() && (#[trigger] after[i]).guild == (
            #[trigger] after[j]).guild implies i == j by {
            assert(entries[i].guild == entries[j].guild);
        }
    }
    lemma_as_map_holds_entries(entries);
    lemma_as_map_holds_entries(after);
    assert forall|g: u64| has_guild(after, g) <==> has_guild(entries, g) by {
        if has_guild(after, g) {
            let i = choose|i: int| 0 <= i < after.len() && (#[trigger] after[i]).guild == g;
            assert(entries[i].guild == g);
        }
        if has_guild(entries, g) {
            let i = choose|i: int| 0 <= i < entries.len() && (#[trigger] entries[i]).guild == g;
            assert(after[i].guild == g);
        }
    }
    assert forall|g: u64| has_guild(after, g) && g != guild implies as_map(after)[g] == as_map(
        entries,
    )[g] by {
        let i = choose|i: int| 0 <= i < entries.len() && (#[trigger] entries[i]).guild == g;
        assert(after[i] == entries[i]);
    }
    assert(after[at].guild == guild);
    assert(as_map(after) =~= as_map(entries).insert(guild, queue));
    assert(after.map_values(|e: Entry<Q>| e.guild) =~= entries.map_values(|e: Entry<Q>| e.guild));
}

/// The queues of all guilds, by guild.
pub struct Registry<Q> {
    entries: Vec<Entry<Q>>,
}

impl<Q> View for Registry<Q> {
    type V = Map<u64, Q>;

    closed spec fn view(&self) -> Map<u64, Q> {
        as_map(self.entries@)
    }
}

impl<Q> Registry<Q> {
    /// The registry's invariant: a guild has at most one queue.
    pub closed spec fn wf(&self) -> bool {
        distinct_guilds(self.entries@)
    }

    /// The guilds in the order in which their queues were created.
    pub closed spec fn order(&self) -> Seq<u64> {
        self.entries@.map_values(|e: Entry<Q>| e.guild)
    }

    /// The order lists the guilds that have a queue, each once.
    pub proof fn lemma_order_lists_guilds(&self)
        requires
            self.wf(),
        ensures
            self.order().no_duplicates(),
            forall|guild: u64| self.order().contains(guild) <==> self@.contains_key(guild),
    {
        let order = self.order();
        assert forall|guild: u64| order.contains(guild) <==> self@.contains_key(guild) by {
            if order.contains(guild) {
                let i = choose|i: int| 0 <= i < order.len() && order[i] == guild;
                assert(self.entries@[i].guild == guild);
            }
            if self@.contains_key(guild) {
                let i = choose|i: int|
                    0 <= i < self.entries@.len() && (#[trigger] self.entries@[i]).guild == guild;
                assert(order[i] == guild);
            }
        }
    }

    /// A registry without queues.
    pub fn new() -> (r: Registry<Q>)
        ensures
            r.wf(),
            r@ == Map::<u64, Q>::empty(),
            r.order() == Seq::<u64>::empty(),
    {
        let r = Registry { entries: Vec::new() };
        assert(r@ =~= Map::<u64, Q>::empty());
        assert(r.order() =~= Seq::<u64>::empty());
        r
    }

    /// The number of guilds that have a queue.
    pub fn len(&self) -> (n: usize)
        ensures
            n == self.order().len(),
    {
        self.entries.len()
    }

    /// Where the entry of `guild` stands, if it has one.
    fn find(&self, guild: u64) -> (at: Option<usize>)
        ensures
            match at {
                Some(i) => i < self.entries@.len() && self.entries@[i as int].guild == guild,
                None => !has_guild(self.entries@, guild),
            },
    {
        let mut i: usize = 0;
        while i < self.entries.len()
            invariant
                i <= self.entries@.len(),
                forall|j: int| 0 <= j < i ==> (#[trigger] self.entries@[j]).guild != guild,
            decreases self.entries@.len() - i,
        {
            if self.entries[i].guild == guild {
                return Some(i);
            }
            i = i + 1;
        }
        None
    }

    /// Whether `guild` has a queue.
    pub fn contains(&self, guild: u64) -> (b: bool)
        ensures
            b == self@.contains_key(guild),
    {
        self.find(guild).is_some()
    }

    /// The handle of the queue of `guild`, if it has one.
    pub fn get(&self, guild: u64) -> (q: Option<&Q>)
        requires
            self.wf(),
        ensures
            match q {
                Some(handle) => self@.contains_key(guild) && *handle == self@[guild],
                None => !self@.contains_key(guild),
            },
    {
        proof {
            lemma_as_map_holds_entries(self.entries@);
        }
        match self.find(guild) {
            Some(i) => Some(&self.entries[i].queue),
            None => None,
        }
    }

    /// The handle of the queue of `guild`, to change it in place. Whatever
    /// the caller makes of it is what the registry then holds for the guild;
    /// nothing else changes.
    pub fn get_mut(&mut self, guild: u64) -> (q: Option<&mut Q>)
        requires
            old(self).wf(),
        ensures
            final(self).wf(),
            final(self).order() == old(self).order(),
            match q {
                Some(handle) => old(self)@.contains_key(guild) && *handle == old(self)@[guild]
                    && final(self)@ == old(self)@.insert(guild, *final(handle)),
                None => !old(self)@.contains_key(guild) && final(self)@ == old(self)@,
            },
    {
        proof {
            lemma_as_map_holds_entries(self.entries@);
        }
        match self.find(guild) {
            Some(i) => {
                let ghost before = self.entries@;
                proof {
                    assert forall|queue: Q|
                        distinct_guilds(
                            #[trigger] before.update(
                                i as int,
                                Entry { guild: before[i as int].guild, queue },
                            ),
                        ) && as_map(
                            before.update(i as int, Entry { guild: before[i as int].guild, queue }),
                        ) == as_map(before).insert(before[i as int].guild, queue) && before.update(
                            i as int,
                            Entry { guild: before[i as int].guild, queue },
                        ).map_values(|e: Entry<Q>| e.guild) == before.map_values(
                            |e: Entry<Q>| e.guild,
                        ) by {
                        lemma_update_queue(before, i as int, queue);
                    }
                }
                let entry: &mut Entry<Q> = &mut self.entries[i];
                let handle: &mut Q = &mut entry.queue;
                Some(handle)
            },
            None => None,
        }
    }

    /// Makes sure that `guild` has a queue: where it has none, `fresh`
    /// becomes its queue; where it has one, that one stays and `fresh` is
    /// dropped. Answers whether a queue was created.
    pub fn create_if_absent(&mut self, guild: u64, fresh: Q) -> (created: bool)
        requires
            old(self).wf(),
        ensures
            final(self).wf(),
            created == !old(self)@.contains_key(guild),
            created ==> final(self)@ == old(self)@.insert(guild, fresh) && final(self).order()
                == old(self).order().push(guild),
            !created ==> final(self)@ == old(self)@ && final(self).order() == old(self).order(),
            final(self)@.contains_key(guild),
    {
        match self.find(guild) {
            Some(_) => false,
            None => {
                let ghost before = self.entries@;
                self.entries.push(Entry { guild, queue: fresh });
                proof {
                    let after = self.entries@;
                    assert(after[before.len() as int].guild == guild);
                    assert(distinct_guilds(after)) by {
                        assert forall|i: int, j: int|
                            0 <= i < after.len() && 0 <= j < after.len() && (#[trigger] after[i]).guild
                                == (#[trigger] after[j]).guild implies i == j by {
                            if i < before.len() {
                                assert(before[i].guild == after[i].guild);
                            }
                            if j < before.len() {
                                assert(before[j].guild == after[j].guild);
                            }
                        }
                    }
                    lemma_as_map_holds_entries(after);
                    assert forall|g: u64| has_guild(after, g) <==> (has_guild(before, g) || g
                        == guild) by {
                        if has_guild(after, g) && g != guild {
                            let i = choose|i: int|
                                0 <= i < after.len() && (#[trigger] after[i]).guild == g;
                            assert(before[i].guild == g);
                        }
                        if has_guild(before, g) {
                            let i = choose|i: int|
                                0 <= i < before.len() && (#[trigger] before[i]).guild == g;
                            assert(after[i].guild == g);
                        }
                    }
                    lemma_as_map_holds_entries(before);
                    assert forall|g: u64| has_guild(before, g) implies as_map(after)[g] == as_map(
                        before,
                    )[g] by {
                        let i = choose|i: int|
                            0 <= i < before.len() && (#[trigger] before[i]).guild == g;
                        assert(after[i] == before[i]);
                    }
                    assert(as_map(after) =~= as_map(before).insert(guild, fresh));
                    assert(self.order() =~= old(self).order().push(guild));
                }
                true
            },
        }
    }

    /// The handle of the queue of `guild`: the one it has, or `fresh`, which
    /// becomes its queue where it has none. Done in one call under the
    /// registry's lock, so two callers for one guild end up with one queue.
    pub fn get_or_create(&mut self, guild: u64, fresh: Q) -> (q: &Q)
        requires
            old(self).wf(),
        ensures
            final(self).wf(),
            old(self)@.contains_key(guild) ==> final(self)@ == old(self)@ && final(self).order()
                == old(self).order(),
            !old(self)@.contains_key(guild) ==> final(self)@ == old(self)@.insert(guild, fresh)
                && final(self).order() == old(self).order().push(guild),
            final(self)@.contains_key(guild),
            *q == final(self)@[guild],
    {
        let _created: bool = self.create_if_absent(guild, fresh);
        self.get(guild).unwrap()
    }

    /// Detaches the queue of `guild` and hands it out; later lookups find
    /// none. The other guilds keep their order.
    pub fn remove(&mut self, guild: u64) -> (gone: Option<Q>)
        requires
            old(self).wf(),
        ensures
            final(self).wf(),
            final(self)@ == old(self)@.remove(guild),
            !final(self)@.contains_key(guild),
            match gone {
                Some(q) => old(self)@.contains_key(guild) && q == old(self)@[guild],
                None => !old(self)@.contains_key(guild),
            },
            final(self).order() == old(self).order().filter(|g: u64| g != guild),
    {
        let ghost before = self.entries@;
        proof {
            lemma_as_map_holds_entries(before);
        }
        match self.find(guild) {
            None => {
                proof {
                    assert(self@ =~= old(self)@.remove(guild));
                    lemma_filter_keeps_all(self.order(), guild);
                }
                None
            },
            Some(at) => {
                let entry = self.entries.remove(at);
                proof {
                    let after = self.entries@;
                    let k = at as int;
                    assert forall|i: int| 0 <= i < after.len() implies (#[trigger] after[i])
                        == before[if i < k {
                        i
                    } else {
                        i + 1
                    }] by {}
                    assert(distinct_guilds(after)) by {
                        assert forall|i: int, j: int|
                            0 <= i < after.len() && 0 <= j < after.len() && (#[trigger] after[i]).guild
                                == (#[trigger] after[j]).guild implies i == j by {
                            let bi = if i < k {
                                i
                            } else {
                                i + 1
                            };
                            let bj = if j < k {
                                j
                            } else {
                                j + 1
                            };
                            assert(before[bi].guild == before[bj].guild);
                        }
                    }
                    lemma_as_map_holds_entries(after);
                    assert forall|g: u64| has_guild(after, g) <==> (has_guild(before, g) && g
                        != guild) by {
                        if has_guild(after, g) {
                            let i = choose|i: int|
                                0 <= i < after.len() && (#[trigger] after[i]).guild == g;
                            let bi = if i < k {
                                i
                            } else {
                                i + 1
                            };
                            assert(before[bi].guild == g);
                            assert(bi != k);
                        }
                        if has_guild(before, g) && g != guild {
                            let i = choose|i: int|
                                0 <= i < before.len() && (#[trigger] before[i]).guild == g;
                            let ai = if i < k {
                                i
                            } else {
                                i - 1
                            };
                            assert(after[ai].guild == g);
                        }
                    }
                    assert forall|g: u64| has_guild(after, g) implies as_map(after)[g] == as_map(
                        before,
                    )[g] by {
                        let i = choose|i: int|
                            0 <= i < after.len() && (#[trigger] after[i]).guild == g;
                        let bi = if i < k {
                            i
                        } else {
                            i + 1
                        };
                        assert(before[bi].guild == g);
                    }
                    assert(as_map(after) =~= as_map(before).remove(guild));
                    lemma_filter_drops_one(old(self).order(), guild, k);
                    assert(self.order() =~= old(self).order().remove(k));
                }
                Some(entry.queue)
            },
        }
    }

    /// The guilds that have a queue, in the order in which the queues were
    /// created: a copy to walk without holding on to the registry.
    pub fn guilds(&self) -> (ids: Vec<u64>)
        ensures
            ids@ == self.order(),
    {
        let mut ids: Vec<u64> = Vec::new();
        let mut i: usize = 0;
        while i < self.entries.len()
            invariant
                i <= self.entries@.len(),
                ids@ == self.order().take(i as int),
            decreases self.entries@.len() - i,
        {
            ids.push(self.entries[i].guild);
            assert(self.order().take(i + 1) =~= self.order().take(i as int).push(self.order()[i as int]));
            i = i + 1;
        }
        assert(self.order().take(i as int) =~= self.order());
        ids
    }

    /// A copy of the registry as it stands: every guild with a clone of its
    /// handle, in the order in which the queues were created. The copy can be
    /// walked after the registry's lock has been given up.
    pub fn snapshot(&self) -> (copy: Vec<Entry<Q>>) where Q: Clone
        requires
            self.wf(),
        ensures
            copy@.len() == self.order().len(),
            forall|i: int|
                0 <= i < copy@.len() ==> (#[trigger] copy@[i]).guild == self.order()[i]
                    && self@.contains_key(copy@[i].guild) && cloned(
                    self@[copy@[i].guild],
                    copy@[i].queue,
                ),
    {
        proof {
            lemma_as_map_holds_entries(self.entries@);
        }
        let mut copy: Vec<Entry<Q>> = Vec::new();
        let mut i: usize = 0;
        while i < self.entries.len()
            invariant
                i <= self.entries@.len(),
                copy@.len() == i,
                forall|j: int|
                    0 <= j < i ==> (#[trigger] copy@[j]).guild == self.entries@[j].guild && cloned(
                        self.entries@[j].queue,
                        copy@[j].queue,
                    ),
            decreases self.entries@.len() - i,
        {
            let queue: Q = self.entries[i].queue.clone();
            copy.push(Entry { guild: self.entries[i].guild, queue });
            i = i + 1;
        }
        copy
    }
}

/// Filtering a guild out of a list that does not hold it changes nothing.
pub proof fn lemma_filter_keeps_all(order: Seq<u64>, guild: u64)
    requires
        !order.contains(guild),
    ensures
        order.filter(|g: u64| g != guild) == order,
    decreases order.len(),
{
    reveal(Seq::filter);
    let keep = |g: u64| g != guild;
    if order.len() > 0 {
        let rest = order.drop_last();
        assert(order.last() != guild) by {
            assert(order[order.len() - 1] == order.last());
        }
        assert(!rest.contains(guild)) by {
            if rest.contains(guild) {
                let i = choose|i: int| 0 <= i < rest.len() && rest[i] == guild;
                assert(order[i] == guild);
            }
        }
        lemma_filter_keeps_all(rest, guild);
        assert(rest.push(order.last()) =~= order);
    }
}

/// Filtering a guild out of a list that holds it once, at `at`, removes that
/// one element.
pub proof fn lemma_filter_drops_one(order: Seq<u64>, guild: u64, at: int)
    requires
        0 <= at < order.len(),
        order[at] == guild,
        order.no_duplicates(),
    ensures
        order.filter(|g: u64| g != guild) == order.remove(at),
    decreases order.len(),
{
    reveal(Seq::filter);
    let rest = order.drop_last();
    if at == order.len() - 1 {
        assert(!rest.contains(guild)) by {
            if rest.contains(guild) {
                let i = choose|i: int| 0 <= i < rest.len() && rest[i] == guild;
                assert(order[i] == guild);
            }
        }
        lemma_filter_keeps_all(rest, guild);
        assert(order.remove(at) =~= rest);
    } else {
        assert(order.last() != guild);
        lemma_filter_drops_one(rest, guild, at);
        assert(order.remove(at) =~= rest.remove(at).push(order.last()));
    }
}

} // verus!
