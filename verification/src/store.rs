//! The message store: the single source of truth for stored messages, their
//! one-way `published` flag, and the configured channel definitions.

use vstd::prelude::*;

use crate::types::{Channel, ChatMessage, Platform, StoreError};

verus! {

/// Whether some stored message carries this identifier.
pub open spec fn contains_msg(s: Seq<ChatMessage>, id: u128) -> bool {
    exists|i: int| 0 <= i < s.len() && s[i].id == id
}

/// Message identifiers are pairwise distinct.
pub open spec fn msg_ids_unique(s: Seq<ChatMessage>) -> bool {
    forall|i: int, j: int| 0 <= i < j < s.len() ==> s[i].id != s[j].id
}

/// Whether some stored channel has this (platform, name) key.
pub open spec fn contains_chan(s: Seq<Channel>, platform: Platform, name: Seq<char>) -> bool {
    exists|i: int| 0 <= i < s.len() && s[i].platform == platform && s[i].name@ == name
}

/// Channel (platform, name) keys are pairwise distinct.
pub open spec fn chan_keys_unique(s: Seq<Channel>) -> bool {
    forall|i: int, j: int|
        0 <= i < j < s.len() ==> !(s[i].platform == s[j].platform && s[i].name@ == s[j].name@)
}

/// The one-way transition law between two store snapshots: a message seen
/// published before is still published after, under the same identifier.
pub open spec fn published_monotone(before: Seq<ChatMessage>, after: Seq<ChatMessage>) -> bool {
    forall|i: int, j: int|
        0 <= i < before.len() && 0 <= j < after.len() && before[i].id == after[j].id
            && before[i].published ==> after[j].published
}

/// Every identifier present before is still present after: this core
/// never deletes a message.
pub open spec fn ids_preserved(before: Seq<ChatMessage>, after: Seq<ChatMessage>) -> bool {
    forall|i: int| 0 <= i < before.len() ==> contains_msg(after, (#[trigger] before[i]).id)
}

/// The one-way `published` transition composes: across any two successive
/// id-preserving, monotone store steps, a message once seen published is
/// still published — no operation of this core ever observes the flag
/// false again.
pub proof fn lemma_published_monotone_trans(
    a: Seq<ChatMessage>,
    b: Seq<ChatMessage>,
    c: Seq<ChatMessage>,
)
    requires
        published_monotone(a, b),
        published_monotone(b, c),
        ids_preserved(a, b),
    ensures
        published_monotone(a, c),
{
    assert forall|i: int, j: int|
        0 <= i < a.len() && 0 <= j < c.len() && a[i].id == c[j].id && a[i].published implies c[j].published by {
        let k = choose|k: int| 0 <= k < b.len() && b[k].id == a[i].id;
        assert(b[k].published);
    }
}

/// The same message with its `published` flag set.
pub open spec fn with_published(m: ChatMessage) -> ChatMessage {
    ChatMessage {
        id: m.id,
        platform: m.platform,
        channel: m.channel,
        username: m.username,
        content: m.content,
        additional_info: m.additional_info,
        timestamp: m.timestamp,
        published: true,
    }
}

/// Whether a message is old enough for a page bounded by `before`
/// (strictly older than the cursor; no bound means everything qualifies).
pub open spec fn eligible(m: ChatMessage, before: Option<u64>) -> bool {
    match before {
        None => true,
        Some(t) => m.timestamp < t,
    }
}

/// What a history page is: at most `limit` messages, each drawn from the
/// store and strictly older than `before`, sorted by descending timestamp
/// with no message repeated; and no eligible message is left out unless the
/// page is full of messages at least as recent.
pub open spec fn is_page(
    msgs: Seq<ChatMessage>,
    limit: int,
    before: Option<u64>,
    r: Seq<ChatMessage>,
) -> bool {
    &&& r.len() <= limit
    &&& forall|i: int| 0 <= i < r.len() ==> msgs.contains(#[trigger] r[i])
    &&& forall|i: int| 0 <= i < r.len() ==> eligible(#[trigger] r[i], before)
    &&& forall|i: int, j: int| 0 <= i < j < r.len() ==> r[i].timestamp >= r[j].timestamp
    &&& forall|i: int, j: int| 0 <= i < j < r.len() ==> r[i].id != r[j].id
    &&& forall|k: int|
        0 <= k < msgs.len() && eligible(#[trigger] msgs[k], before) && !r.contains(msgs[k])
            ==> r.len() == limit && (r.len() > 0 ==> msgs[k].timestamp <= r[r.len() - 1].timestamp)
}

fn eligible_exec(m: &ChatMessage, before: Option<u64>) -> (r: bool)
    ensures
        r == eligible(*m, before),
{
    match before {
        None => true,
        Some(t) => m.timestamp < t,
    }
}

/// Durable, idempotent storage of chat messages and channel definitions;
/// the source of truth for the `published` flag. Messages are only ever
/// appended or flipped to published, never removed.
pub struct MessageStore {
    messages: Vec<ChatMessage>,
    channels: Vec<Channel>,
}

impl MessageStore {
    /// The stored messages, in insertion order.
    pub closed spec fn msgs(&self) -> Seq<ChatMessage> {
        self.messages@
    }

    /// The stored channel definitions, in insertion order.
    pub closed spec fn chans(&self) -> Seq<Channel> {
        self.channels@
    }

    /// Store invariant: message identifiers and channel keys are unique.
    pub open spec fn wf(&self) -> bool {
        msg_ids_unique(self.msgs()) && chan_keys_unique(self.chans())
    }

    /// An empty store, as freshly initialized storage presents itself.
    pub fn new() -> (r: MessageStore)
        ensures
            r.wf(),
            r.msgs() == Seq::<ChatMessage>::empty(),
            r.chans() == Seq::<Channel>::empty(),
    {
        MessageStore { messages: Vec::new(), channels: Vec::new() }
    }

    /// The position of the message with this identifier, if any.
    fn find_msg(&self, id: u128) -> (r: Option<usize>)
        ensures
            match r {
                Some(i) => i < self.msgs().len() && self.msgs()[i as int].id == id,
                None => !contains_msg(self.msgs(), id),
            },
    {
        let mut i: usize = 0;
        while i < self.messages.len()
            invariant
                i <= self.msgs().len(),
                forall|k: int| 0 <= k < i ==> self.msgs()[k].id != id,
            decreases self.msgs().len() - i,
        {
            if self.messages[i].id == id {
                return Some(i);
            }
            i = i + 1;
        }
        None
    }

    /// Whether a message with this identifier is stored.
    pub fn has_message(&self, id: u128) -> (r: bool)
        ensures
            r == contains_msg(self.msgs(), id),
    {
        self.find_msg(id).is_some()
    }

    /// Appends a message exactly as given. Fails on an identifier clash,
    /// leaving no trace; never silently drops a message.
    pub fn insert(&mut self, m: ChatMessage) -> (r: Result<(), StoreError>)
        requires
            old(self).wf(),
        ensures
            final(self).wf(),
            final(self).chans() == old(self).chans(),
            r is Ok <==> !contains_msg(old(self).msgs(), m.id),
            r is Ok ==> final(self).msgs() == old(self).msgs().push(m),
            r is Err ==> *final(self) == *old(self) && r->Err_0 == StoreError::Conflict,
            published_monotone(old(self).msgs(), final(self).msgs()),
            ids_preserved(old(self).msgs(), final(self).msgs()),
    {
        if self.find_msg(m.id).is_some() {
            return Err(StoreError::Conflict);
        }
        self.messages.push(m);
        proof {
            assert forall|i: int| 0 <= i < old(self).msgs().len() implies contains_msg(
                final(self).msgs(),
                (#[trigger] old(self).msgs()[i]).id,
            ) by {
                assert(final(self).msgs()[i] == old(self).msgs()[i]);
            }
        }
        Ok(())
    }

    /// Returns up to `limit` stored messages strictly older than `before`,
    /// newest first. An empty result is an answer, not an error; messages
    /// are left out only when the page is already full of newer ones.
    pub fn get_messages(&self, limit: usize, before: Option<u64>) -> (r: Vec<ChatMessage>)
        requires
            self.wf(),
        ensures
            is_page(self.msgs(), limit as int, before, r@),
    {
        let n = self.messages.len();
        let mut taken: Vec<bool> = Vec::new();
        while taken.len() < n
            invariant
                taken@.len() <= n,
                forall|k: int| 0 <= k < taken@.len() ==> !taken@[k],
            decreases n - taken@.len(),
        {
            taken.push(false);
        }

        let mut out: Vec<ChatMessage> = Vec::new();
        let mut done = false;
        while !done && out.len() < limit
            invariant
                self.wf(),
                n == self.msgs().len(),
                taken@.len() == n,
                out@.len() <= limit,
                forall|i: int|
                    0 <= i < out@.len() ==> exists|j: int|
                        0 <= j < n && #[trigger] out@[i] == self.msgs()[j] && taken@[j],
                forall|j: int|
                    0 <= j < n && #[trigger] taken@[j] ==> out@.contains(self.msgs()[j])
                        && eligible(self.msgs()[j], before),
                forall|i: int, j: int| 0 <= i < j < out@.len() ==> out@[i].timestamp >= out@[j].timestamp,
                forall|i: int, j: int| 0 <= i < j < out@.len() ==> out@[i].id != out@[j].id,
                forall|j: int|
                    0 <= j < n && !taken@[j] && eligible(#[trigger] self.msgs()[j], before)
                        && out@.len() > 0 ==> self.msgs()[j].timestamp <= out@[out@.len() - 1].timestamp,
                done ==> forall|j: int|
                    0 <= j < n && eligible(#[trigger] self.msgs()[j], before) ==> taken@[j],
            decreases limit - out@.len() + (if done { 0int } else { 1int }),
        {
            let mut best: Option<usize> = None;
            let mut j: usize = 0;
            while j < n
                invariant
                    n == self.msgs().len(),
                    taken@.len() == n,
                    j <= n,
                    match best {
                        Some(b) => b < j && !taken@[b as int] && eligible(
                            self.msgs()[b as int],
                            before,
                        ),
                        None => true,
                    },
                    forall|k: int|
                        0 <= k < j && !taken@[k] && eligible(#[trigger] self.msgs()[k], before)
                            ==> (best matches Some(b) && self.msgs()[k].timestamp
                            <= self.msgs()[b as int].timestamp),
                decreases n - j,
            {
                if !taken[j] && eligible_exec(&self.messages[j], before) {
                    match best {
                        None => { best = Some(j); },
                        Some(b) => {
                            if self.messages[j].timestamp > self.messages[b].timestamp {
                                best = Some(j);
                            }
                        },
                    }
                }
                j = j + 1;
            }
            match best {
                None => {
                    done = true;
                },
                Some(b) => {
                    proof {
                        assert forall|i: int| 0 <= i < out@.len() implies out@[i].timestamp
                            >= self.msgs()[b as int].timestamp by {
                            assert(out@[i].timestamp >= out@[out@.len() - 1].timestamp);
                        }
                        assert forall|i: int| 0 <= i < out@.len() implies out@[i].id
                            != self.msgs()[b as int].id by {
                            let j0 = choose|j0: int|
                                0 <= j0 < n && out@[i] == self.msgs()[j0] && taken@[j0];
                            assert(j0 != b);
                        }
                    }
                    let ghost prev = out@;
                    taken.set(b, true);
                    out.push(self.messages[b].clone());
                    proof {
                        assert(out@ == prev.push(self.msgs()[b as int]));
                        assert forall|jj: int|
                            0 <= jj < n && #[trigger] taken@[jj] implies out@.contains(
                            self.msgs()[jj],
                        ) && eligible(self.msgs()[jj], before) by {
                            if jj == b {
                                assert(out@[out@.len() - 1] == self.msgs()[b as int]);
                            } else {
                                assert(prev.contains(self.msgs()[jj]));
                                let i0 = choose|i0: int|
                                    0 <= i0 < prev.len() && prev[i0] == self.msgs()[jj];
                                assert(out@[i0] == self.msgs()[jj]);
                            }
                        }
                    }
                },
            }
        }
        proof {
            assert forall|k: int|
                0 <= k < self.msgs().len() && eligible(#[trigger] self.msgs()[k], before)
                    && !out@.contains(self.msgs()[k]) implies out@.len() == limit && (out@.len() > 0
                ==> self.msgs()[k].timestamp <= out@[out@.len() - 1].timestamp) by {
                assert(!taken@[k]);
            }
            assert forall|i: int| 0 <= i < out@.len() implies self.msgs().contains(
                #[trigger] out@[i],
            ) by {
                let j0 = choose|j0: int| 0 <= j0 < n && out@[i] == self.msgs()[j0] && taken@[j0];
                assert(self.msgs()[j0] == out@[i]);
            }
        }
        out
    }

    /// Sets `published = true` for the message with the given identifier
    /// and returns the updated row; fails with `NotFound`, changing
    /// nothing, when no such message exists.
    pub fn mark_published(&mut self, id: u128) -> (r: Result<ChatMessage, StoreError>)
        requires
            old(self).wf(),
        ensures
            final(self).wf(),
            final(self).chans() == old(self).chans(),
            r is Ok <==> contains_msg(old(self).msgs(), id),
            r matches Ok(m) ==> m.id == id && m.published && exists|i: int|
                0 <= i < old(self).msgs().len() && old(self).msgs()[i].id == id
                    && m == with_published(#[trigger] old(self).msgs()[i])
                    && final(self).msgs() == old(self).msgs().update(i, m),
            r is Err ==> *final(self) == *old(self) && r->Err_0 == StoreError::NotFound,
            published_monotone(old(self).msgs(), final(self).msgs()),
            ids_preserved(old(self).msgs(), final(self).msgs()),
    {
        match self.find_msg(id) {
            None => Err(StoreError::NotFound),
            Some(i) => {
                let orig = self.messages[i].clone();
                let updated = ChatMessage {
                    id: orig.id,
                    platform: orig.platform,
                    channel: orig.channel,
                    username: orig.username,
                    content: orig.content,
                    additional_info: orig.additional_info,
                    timestamp: orig.timestamp,
                    published: true,
                };
                let ret = updated.clone();
                self.messages.set(i, updated);
                assert(final(self).msgs() == old(self).msgs().update(i as int, with_published(
                    old(self).msgs()[i as int],
                )));
                proof {
                    assert forall|j: int| 0 <= j < old(self).msgs().len() implies contains_msg(
                        final(self).msgs(),
                        (#[trigger] old(self).msgs()[j]).id,
                    ) by {
                        assert(final(self).msgs()[j].id == old(self).msgs()[j].id);
                    }
                }
                Ok(ret)
            },
        }
    }
    /// The position of the channel with this (platform, name) key, if any.
    fn find_chan(&self, platform: Platform, name: &String) -> (r: Option<usize>)
        ensures
            match r {
                Some(i) => i < self.chans().len() && self.chans()[i as int].platform == platform
                    && self.chans()[i as int].name@ == name@,
                None => !contains_chan(self.chans(), platform, name@),
            },
    {
        let mut i: usize = 0;
        while i < self.channels.len()
            invariant
                i <= self.chans().len(),
                forall|k: int|
                    0 <= k < i ==> !(self.chans()[k].platform == platform
                        && self.chans()[k].name@ == name@),
            decreases self.chans().len() - i,
        {
            if self.channels[i].platform == platform && self.channels[i].name == *name {
                return Some(i);
            }
            i = i + 1;
        }
        None
    }

    /// Registers a channel definition under a fresh identifier, with
    /// `listen` off. Fails with `Conflict`, changing nothing, when the
    /// (platform, name) pair is already registered.
    pub fn add_channel(&mut self, id: u128, name: String, platform: Platform) -> (r: Result<
        (),
        StoreError,
    >)
        requires
            old(self).wf(),
        ensures
            final(self).wf(),
            final(self).msgs() == old(self).msgs(),
            r is Ok <==> !contains_chan(old(self).chans(), platform, name@),
            r is Ok ==> final(self).chans() == old(self).chans().push(
                Channel { id, name, platform, listen: false },
            ),
            r is Err ==> *final(self) == *old(self) && r->Err_0 == StoreError::Conflict,
    {
        self.restore_channel(Channel { id, name, platform, listen: false })
    }

    /// Re-registers a channel definition exactly as a durable copy recorded
    /// it, keeping its identifier and `listen` flag; used to rebuild state
    /// at boot. The same conflict rule as `add_channel` applies.
    pub fn restore_channel(&mut self, c: Channel) -> (r: Result<(), StoreError>)
        requires
            old(self).wf(),
        ensures
            final(self).wf(),
            final(self).msgs() == old(self).msgs(),
            r is Ok <==> !contains_chan(old(self).chans(), c.platform, c.name@),
            r is Ok ==> final(self).chans() == old(self).chans().push(c),
            r is Err ==> *final(self) == *old(self) && r->Err_0 == StoreError::Conflict,
    {
        if self.find_chan(c.platform, &c.name).is_some() {
            return Err(StoreError::Conflict);
        }
        self.channels.push(c);
        Ok(())
    }

    /// Removes the channel definition with this (platform, name) key.
    /// Removing an unknown key is a no-op, not an error; an active listener
    /// is not stopped by this (stopping is a separate, explicit operation).
    pub fn delete_channel(&mut self, platform: Platform, name: &String) -> (removed: bool)
        requires
            old(self).wf(),
        ensures
            final(self).wf(),
            final(self).msgs() == old(self).msgs(),
            removed == contains_chan(old(self).chans(), platform, name@),
            !contains_chan(final(self).chans(), platform, name@),
            removed ==> exists|i: int|
                0 <= i < old(self).chans().len() && old(self).chans()[i].platform == platform
                    && (#[trigger] old(self).chans()[i]).name@ == name@ && final(self).chans()
                    == old(self).chans().remove(i),
            !removed ==> *final(self) == *old(self),
    {
        match self.find_chan(platform, name) {
            None => false,
            Some(i) => {
                let ghost prev = self.chans();
                self.channels.remove(i);
                proof {
                    assert forall|a: int, b: int| 0 <= a < b < self.chans().len() implies !(
                    self.chans()[a].platform == self.chans()[b].platform && self.chans()[a].name@
                        == self.chans()[b].name@) by {
                        let a0 = if a < i { a } else { a + 1 };
                        let b0 = if b < i { b } else { b + 1 };
                        assert(self.chans()[a] == prev[a0]);
                        assert(self.chans()[b] == prev[b0]);
                    }
                    assert forall|k: int| 0 <= k < self.chans().len() implies !(
                    self.chans()[k].platform == platform && (#[trigger] self.chans()[k]).name@
                        == name@) by {
                        let k0 = if k < i { k } else { k + 1 };
                        assert(self.chans()[k] == prev[k0]);
                    }
                }
                true
            },
        }
    }

    /// Returns every stored channel definition, in insertion order.
    pub fn get_channels(&self) -> (r: Vec<Channel>)
        ensures
            r@ == self.chans(),
    {
        let mut r: Vec<Channel> = Vec::new();
        let mut i: usize = 0;
        while i < self.channels.len()
            invariant
                i <= self.chans().len(),
                r@ == self.chans().subrange(0, i as int),
            decreases self.chans().len() - i,
        {
            r.push(self.channels[i].clone());
            proof {
                assert(r@ =~= self.chans().subrange(0, i + 1 as int));
            }
            i = i + 1;
        }
        proof {
            assert(r@ =~= self.chans());
        }
        r
    }
}

} // verus!
