//! The channel registry: which (platform, channel-name) pairs currently have
//! a running ingestion task, with at most one task per pair.

use vstd::prelude::*;

use crate::types::Platform;

verus! {

/// Ownership of one running ingestion task. `handle` is the caller's token
/// for the task (whatever the runtime uses to cancel it), held so that a
/// stop request can hand it back.
pub struct ListenerEntry {
    pub platform: Platform,
    pub name: String,
    pub handle: u64,
}

/// Whether some entry carries this (platform, name) key.
pub open spec fn contains_key(s: Seq<ListenerEntry>, platform: Platform, name: Seq<char>) -> bool {
    exists|i: int| 0 <= i < s.len() && s[i].platform == platform && s[i].name@ == name
}

/// Entry keys are pairwise distinct: at most one task per pair.
pub open spec fn keys_unique(s: Seq<ListenerEntry>) -> bool {
    forall|i: int, j: int|
        0 <= i < j < s.len() ==> !(s[i].platform == s[j].platform && s[i].name@ == s[j].name@)
}

/// Tracks, for every (platform, name) pair, whether an ingestion task is
/// currently running, and owns the mapping from pair to task handle.
pub struct ListenerRegistry {
    entries: Vec<ListenerEntry>,
}

/// What a listen request did.
#[derive(Clone, Copy, Debug, PartialEq, Eq, Structural)]
pub enum StartOutcome {
    /// A new task was registered under the key.
    Started,
    /// The key already had a running task; nothing was changed.
    AlreadyListening,
}

/// What a stop request did.
#[derive(Clone, Copy, Debug, PartialEq, Eq, Structural)]
pub enum StopOutcome {
    /// The entry was removed; the task behind this handle should be
    /// cancelled by the caller.
    Stopped(u64),
    /// Nothing was listening under the key; informational, not an error.
    NotListening,
}

impl ListenerRegistry {
    /// The registered entries, in registration order.
    pub closed spec fn entries(&self) -> Seq<ListenerEntry> {
        self.entries@
    }

    /// Registry invariant: at most one entry per (platform, name) key.
    pub open spec fn wf(&self) -> bool {
        keys_unique(self.entries())
    }

    /// Whether a task is registered under this key.
    pub open spec fn is_active(&self, platform: Platform, name: Seq<char>) -> bool {
        contains_key(self.entries(), platform, name)
    }

    /// An empty registry: nothing is listening.
    pub fn new() -> (r: ListenerRegistry)
        ensures
            r.wf(),
            r.entries() == Seq::<ListenerEntry>::empty(),
    {
        ListenerRegistry { entries: Vec::new() }
    }

    /// The position of the entry with this key, if any.
    fn find_entry(&self, platform: Platform, name: &String) -> (r: Option<usize>)
        ensures
            match r {
                Some(i) => i < self.entries().len() && self.entries()[i as int].platform == platform
                    && self.entries()[i as int].name@ == name@,
                None => !self.is_active(platform, name@),
            },
    {
        let mut i: usize = 0;
        while i < self.entries.len()
            invariant
                i <= self.entries().len(),
                forall|k: int|
                    0 <= k < i ==> !(self.entries()[k].platform == platform
                        && self.entries()[k].name@ == name@),
            decreases self.entries().len() - i,
        {
            if self.entries[i].platform == platform && self.entries[i].name == *name {
                return Some(i);
            }
            i = i + 1;
        }
        None
    }

    /// Whether a task is currently registered under this key.
    pub fn is_listening(&self, platform: Platform, name: &String) -> (r: bool)
        ensures
            r == self.is_active(platform, name@),
    {
        self.find_entry(platform, name).is_some()
    }

    /// Registers a running task under its key. Idempotent: when the key is
    /// already taken the registry is left exactly as it was — a second
    /// listen request never yields two tasks for one pair. Every other
    /// key's state is untouched either way.
    pub fn start_listener(&mut self, platform: Platform, name: String, handle: u64) -> (r:
        StartOutcome)
        requires
            old(self).wf(),
        ensures
            final(self).wf(),
            (r == StartOutcome::AlreadyListening) <==> old(self).is_active(platform, name@),
            old(self).is_active(platform, name@) ==> *final(self) == *old(self),
            !old(self).is_active(platform, name@) ==> final(self).entries() == old(
                self,
            ).entries().push(ListenerEntry { platform, name, handle }),
            final(self).is_active(platform, name@),
            forall|p2: Platform, n2: Seq<char>|
                !(p2 == platform && n2 == name@) ==> #[trigger] final(self).is_active(p2, n2)
                    == old(self).is_active(p2, n2),
    {
        if self.is_listening(platform, &name) {
            return StartOutcome::AlreadyListening;
        }
        let ghost prev = self.entries();
        self.entries.push(ListenerEntry { platform, name, handle });
        proof {
            assert(self.entries()[self.entries().len() - 1].name@ == name@);
            assert forall|p2: Platform, n2: Seq<char>|
                !(p2 == platform && n2 == name@) implies #[trigger] self.is_active(p2, n2)
                == contains_key(prev, p2, n2) by {
                if self.is_active(p2, n2) {
                    let i = choose|i: int|
                        0 <= i < self.entries().len() && self.entries()[i].platform == p2
                            && self.entries()[i].name@ == n2;
                    assert(i < prev.len() && prev[i] == self.entries()[i]);
                }
                if contains_key(prev, p2, n2) {
                    let i = choose|i: int|
                        0 <= i < prev.len() && prev[i].platform == p2 && prev[i].name@ == n2;
                    assert(self.entries()[i] == prev[i]);
                }
            }
        }
        StartOutcome::Started
    }

    /// Removes the entry under this key and hands back its task handle so
    /// the caller can signal cancellation. Stopping an unknown key is a
    /// successful no-op. Every other key's state is untouched.
    pub fn stop_listener(&mut self, platform: Platform, name: &String) -> (r: StopOutcome)
        requires
            old(self).wf(),
        ensures
            final(self).wf(),
            (r == StopOutcome::NotListening) <==> !old(self).is_active(platform, name@),
            !old(self).is_active(platform, name@) ==> *final(self) == *old(self),
            r matches StopOutcome::Stopped(h) ==> exists|i: int|
                0 <= i < old(self).entries().len() && #[trigger] old(self).entries()[i]
                    == (ListenerEntry { platform, name: old(self).entries()[i].name, handle: h })
                    && old(self).entries()[i].name@ == name@ && final(self).entries() == old(
                    self,
                ).entries().remove(i),
            !final(self).is_active(platform, name@),
            forall|p2: Platform, n2: Seq<char>|
                !(p2 == platform && n2 == name@) ==> #[trigger] final(self).is_active(p2, n2)
                    == old(self).is_active(p2, n2),
    {
        match self.find_entry(platform, name) {
            None => StopOutcome::NotListening,
            Some(i) => {
                let handle = self.entries[i].handle;
                let ghost prev = self.entries();
                self.entries.remove(i);
                proof {
                    assert forall|a: int, b: int|
                        0 <= a < b < self.entries().len() implies !(self.entries()[a].platform
                        == self.entries()[b].platform && self.entries()[a].name@
                        == self.entries()[b].name@) by {
                        let a0 = if a < i { a } else { a + 1 };
                        let b0 = if b < i { b } else { b + 1 };
                        assert(self.entries()[a] == prev[a0]);
                        assert(self.entries()[b] == prev[b0]);
                    }
                    assert forall|p2: Platform, n2: Seq<char>|
                        !(p2 == platform && n2 == name@) implies #[trigger] self.is_active(p2, n2)
                        == contains_key(prev, p2, n2) by {
                        if self.is_active(p2, n2) {
                            let k = choose|k: int|
                                0 <= k < self.entries().len() && self.entries()[k].platform == p2
                                    && self.entries()[k].name@ == n2;
                            let k0 = if k < i { k } else { k + 1 };
                            assert(prev[k0] == self.entries()[k]);
                        }
                        if contains_key(prev, p2, n2) {
                            let k0 = choose|k0: int|
                                0 <= k0 < prev.len() && prev[k0].platform == p2 && prev[k0].name@
                                    == n2;
                            assert(k0 != i);
                            let k = if k0 < i { k0 } else { k0 - 1 };
                            assert(self.entries()[k] == prev[k0]);
                        }
                    }
                    assert forall|k: int| 0 <= k < self.entries().len() implies !(
                    self.entries()[k].platform == platform && (#[trigger] self.entries()[k]).name@
                        == name@) by {
                        let k0 = if k < i { k } else { k + 1 };
                        assert(self.entries()[k] == prev[k0]);
                    }
                }
                StopOutcome::Stopped(handle)
            },
        }
    }

    /// The keys that currently have a running task, for diagnostics.
    pub fn list_active(&self) -> (r: Vec<(Platform, String)>)
        ensures
            r@.len() == self.entries().len(),
            forall|i: int|
                0 <= i < r@.len() ==> (#[trigger] r@[i]).0 == self.entries()[i].platform
                    && r@[i].1@ == self.entries()[i].name@,
    {
        let mut r: Vec<(Platform, String)> = Vec::new();
        let mut i: usize = 0;
        while i < self.entries.len()
            invariant
                i <= self.entries().len(),
                r@.len() == i,
                forall|k: int|
                    0 <= k < i ==> (#[trigger] r@[k]).0 == self.entries()[k].platform && r@[k].1@
                        == self.entries()[k].name@,
            decreases self.entries().len() - i,
        {
            r.push((self.entries[i].platform, self.entries[i].name.clone()));
            i = i + 1;
        }
        r
    }
}

} // verus!
