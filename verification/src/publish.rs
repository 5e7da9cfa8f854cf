//! The publish coordinator: the one-way pending-to-published transition,
//! and the only path by which a message ever reaches the public audience.

use vstd::prelude::*;

use crate::hub::ClientFeed;
use crate::store::{contains_msg, ids_preserved, published_monotone, with_published, MessageStore};
use crate::types::{ChatMessage, StoreError};

verus! {

/// Every message on a feed log corresponds to a store row, under the same
/// identifier, whose `published` flag is set.
pub open spec fn feed_covered(msgs: Seq<ChatMessage>, hist: Seq<ChatMessage>) -> bool {
    forall|k: int|
        0 <= k < hist.len() ==> exists|i: int|
            0 <= i < msgs.len() && msgs[i].id == (#[trigger] hist[k]).id && msgs[i].published
}

/// Feed coverage survives any store step that keeps every identifier and
/// never un-publishes a message — which is every operation of this core:
/// what the public audience has seen stays backed by a published store row.
pub proof fn lemma_feed_covered_step(
    before: Seq<ChatMessage>,
    after: Seq<ChatMessage>,
    hist: Seq<ChatMessage>,
)
    requires
        feed_covered(before, hist),
        published_monotone(before, after),
        forall|i: int| 0 <= i < before.len() ==> contains_msg(after, (#[trigger] before[i]).id),
    ensures
        feed_covered(after, hist),
{
    assert forall|k: int| 0 <= k < hist.len() implies exists|i: int|
        0 <= i < after.len() && after[i].id == (#[trigger] hist[k]).id && after[i].published by {
        let i0 = choose|i0: int|
            0 <= i0 < before.len() && before[i0].id == hist[k].id && before[i0].published;
        assert(contains_msg(after, before[i0].id));
        let j = choose|j: int| 0 <= j < after.len() && after[j].id == before[i0].id;
        assert(after[j].published);
    }
}

/// Approves a message: flips its stored `published` flag, re-reads the
/// canonical row, and delivers that row to the client feed. On an unknown
/// identifier it fails with `NotFound` and no feed sees anything.
/// Approving an already-published message is accepted: the stored state is
/// unchanged in effect and the row is re-sent to the client feed.
pub fn publish_message(store: &mut MessageStore, client: &mut ClientFeed, id: u128) -> (r: Result<
    ChatMessage,
    StoreError,
>)
    requires
        old(store).wf(),
        old(client).wf(),
    ensures
        final(store).wf(),
        final(client).wf(),
        final(store).chans() == old(store).chans(),
        final(client).cap() == old(client).cap(),
        r is Ok <==> contains_msg(old(store).msgs(), id),
        r matches Ok(m) ==> m.id == id && m.published && (exists|i: int|
            0 <= i < old(store).msgs().len() && old(store).msgs()[i].id == id && m
                == with_published(#[trigger] old(store).msgs()[i]) && final(store).msgs() == old(
                store,
            ).msgs().update(i, m)) && final(client).history() == old(client).history().push(m),
        r is Err ==> *final(store) == *old(store) && *final(client) == *old(client) && r->Err_0
            == StoreError::NotFound,
        published_monotone(old(store).msgs(), final(store).msgs()),
        ids_preserved(old(store).msgs(), final(store).msgs()),
        feed_covered(old(store).msgs(), old(client).history()) ==> feed_covered(
            final(store).msgs(),
            final(client).history(),
        ),
{
    match store.mark_published(id) {
        Err(e) => Err(e),
        Ok(m) => {
            let out = m.clone();
            client.publish(m);
            proof {
                if feed_covered(old(store).msgs(), old(client).history()) {
                    assert forall|i: int| 0 <= i < old(store).msgs().len() implies contains_msg(
                        final(store).msgs(),
                        (#[trigger] old(store).msgs()[i]).id,
                    ) by {
                        let i0 = choose|i0: int|
                            0 <= i0 < old(store).msgs().len() && old(store).msgs()[i0].id == id
                                && out == with_published(old(store).msgs()[i0])
                                && final(store).msgs() == old(store).msgs().update(i0, out);
                        assert(final(store).msgs()[i].id == old(store).msgs()[i].id);
                    }
                    lemma_feed_covered_step(
                        old(store).msgs(),
                        final(store).msgs(),
                        old(client).history(),
                    );
                    assert forall|k: int|
                        0 <= k < final(client).history().len() implies exists|i: int|
                        0 <= i < final(store).msgs().len() && final(store).msgs()[i].id == (
                        #[trigger] final(client).history()[k]).id
                        && final(store).msgs()[i].published by {
                        if k < old(client).history().len() {
                            assert(final(client).history()[k] == old(client).history()[k]);
                        } else {
                            let i0 = choose|i0: int|
                                0 <= i0 < old(store).msgs().len() && old(store).msgs()[i0].id == id
                                    && out == with_published(old(store).msgs()[i0])
                                    && final(store).msgs() == old(store).msgs().update(i0, out);
                            assert(final(store).msgs()[i0].id == id);
                            assert(final(client).history()[k] == out);
                        }
                    }
                }
            }
            Ok(out)
        },
    }
}

} // verus!
