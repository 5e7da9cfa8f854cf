//! The ingestion step: turning one normalized adapter event into a stored,
//! admin-broadcast message.
//!
//! One ingestion task runs per listened channel; each chat event it reads
//! goes through here. The message is persisted first and fanned out to the
//! admin feed only after the store accepted it, so moderators only ever see
//! stored messages.

use vstd::prelude::*;

use crate::hub::Feed;
use crate::ids::{fresh_id, now_millis};
use crate::store::{contains_msg, ids_preserved, published_monotone, MessageStore};
use crate::types::{ChatEvent, ChatMessage, Platform, StoreError};

verus! {

/// Completes a partial adapter event: a missing author becomes "unknown",
/// missing text becomes empty, extras pass through untouched.
pub fn normalize_event(
    username: Option<String>,
    content: Option<String>,
    additional_info: Option<String>,
) -> (ev: ChatEvent)
    ensures
        match username {
            Some(u) => ev.username == u,
            None => ev.username@ == "unknown"@,
        },
        match content {
            Some(c) => ev.content == c,
            None => ev.content@ == ""@,
        },
        ev.additional_info == additional_info,
{
    ChatEvent {
        username: match username {
            Some(u) => u,
            None => "unknown".to_owned(),
        },
        content: match content {
            Some(c) => c,
            None => "".to_owned(),
        },
        additional_info,
    }
}

/// Stores one event as a message under the given identifier and timestamp,
/// then fans it out to the admin feed. The message enters pending
/// (`published = false`); it succeeds exactly when the identifier is fresh,
/// and on failure neither the store nor the feed shows any trace.
pub fn ingest_event_with(
    store: &mut MessageStore,
    admin: &mut Feed,
    platform: Platform,
    channel: &String,
    ev: ChatEvent,
    id: u128,
    timestamp: u64,
) -> (r: Result<ChatMessage, StoreError>)
    requires
        old(store).wf(),
    ensures
        final(store).wf(),
        final(store).chans() == old(store).chans(),
        final(admin).cap() == old(admin).cap(),
        r is Ok <==> !contains_msg(old(store).msgs(), id),
        r matches Ok(m) ==> m.id == id && m.platform == platform && m.channel@ == channel@
            && m.username == ev.username && m.content == ev.content && m.additional_info
            == ev.additional_info && m.timestamp == timestamp && !m.published
            && final(store).msgs() == old(store).msgs().push(m)
            && final(admin).history() == old(admin).history().push(m),
        r is Err ==> *final(store) == *old(store) && *final(admin) == *old(admin) && r->Err_0
            == StoreError::Conflict,
        published_monotone(old(store).msgs(), final(store).msgs()),
        ids_preserved(old(store).msgs(), final(store).msgs()),
{
    let m = ChatMessage {
        id,
        platform,
        channel: channel.clone(),
        username: ev.username,
        content: ev.content,
        additional_info: ev.additional_info,
        timestamp,
        published: false,
    };
    let out = m.clone();
    match store.insert(m) {
        Ok(_) => {
            let fanned = out.clone();
            admin.publish(fanned);
            Ok(out)
        },
        Err(e) => Err(e),
    }
}

/// Stores one event under a freshly drawn time-ordered identifier and the
/// current time, then fans it out to the admin feed. Fails only if the
/// drawn identifier collides with a stored one, and then changes nothing;
/// on an empty store no collision is possible, so it succeeds.
pub fn ingest_event(
    store: &mut MessageStore,
    admin: &mut Feed,
    platform: Platform,
    channel: &String,
    ev: ChatEvent,
) -> (r: Result<ChatMessage, StoreError>)
    requires
        old(store).wf(),
    ensures
        final(store).wf(),
        final(store).chans() == old(store).chans(),
        final(admin).cap() == old(admin).cap(),
        r matches Ok(m) ==> m.platform == platform && m.channel@ == channel@ && m.username
            == ev.username && m.content == ev.content && m.additional_info == ev.additional_info
            && !m.published && final(store).msgs() == old(store).msgs().push(m)
            && final(admin).history() == old(admin).history().push(m),
        r is Err ==> *final(store) == *old(store) && *final(admin) == *old(admin) && r->Err_0
            == StoreError::Conflict,
        r is Err ==> old(store).msgs().len() > 0,
        published_monotone(old(store).msgs(), final(store).msgs()),
        ids_preserved(old(store).msgs(), final(store).msgs()),
{
    let id = fresh_id();
    let timestamp = now_millis();
    ingest_event_with(store, admin, platform, channel, ev, id, timestamp)
}

/// A system notice: authored by the server itself, pre-published, stamped
/// with a fresh identifier and the current time.
pub fn new_sys_msg(content: &str) -> (m: ChatMessage)
    ensures
        m.platform == Platform::System,
        m.channel@ == "system"@,
        m.username@ == "system"@,
        m.content@ == content@,
        m.additional_info is None,
        m.published,
{
    ChatMessage {
        id: fresh_id(),
        platform: Platform::System,
        channel: "system".to_owned(),
        username: "system".to_owned(),
        content: content.to_owned(),
        additional_info: None,
        timestamp: now_millis(),
        published: true,
    }
}

} // verus!
