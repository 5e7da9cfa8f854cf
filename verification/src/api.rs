//! Request-level decision logic: what each API operation does with its raw
//! path and query parameters, and which outcome the caller must report.
//!
//! Transport, JSON bodies, and the adapter connections stay outside; these
//! functions take the parameter strings as they arrive and leave behind an
//! outcome that maps one-to-one onto the response. A missing parameter is a
//! request error and changes nothing.

use vstd::prelude::*;
use vstd::string::StringSliceAdditionalSpecFns;

use crate::hub::ClientFeed;
use crate::ids::fresh_id;
use crate::parse::{
    parse_u128, parse_u64, parse_usize, spec_parse_u128, spec_parse_u64, spec_parse_usize,
};
use crate::publish::{feed_covered, publish_message};
use crate::registry::{ListenerRegistry, StopOutcome};
use crate::store::{contains_chan, contains_msg, ids_preserved, is_page, published_monotone,
    with_published, MessageStore};
use crate::types::{Channel, ChatMessage, Platform};

verus! {

/// The page size used when the query gives no readable `limit`.
pub const DEFAULT_PAGE_LIMIT: usize = 50;

/// The UTF-8 bytes of a parameter string.
pub open spec fn bytes_of(s: Seq<char>) -> Seq<u8> {
    vstd::utf8::encode_utf8(s)
}

/// The page size a `limit` query parameter denotes: its decimal value, or
/// the default when it is absent or unreadable.
pub open spec fn spec_limit_of(p: Option<&String>) -> usize {
    match p {
        None => DEFAULT_PAGE_LIMIT,
        Some(s) => match spec_parse_usize(bytes_of(s@)) {
            Some(v) => v,
            None => DEFAULT_PAGE_LIMIT,
        },
    }
}

/// The cursor a `before` query parameter denotes, if it is readable.
pub open spec fn spec_before_of(p: Option<&String>) -> Option<u64> {
    match p {
        None => None,
        Some(s) => spec_parse_u64(bytes_of(s@)),
    }
}

/// The identifier a `publish` path parameter denotes; an unreadable one
/// collapses to zero and is then looked up like any other.
pub open spec fn spec_id_of(s: Seq<char>) -> u128 {
    match spec_parse_u128(bytes_of(s)) {
        Some(v) => v,
        None => 0,
    }
}

/// The history endpoint: a page of stored messages under the query's
/// limit and cursor, newest first.
pub fn get_messages_request(
    store: &MessageStore,
    limit_param: Option<&String>,
    before_param: Option<&String>,
) -> (r: Vec<ChatMessage>)
    requires
        store.wf(),
    ensures
        is_page(
            store.msgs(),
            spec_limit_of(limit_param) as int,
            spec_before_of(before_param),
            r@,
        ),
{
    let limit: usize = match limit_param {
        None => DEFAULT_PAGE_LIMIT,
        Some(s) => match parse_usize(s.as_str()) {
            Some(v) => v,
            None => DEFAULT_PAGE_LIMIT,
        },
    };
    let before: Option<u64> = match before_param {
        None => None,
        Some(s) => parse_u64(s.as_str()),
    };
    store.get_messages(limit, before)
}

/// What an approval request did.
#[derive(Debug)]
pub enum PublishOutcome {
    /// The row was flipped to published and delivered to the client feed.
    Published(ChatMessage),
    /// The request carried no identifier; nothing was touched.
    MissingId,
    /// No stored message has the identifier; nothing was touched.
    UnknownId,
}

impl PublishOutcome {
    /// The status an approval outcome maps to: approved 200, a request
    /// without an identifier 400, an unknown identifier a failure 500.
    pub fn status(&self) -> (c: u16)
        ensures
            c == match self {
                PublishOutcome::Published(_) => 200int,
                PublishOutcome::MissingId => 400int,
                PublishOutcome::UnknownId => 500int,
            },
    {
        match self {
            PublishOutcome::Published(_) => 200,
            PublishOutcome::MissingId => 400,
            PublishOutcome::UnknownId => 500,
        }
    }
}

/// The approval endpoint: flips the addressed message to published and
/// delivers the canonical row to the client feed; on a missing or unknown
/// identifier nothing changes and no feed emits anything.
pub fn publish_request(
    store: &mut MessageStore,
    client: &mut ClientFeed,
    id_param: Option<&String>,
) -> (r: PublishOutcome)
    requires
        old(store).wf(),
        old(client).wf(),
    ensures
        final(store).wf(),
        final(client).wf(),
        final(store).chans() == old(store).chans(),
        id_param is None ==> (r matches PublishOutcome::MissingId) && *final(store) == *old(store)
            && *final(client) == *old(client),
        id_param matches Some(s) ==> {
            let id = spec_id_of(s@);
            &&& (r matches PublishOutcome::Published(m) ==> m.id == id && m.published && (
            exists|i: int|
                0 <= i < old(store).msgs().len() && old(store).msgs()[i].id == id && m
                    == with_published(#[trigger] old(store).msgs()[i]) && final(store).msgs()
                    == old(store).msgs().update(i, m)) && final(client).history()
                == old(client).history().push(m))
            &&& ((r matches PublishOutcome::Published(_)) <==> contains_msg(
                old(store).msgs(),
                id,
            ))
            &&& (r matches PublishOutcome::UnknownId ==> *final(store) == *old(store)
                && *final(client) == *old(client))
            &&& !(r matches PublishOutcome::MissingId)
        },
        published_monotone(old(store).msgs(), final(store).msgs()),
        ids_preserved(old(store).msgs(), final(store).msgs()),
        feed_covered(old(store).msgs(), old(client).history()) ==> feed_covered(
            final(store).msgs(),
            final(client).history(),
        ),
{
    match id_param {
        None => PublishOutcome::MissingId,
        Some(s) => {
            let id: u128 = match parse_u128(s.as_str()) {
                Some(v) => v,
                None => 0,
            };
            match publish_message(store, client, id) {
                Ok(m) => PublishOutcome::Published(m),
                Err(_) => PublishOutcome::UnknownId,
            }
        },
    }
}

/// What a listen request needs next. The caller acts on `Connect` by
/// establishing the adapter stream and, once its task runs, registering it
/// under the same key.
#[derive(Debug, PartialEq, Eq, Structural)]
pub enum ListenDecision {
    /// A parameter was missing; a request error, nothing to do.
    MissingParam,
    /// The platform tag names no listenable platform; a request error.
    UnknownPlatform,
    /// The key already has a running task; success, nothing to do.
    AlreadyListening,
    /// Nothing listens on the key yet: connect this platform's adapter.
    Connect(Platform),
}

/// The listen endpoint's decision. Read-only: registration happens only
/// after the caller has a running task to register.
pub fn listen_request(
    reg: &ListenerRegistry,
    platform_param: Option<&String>,
    name_param: Option<&String>,
) -> (r: ListenDecision)
    ensures
        platform_param is None || name_param is None ==> r == ListenDecision::MissingParam,
        match (platform_param, name_param) {
            (Some(p), Some(nm)) => match Platform::spec_of_tag(p@) {
                None => r == ListenDecision::UnknownPlatform,
                Some(pl) => ((r == ListenDecision::AlreadyListening) <==> reg.is_active(pl, nm@))
                    && (!reg.is_active(pl, nm@) ==> r == ListenDecision::Connect(pl)),
            },
            _ => true,
        },
{
    match (platform_param, name_param) {
        (Some(p), Some(nm)) => match Platform::of_tag(p) {
            None => ListenDecision::UnknownPlatform,
            Some(pl) => if reg.is_listening(pl, nm) {
                ListenDecision::AlreadyListening
            } else {
                ListenDecision::Connect(pl)
            },
        },
        _ => ListenDecision::MissingParam,
    }
}

/// What a stop request did.
#[derive(Debug, PartialEq, Eq, Structural)]
pub enum UnlistenOutcome {
    /// A parameter was missing; a request error, nothing touched.
    MissingParam,
    /// The entry was removed; cancel the task behind this handle.
    Stopped(u64),
    /// Nothing was listening there — still a success, as stopping an
    /// unknown listener is an informational no-op.
    NotListening,
}

impl UnlistenOutcome {
    /// The status a stop outcome maps to: both stopping and the no-op are
    /// 200; only a missing parameter is an error.
    pub fn status(&self) -> (c: u16)
        ensures
            c == match self {
                UnlistenOutcome::MissingParam => 400int,
                UnlistenOutcome::Stopped(_) => 200int,
                UnlistenOutcome::NotListening => 200int,
            },
    {
        match self {
            UnlistenOutcome::MissingParam => 400,
            UnlistenOutcome::Stopped(_) => 200,
            UnlistenOutcome::NotListening => 200,
        }
    }
}

/// The unlisten endpoint: removes the key's entry and hands back the task
/// handle to cancel. Unknown keys and unknown platform tags are successful
/// no-ops; every other key keeps its task.
pub fn unlisten_request(
    reg: &mut ListenerRegistry,
    platform_param: Option<&String>,
    name_param: Option<&String>,
) -> (r: UnlistenOutcome)
    requires
        old(reg).wf(),
    ensures
        final(reg).wf(),
        platform_param is None || name_param is None ==> r == UnlistenOutcome::MissingParam
            && *final(reg) == *old(reg),
        match (platform_param, name_param) {
            (Some(p), Some(nm)) => match Platform::spec_of_tag(p@) {
                None => r == UnlistenOutcome::NotListening && *final(reg) == *old(reg),
                Some(pl) => {
                    &&& ((r == UnlistenOutcome::NotListening) <==> !old(reg).is_active(pl, nm@))
                    &&& (r == UnlistenOutcome::NotListening ==> *final(reg) == *old(reg))
                    &&& ((r matches UnlistenOutcome::Stopped(_)) <==> old(reg).is_active(pl, nm@))
                    &&& !final(reg).is_active(pl, nm@)
                    &&& forall|p2: Platform, n2: Seq<char>|
                        !(p2 == pl && n2 == nm@) ==> #[trigger] final(reg).is_active(p2, n2)
                            == old(reg).is_active(p2, n2)
                },
            },
            _ => true,
        },
{
    match (platform_param, name_param) {
        (Some(p), Some(nm)) => match Platform::of_tag(p) {
            None => UnlistenOutcome::NotListening,
            Some(pl) => match reg.stop_listener(pl, nm) {
                StopOutcome::Stopped(h) => UnlistenOutcome::Stopped(h),
                StopOutcome::NotListening => UnlistenOutcome::NotListening,
            },
        },
        _ => UnlistenOutcome::MissingParam,
    }
}

/// What a channel registration did.
#[derive(Debug, PartialEq, Eq, Structural)]
pub enum AddChannelOutcome {
    /// Registered, under this fresh identifier.
    Added(u128),
    /// A parameter was missing; a request error, nothing touched.
    MissingParam,
    /// The platform tag names no platform; a request error.
    UnknownPlatform,
    /// The (platform, name) pair is already registered; nothing touched.
    Conflict,
}

impl AddChannelOutcome {
    /// The status a registration outcome maps to: registered 200, a bad
    /// request 400, a conflict a failure 500.
    pub fn status(&self) -> (c: u16)
        ensures
            c == match self {
                AddChannelOutcome::Added(_) => 200int,
                AddChannelOutcome::MissingParam => 400int,
                AddChannelOutcome::UnknownPlatform => 400int,
                AddChannelOutcome::Conflict => 500int,
            },
    {
        match self {
            AddChannelOutcome::Added(_) => 200,
            AddChannelOutcome::MissingParam => 400,
            AddChannelOutcome::UnknownPlatform => 400,
            AddChannelOutcome::Conflict => 500,
        }
    }
}

/// The channel-registration endpoint: stores the (platform, name) pair
/// under a fresh identifier with `listen` off, or reports the conflict.
pub fn add_channel_request(
    store: &mut MessageStore,
    platform_param: Option<&String>,
    name_param: Option<&String>,
) -> (r: AddChannelOutcome)
    requires
        old(store).wf(),
    ensures
        final(store).wf(),
        final(store).msgs() == old(store).msgs(),
        platform_param is None || name_param is None ==> r == AddChannelOutcome::MissingParam
            && *final(store) == *old(store),
        match (platform_param, name_param) {
            (Some(p), Some(nm)) => match Platform::spec_of_tag(p@) {
                None => r == AddChannelOutcome::UnknownPlatform && *final(store) == *old(store),
                Some(pl) => {
                &&& ((r matches AddChannelOutcome::Added(_)) <==> !contains_chan(
                    old(store).chans(),
                    pl,
                    nm@,
                ))
                &&& (r matches AddChannelOutcome::Added(id) ==> final(store).chans() == old(
                    store,
                ).chans().push(Channel { id, name: *nm, platform: pl, listen: false }))
                    &&& ((r == AddChannelOutcome::Conflict) <==> contains_chan(
                        old(store).chans(),
                        pl,
                        nm@,
                    ))
                    &&& r == AddChannelOutcome::Conflict ==> *final(store) == *old(store)
                },
            },
            _ => true,
        },
{
    match (platform_param, name_param) {
        (Some(p), Some(nm)) => match Platform::of_tag(p) {
            None => AddChannelOutcome::UnknownPlatform,
            Some(pl) => {
                let id = fresh_id();
                match store.add_channel(id, nm.clone(), pl) {
                    Ok(_) => AddChannelOutcome::Added(id),
                    Err(_) => AddChannelOutcome::Conflict,
                }
            },
        },
        _ => AddChannelOutcome::MissingParam,
    }
}

/// What a channel removal did.
#[derive(Debug, PartialEq, Eq, Structural)]
pub enum DeleteChannelOutcome {
    /// A parameter was missing; a request error, nothing touched.
    MissingParam,
    /// The endpoint answered success; the flag says whether a stored
    /// definition was actually removed.
    Removed(bool),
}

impl DeleteChannelOutcome {
    /// The status a removal outcome maps to: removal and the no-op are
    /// both 200; only a missing parameter is an error.
    pub fn status(&self) -> (c: u16)
        ensures
            c == match self {
                DeleteChannelOutcome::MissingParam => 400int,
                DeleteChannelOutcome::Removed(_) => 200int,
            },
    {
        match self {
            DeleteChannelOutcome::MissingParam => 400,
            DeleteChannelOutcome::Removed(_) => 200,
        }
    }
}

/// The channel-removal endpoint: deletes the (platform, name) definition
/// if it is stored. An unknown pair — or an unknown platform tag, under
/// which nothing can be stored — is a successful no-op. An active listener
/// on the pair is not stopped by this.
pub fn delete_channel_request(
    store: &mut MessageStore,
    platform_param: Option<&String>,
    name_param: Option<&String>,
) -> (r: DeleteChannelOutcome)
    requires
        old(store).wf(),
    ensures
        final(store).wf(),
        final(store).msgs() == old(store).msgs(),
        platform_param is None || name_param is None ==> r == DeleteChannelOutcome::MissingParam
            && *final(store) == *old(store),
        match (platform_param, name_param) {
            (Some(p), Some(nm)) => match Platform::spec_of_tag(p@) {
                None => r == DeleteChannelOutcome::Removed(false) && *final(store) == *old(store),
                Some(pl) => {
                &&& r == DeleteChannelOutcome::Removed(
                    contains_chan(old(store).chans(), pl, nm@),
                )
                &&& !contains_chan(final(store).chans(), pl, nm@)
                &&& (contains_chan(old(store).chans(), pl, nm@) ==> exists|i: int|
                    0 <= i < old(store).chans().len() && old(store).chans()[i].platform == pl && (
                    #[trigger] old(store).chans()[i]).name@ == nm@ && final(store).chans() == old(
                        store,
                    ).chans().remove(i))
                    &&& (!contains_chan(old(store).chans(), pl, nm@) ==> *final(store) == *old(
                        store,
                    ))
                },
            },
            _ => true,
        },
{
    match (platform_param, name_param) {
        (Some(p), Some(nm)) => match Platform::of_tag(p) {
            None => DeleteChannelOutcome::Removed(false),
            Some(pl) => {
                let removed = store.delete_channel(pl, nm);
                DeleteChannelOutcome::Removed(removed)
            },
        },
        _ => DeleteChannelOutcome::MissingParam,
    }
}

} // verus!
