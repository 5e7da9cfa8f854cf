use chathub::api::{
    add_channel_request, delete_channel_request, get_messages_request, listen_request,
    publish_request, unlisten_request, AddChannelOutcome, DeleteChannelOutcome, ListenDecision,
    PublishOutcome, UnlistenOutcome,
};
use chathub::hub::{ClientFeed, Feed, RecvOutcome};
use chathub::ingest::{ingest_event, ingest_event_with, new_sys_msg, normalize_event};
use chathub::publish::publish_message;
use chathub::registry::{ListenerRegistry, StartOutcome, StopOutcome};
use chathub::store::MessageStore;
use chathub::types::{ChatEvent, Platform, StoreError};

fn event(user: &str, text: &str) -> ChatEvent {
    ChatEvent {
        username: user.to_string(),
        content: text.to_string(),
        additional_info: None,
    }
}

#[test]
fn start_listener_twice_is_idempotent() {
    let mut reg = ListenerRegistry::new();
    let name = "alice".to_string();
    let first = reg.start_listener(Platform::Twitch, name.clone(), 11);
    assert_eq!(first, StartOutcome::Started);
    let second = reg.start_listener(Platform::Twitch, name.clone(), 22);
    assert_eq!(second, StartOutcome::AlreadyListening);
    // still exactly one task for the pair, the first one
    assert_eq!(reg.list_active().len(), 1);
    match reg.stop_listener(Platform::Twitch, &name) {
        StopOutcome::Stopped(h) => assert_eq!(h, 11),
        StopOutcome::NotListening => panic!("a task was registered"),
    }
}

#[test]
fn one_channels_fault_does_not_block_another() {
    let mut reg = ListenerRegistry::new();
    // the adapter for (twitch, broken) never yields a task, so nothing is
    // ever registered under that key; a healthy channel still starts
    let started = reg.start_listener(Platform::Twitch, "healthy".to_string(), 1);
    assert_eq!(started, StartOutcome::Started);
    assert!(reg.is_listening(Platform::Twitch, &"healthy".to_string()));
    assert!(!reg.is_listening(Platform::Twitch, &"broken".to_string()));
    // and starting on another platform under the same name is independent
    let started = reg.start_listener(Platform::Youtube, "healthy".to_string(), 2);
    assert_eq!(started, StartOutcome::Started);
    assert_eq!(reg.list_active().len(), 2);
}

#[test]
fn stop_listener_when_nothing_listens_is_success() {
    let mut reg = ListenerRegistry::new();
    let r = reg.stop_listener(Platform::Twitch, &"alice".to_string());
    assert_eq!(r, StopOutcome::NotListening);
}

#[test]
fn unlisten_request_when_nothing_listens_is_200() {
    let mut reg = ListenerRegistry::new();
    let platform = "twitch".to_string();
    let name = "alice".to_string();
    let r = unlisten_request(&mut reg, Some(&platform), Some(&name));
    assert_eq!(r, UnlistenOutcome::NotListening);
    assert_eq!(r.status(), 200);
}

#[test]
fn unlisten_request_missing_param_is_400() {
    let mut reg = ListenerRegistry::new();
    let platform = "twitch".to_string();
    let r = unlisten_request(&mut reg, Some(&platform), None);
    assert_eq!(r, UnlistenOutcome::MissingParam);
    assert_eq!(r.status(), 400);
}

#[test]
fn listen_request_decisions() {
    let mut reg = ListenerRegistry::new();
    let platform = "twitch".to_string();
    let name = "alice".to_string();
    assert_eq!(listen_request(&reg, None, Some(&name)), ListenDecision::MissingParam);
    let bad = "myspace".to_string();
    assert_eq!(listen_request(&reg, Some(&bad), Some(&name)), ListenDecision::UnknownPlatform);
    assert_eq!(
        listen_request(&reg, Some(&platform), Some(&name)),
        ListenDecision::Connect(Platform::Twitch)
    );
    reg.start_listener(Platform::Twitch, name.clone(), 5);
    assert_eq!(
        listen_request(&reg, Some(&platform), Some(&name)),
        ListenDecision::AlreadyListening
    );
}

#[test]
fn ingest_stores_pending_and_feeds_admin() {
    let mut store = MessageStore::new();
    let mut admin = Feed::new(1000);
    let mut moderator = admin.subscribe();
    let channel = "alice".to_string();
    let m = ingest_event_with(
        &mut store,
        &mut admin,
        Platform::Twitch,
        &channel,
        event("bob", "hi"),
        7,
        100,
    )
    .unwrap();
    assert_eq!(m.platform, Platform::Twitch);
    assert_eq!(m.channel, "alice");
    assert_eq!(m.username, "bob");
    assert_eq!(m.content, "hi");
    assert!(!m.published);
    // the row is stored
    let rows = store.get_messages(10, None);
    assert_eq!(rows.len(), 1);
    assert_eq!(rows[0].id, 7);
    assert!(!rows[0].published);
    // and an admin subscriber receives exactly it
    match admin.recv(&mut moderator) {
        RecvOutcome::Message(got) => {
            assert_eq!(got.id, 7);
            assert_eq!(got.content, "hi");
        }
        _ => panic!("the admin feed holds the new message"),
    }
}

#[test]
fn ingest_with_drawn_id_succeeds_on_empty_store() {
    let mut store = MessageStore::new();
    let mut admin = Feed::new(1000);
    let mut moderator = admin.subscribe();
    let channel = "alice".to_string();
    let m = ingest_event(&mut store, &mut admin, Platform::Twitch, &channel, event("bob", "hi"))
        .unwrap();
    assert!(!m.published);
    assert_eq!(m.username, "bob");
    assert!(m.timestamp > 0);
    assert!(store.has_message(m.id));
    match admin.recv(&mut moderator) {
        RecvOutcome::Message(got) => assert_eq!(got.id, m.id),
        _ => panic!("the admin feed holds the new message"),
    }
}

#[test]
fn ingest_id_clash_leaves_no_trace() {
    let mut store = MessageStore::new();
    let mut admin = Feed::new(1000);
    let channel = "alice".to_string();
    ingest_event_with(&mut store, &mut admin, Platform::Twitch, &channel, event("bob", "hi"), 7, 100)
        .unwrap();
    let mut moderator = admin.subscribe();
    let r = ingest_event_with(
        &mut store,
        &mut admin,
        Platform::Twitch,
        &channel,
        event("eve", "again"),
        7,
        200,
    );
    assert!(matches!(r, Err(StoreError::Conflict)));
    assert_eq!(store.get_messages(10, None).len(), 1);
    assert!(matches!(admin.recv(&mut moderator), RecvOutcome::Pending));
}

#[test]
fn publish_flips_row_and_feeds_client() {
    let mut store = MessageStore::new();
    let mut admin = Feed::new(1000);
    let mut client = ClientFeed::new(1000);
    let mut viewer = client.subscribe();
    let channel = "alice".to_string();
    ingest_event_with(&mut store, &mut admin, Platform::Twitch, &channel, event("bob", "hi"), 7, 100)
        .unwrap();
    // nothing reaches the public audience while the message is pending
    assert!(matches!(client.recv(&mut viewer), RecvOutcome::Pending));
    let m = publish_message(&mut store, &mut client, 7).unwrap();
    assert!(m.published);
    assert_eq!(m.id, 7);
    let rows = store.get_messages(10, None);
    assert!(rows[0].published);
    match client.recv(&mut viewer) {
        RecvOutcome::Message(got) => {
            assert_eq!(got.id, 7);
            assert_eq!(got.content, "hi");
            assert!(got.published);
        }
        _ => panic!("the client feed holds the published message"),
    }
    assert!(matches!(client.recv(&mut viewer), RecvOutcome::Pending));
}

#[test]
fn publish_unknown_id_touches_no_feed() {
    let mut store = MessageStore::new();
    let mut client = ClientFeed::new(1000);
    let mut viewer = client.subscribe();
    let r = publish_message(&mut store, &mut client, 999);
    assert!(matches!(r, Err(StoreError::NotFound)));
    assert!(matches!(client.recv(&mut viewer), RecvOutcome::Pending));
}

#[test]
fn publish_request_missing_and_unknown() {
    let mut store = MessageStore::new();
    let mut client = ClientFeed::new(1000);
    let mut viewer = client.subscribe();
    let r = publish_request(&mut store, &mut client, None);
    assert!(matches!(r, PublishOutcome::MissingId));
    assert_eq!(r.status(), 400);
    let bogus = "does-not-exist".to_string();
    let r = publish_request(&mut store, &mut client, Some(&bogus));
    assert!(matches!(r, PublishOutcome::UnknownId));
    assert_eq!(r.status(), 500);
    assert!(matches!(client.recv(&mut viewer), RecvOutcome::Pending));
}

#[test]
fn publish_request_by_decimal_id() {
    let mut store = MessageStore::new();
    let mut admin = Feed::new(1000);
    let mut client = ClientFeed::new(1000);
    let channel = "alice".to_string();
    ingest_event_with(&mut store, &mut admin, Platform::Twitch, &channel, event("bob", "hi"), 7, 100)
        .unwrap();
    let id = "7".to_string();
    let r = publish_request(&mut store, &mut client, Some(&id));
    match r {
        PublishOutcome::Published(ref m) => {
            assert_eq!(m.id, 7);
            assert!(m.published);
        }
        _ => panic!("the stored id was given"),
    }
    assert_eq!(r.status(), 200);
}

#[test]
fn get_messages_request_defaults_and_params() {
    let mut store = MessageStore::new();
    let channel = "alice".to_string();
    let mut admin = Feed::new(1000);
    for i in 0..60u32 {
        ingest_event_with(
            &mut store,
            &mut admin,
            Platform::Twitch,
            &channel,
            event("bob", "hi"),
            i as u128,
            (i as u64) * 10,
        )
        .unwrap();
    }
    // no limit given: the default page size of 50
    assert_eq!(get_messages_request(&store, None, None).len(), 50);
    // an unreadable limit falls back to the default as well
    let bad = "everything".to_string();
    assert_eq!(get_messages_request(&store, Some(&bad), None).len(), 50);
    // scenario: limit 1 before 250 on rows at 100, 200, 300
    let limit = "1".to_string();
    let before = "250".to_string();
    let page = get_messages_request(&store, Some(&limit), Some(&before));
    assert_eq!(page.len(), 1);
    assert_eq!(page[0].timestamp, 240);
}

#[test]
fn add_and_delete_channel_requests() {
    let mut store = MessageStore::new();
    let platform = "twitch".to_string();
    let name = "alice".to_string();
    let r = add_channel_request(&mut store, Some(&platform), Some(&name));
    assert!(matches!(r, AddChannelOutcome::Added(_)));
    assert_eq!(r.status(), 200);
    let r = add_channel_request(&mut store, Some(&platform), Some(&name));
    assert_eq!(r, AddChannelOutcome::Conflict);
    assert_eq!(r.status(), 500);
    let bad = "myspace".to_string();
    let r = add_channel_request(&mut store, Some(&bad), Some(&name));
    assert_eq!(r, AddChannelOutcome::UnknownPlatform);
    assert_eq!(r.status(), 400);
    let r = add_channel_request(&mut store, None, Some(&name));
    assert_eq!(r, AddChannelOutcome::MissingParam);
    assert_eq!(r.status(), 400);
    let r = delete_channel_request(&mut store, Some(&platform), Some(&name));
    assert_eq!(r, DeleteChannelOutcome::Removed(true));
    assert_eq!(r.status(), 200);
    assert_eq!(store.get_channels().len(), 0);
    let r = delete_channel_request(&mut store, Some(&platform), Some(&name));
    assert_eq!(r, DeleteChannelOutcome::Removed(false));
}

#[test]
fn end_to_end_scenario() {
    // register, listen, one event arrives, a moderator approves it
    let mut store = MessageStore::new();
    let mut reg = ListenerRegistry::new();
    let mut admin = Feed::new(1000);
    let mut client = ClientFeed::new(1000);
    let mut moderator = admin.subscribe();
    let mut viewer = client.subscribe();
    let platform = "twitch".to_string();
    let name = "alice".to_string();

    let added = add_channel_request(&mut store, Some(&platform), Some(&name));
    assert_eq!(added.status(), 200);
    match listen_request(&reg, Some(&platform), Some(&name)) {
        ListenDecision::Connect(pl) => {
            assert_eq!(pl, Platform::Twitch);
            assert_eq!(reg.start_listener(pl, name.clone(), 1), StartOutcome::Started);
        }
        _ => panic!("nothing listens yet"),
    }
    let m =
        ingest_event_with(&mut store, &mut admin, Platform::Twitch, &name, event("bob", "hi"), 7, 100)
            .unwrap();
    match admin.recv(&mut moderator) {
        RecvOutcome::Message(seen) => assert_eq!(seen.id, m.id),
        _ => panic!("the moderator sees the raw message"),
    }
    assert!(matches!(client.recv(&mut viewer), RecvOutcome::Pending));
    let id = "7".to_string();
    let approved = publish_request(&mut store, &mut client, Some(&id));
    assert_eq!(approved.status(), 200);
    match client.recv(&mut viewer) {
        RecvOutcome::Message(seen) => {
            assert_eq!(seen.id, 7);
            assert!(seen.published);
        }
        _ => panic!("the viewer sees the approved message"),
    }
}

#[test]
fn feed_drops_oldest_for_slow_subscriber() {
    let mut feed = Feed::new(2);
    let mut sub = feed.subscribe();
    let channel = "alice".to_string();
    let mut store = MessageStore::new();
    for i in 0..4u32 {
        ingest_event_with(
            &mut store,
            &mut feed,
            Platform::Twitch,
            &channel,
            event("bob", "hi"),
            i as u128,
            i as u64,
        )
        .unwrap();
    }
    // four published, capacity two: the two oldest are lost, then the rest
    match feed.recv(&mut sub) {
        RecvOutcome::Lagged(n) => assert_eq!(n, 2),
        _ => panic!("the subscriber lagged"),
    }
    match feed.recv(&mut sub) {
        RecvOutcome::Message(m) => assert_eq!(m.id, 2),
        _ => panic!("the oldest retained message comes first"),
    }
    match feed.recv(&mut sub) {
        RecvOutcome::Message(m) => assert_eq!(m.id, 3),
        _ => panic!("delivery order matches publish order"),
    }
    assert!(matches!(feed.recv(&mut sub), RecvOutcome::Pending));
}

#[test]
fn feed_at_exactly_capacity_loses_nothing() {
    let mut feed = Feed::new(2);
    assert_eq!(feed.capacity(), 2);
    let mut sub = feed.subscribe();
    feed.publish(new_sys_msg("one"));
    feed.publish(new_sys_msg("two"));
    match feed.recv(&mut sub) {
        RecvOutcome::Message(m) => assert_eq!(m.content, "one"),
        _ => panic!("a subscriber exactly at the bound is not lagged"),
    }
    match feed.recv(&mut sub) {
        RecvOutcome::Message(m) => assert_eq!(m.content, "two"),
        _ => panic!("delivery continues in publish order"),
    }
}

#[test]
fn subscriber_sees_no_history() {
    let mut feed = Feed::new(10);
    feed.publish(new_sys_msg("early"));
    let mut sub = feed.subscribe();
    assert!(matches!(feed.recv(&mut sub), RecvOutcome::Pending));
    feed.publish(new_sys_msg("late"));
    match feed.recv(&mut sub) {
        RecvOutcome::Message(m) => assert_eq!(m.content, "late"),
        _ => panic!("only what is published after subscribing arrives"),
    }
}

#[test]
fn sys_msg_is_prepublished() {
    let m = new_sys_msg("maintenance at noon");
    assert_eq!(m.platform, Platform::System);
    assert_eq!(m.channel, "system");
    assert_eq!(m.username, "system");
    assert_eq!(m.content, "maintenance at noon");
    assert!(m.additional_info.is_none());
    assert!(m.published);
}

#[test]
fn sys_msg_ids_are_fresh() {
    let a = new_sys_msg("one");
    let b = new_sys_msg("two");
    assert_ne!(a.id, b.id);
    assert!(a.timestamp > 0);
}

#[test]
fn normalize_event_fills_gaps() {
    let ev = normalize_event(None, None, None);
    assert_eq!(ev.username, "unknown");
    assert_eq!(ev.content, "");
    assert!(ev.additional_info.is_none());
    let ev = normalize_event(
        Some("carol".to_string()),
        Some("hello".to_string()),
        Some("{}".to_string()),
    );
    assert_eq!(ev.username, "carol");
    assert_eq!(ev.content, "hello");
    assert_eq!(ev.additional_info.as_deref(), Some("{}"));
}

#[test]
fn args_default_address() {
    let args = chathub::types::Args::default();
    assert_eq!(args.host, "127.0.0.1");
    assert_eq!(args.port, 3000);
}
