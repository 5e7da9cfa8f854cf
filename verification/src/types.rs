//! Data model: platforms, chat messages, channel definitions, and the
//! normalized events that platform adapters hand to the ingestion step.

use vstd::prelude::*;

verus! {

/// The closed set of supported message sources. `System` tags notices the
/// server itself generates; only `Twitch` and `Youtube` can be listened to.
#[derive(Clone, Copy, Debug, PartialEq, Eq, Hash, Structural)]
pub enum Platform {
    Twitch,
    Youtube,
    System,
}

/// One chat message. `id` is a globally unique, time-sortable identifier
/// assigned at creation and never changed; `timestamp` is milliseconds since
/// the Unix epoch, assigned at ingestion; `published` starts false (except
/// for system notices) and can only ever flip to true.
#[derive(Debug)]
pub struct ChatMessage {
    pub id: u128,
    pub platform: Platform,
    pub channel: String,
    pub username: String,
    pub content: String,
    pub additional_info: Option<String>,
    pub timestamp: u64,
    pub published: bool,
}

/// A stored channel definition. The (platform, name) pair is unique among
/// stored channels; `listen` marks channels auto-started at boot.
#[derive(Debug)]
pub struct Channel {
    pub id: u128,
    pub name: String,
    pub platform: Platform,
    pub listen: bool,
}

/// A moderator's verdict on a message, as received from the admin audience.
#[derive(Clone, Copy, Debug)]
pub struct MessageConfirmation {
    pub id: u128,
    pub allowed: bool,
}

/// The server's bind address, as plain values.
#[derive(Debug)]
pub struct Args {
    pub host: String,
    pub port: u16,
}

impl Default for Args {
    /// The address the server binds when none is given.
    fn default() -> (r: Args)
        ensures
            r.host@ == "127.0.0.1"@,
            r.port == 3000,
    {
        Args { host: "127.0.0.1".to_owned(), port: 3000 }
    }
}

/// A normalized chat event as a platform adapter delivers it: who said
/// what, plus an optional serialized blob of platform-specific extras.
#[derive(Debug)]
pub struct ChatEvent {
    pub username: String,
    pub content: String,
    pub additional_info: Option<String>,
}

/// Failures of store operations, kept apart so callers can distinguish a
/// bad identifier from a constraint violation.
#[derive(Clone, Copy, Debug, PartialEq, Eq, Structural)]
pub enum StoreError {
    /// An insert would violate a uniqueness constraint.
    Conflict,
    /// The addressed row does not exist.
    NotFound,
}

fn clone_opt_string(s: &Option<String>) -> (r: Option<String>)
    ensures
        r == *s,
{
    match s {
        Some(v) => Some(v.clone()),
        None => None,
    }
}

impl Clone for ChatMessage {
    /// Cloning preserves the message exactly, field for field.
    fn clone(&self) -> (r: Self)
        ensures
            r == *self,
    {
        ChatMessage {
            id: self.id,
            platform: self.platform,
            channel: self.channel.clone(),
            username: self.username.clone(),
            content: self.content.clone(),
            additional_info: clone_opt_string(&self.additional_info),
            timestamp: self.timestamp,
            published: self.published,
        }
    }
}

impl Clone for Channel {
    /// Cloning preserves the channel definition exactly.
    fn clone(&self) -> (r: Self)
        ensures
            r == *self,
    {
        Channel {
            id: self.id,
            name: self.name.clone(),
            platform: self.platform,
            listen: self.listen,
        }
    }
}

impl Platform {
    /// The platform a route parameter names, if any. Only the two external
    /// platforms can be asked for; `System` has no listenable channels.
    pub open spec fn spec_of_tag(tag: Seq<char>) -> Option<Platform> {
        if tag == "twitch"@ {
            Some(Platform::Twitch)
        } else if tag == "youtube"@ {
            Some(Platform::Youtube)
        } else {
            None
        }
    }

    /// Parses a platform tag as it appears in a route path.
    pub fn of_tag(tag: &String) -> (r: Option<Platform>)
        ensures
            r == Self::spec_of_tag(tag@),
    {
        if *tag == "twitch".to_owned() {
            Some(Platform::Twitch)
        } else if *tag == "youtube".to_owned() {
            Some(Platform::Youtube)
        } else {
            None
        }
    }

    /// The canonical tag for each platform, the exact string stored and
    /// serialized for it.
    pub open spec fn spec_tag(self) -> Seq<char> {
        match self {
            Platform::Twitch => "twitch"@,
            Platform::Youtube => "youtube"@,
            Platform::System => "system"@,
        }
    }

    /// Canonical tags round-trip: parsing the tag of a listenable platform
    /// yields that platform back, and the system tag is not listenable.
    pub proof fn lemma_tag_round_trip(p: Platform)
        ensures
            p != Platform::System ==> Self::spec_of_tag(p.spec_tag()) == Some(p),
            Self::spec_of_tag(Platform::System.spec_tag()) == None::<Platform>,
    {
        reveal_strlit("twitch");
        reveal_strlit("youtube");
        reveal_strlit("system");
        assert("twitch"@.len() == 6);
        assert("youtube"@.len() == 7);
        assert("system"@[0] == 's' && "twitch"@[0] == 't');
    }

    /// Returns the canonical tag of this platform.
    pub fn tag(&self) -> (r: String)
        ensures
            r@ == self.spec_tag(),
    {
        match self {
            Platform::Twitch => "twitch".to_owned(),
            Platform::Youtube => "youtube".to_owned(),
            Platform::System => "system".to_owned(),
        }
    }
}

} // verus!
