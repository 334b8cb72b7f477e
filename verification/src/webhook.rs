//! The Discord notifications: which events are posted, with what title and
//! colour.
use vstd::prelude::*;
use crate::state::WebhookConfig;
use crate::text::{chars_eq, chars_of, trim_chars, trimmed};

verus! {

broadcast use vstd::string::group_string_axioms;

/// The events the bots announce on Discord.
#[derive(Clone, Copy, Debug, PartialEq, Eq, Structural)]
pub enum WebhookEvent {
    AfkStart,
    AfkStop,
    Crash,
    MuscuStart,
    MuscuStop,
    MiningStart,
    MiningStop,
}

/// The event named by one of the identifiers `afk_start`, `afk_stop`, `crash`,
/// `muscu_start`, `muscu_stop`, `mining_start`, `mining_stop`.
pub open spec fn event_named(name: Seq<char>) -> Option<WebhookEvent> {
    if name == "afk_start"@ {
        Some(WebhookEvent::AfkStart)
    } else if name == "afk_stop"@ {
        Some(WebhookEvent::AfkStop)
    } else if name == "crash"@ {
        Some(WebhookEvent::Crash)
    } else if name == "muscu_start"@ {
        Some(WebhookEvent::MuscuStart)
    } else if name == "muscu_stop"@ {
        Some(WebhookEvent::MuscuStop)
    } else if name == "mining_start"@ {
        Some(WebhookEvent::MiningStart)
    } else if name == "mining_stop"@ {
        Some(WebhookEvent::MiningStop)
    } else {
        None
    }
}

/// Whether the settings ask for `event` to be announced.
pub open spec fn wanted(cfg: WebhookConfig, event: WebhookEvent) -> bool {
    match event {
        WebhookEvent::AfkStart => cfg.notify_afk_start,
        WebhookEvent::AfkStop => cfg.notify_afk_stop,
        WebhookEvent::Crash => cfg.notify_crash,
        WebhookEvent::MuscuStart => cfg.notify_muscu_start,
        WebhookEvent::MuscuStop => cfg.notify_muscu_stop,
        WebhookEvent::MiningStart => cfg.notify_mining_start,
        WebhookEvent::MiningStop => cfg.notify_mining_stop,
    }
}

/// The embed colour of each event.
pub open spec fn event_color(event: WebhookEvent) -> u32 {
    match event {
        WebhookEvent::AfkStart => 0x2ECC71,
        WebhookEvent::AfkStop => 0xE74C3C,
        WebhookEvent::Crash => 0xE67E22,
        WebhookEvent::MuscuStart => 0x9B59B6,
        WebhookEvent::MuscuStop => 0x8E44AD,
        WebhookEvent::MiningStart => 0xF1C40F,
        WebhookEvent::MiningStop => 0xE67E22,
    }
}

/// The embed title of each event.
pub open spec fn event_title(event: WebhookEvent) -> Seq<char> {
    match event {
        WebhookEvent::AfkStart => "\u{1F7E2} AFK Activ\u{e9}"@,
        WebhookEvent::AfkStop => "\u{1F534} AFK Arr\u{ea}t\u{e9}"@,
        WebhookEvent::Crash => "\u{26A0}\u{FE0F} Crash D\u{e9}tect\u{e9}"@,
        WebhookEvent::MuscuStart => "\u{1F4AA} Muscu D\u{e9}marr\u{e9}"@,
        WebhookEvent::MuscuStop => "\u{1F6D1} Muscu Arr\u{ea}t\u{e9}"@,
        WebhookEvent::MiningStart => "\u{26CF}\u{FE0F} Mining D\u{e9}marr\u{e9}"@,
        WebhookEvent::MiningStop => "\u{1F6D1} Mining Arr\u{ea}t\u{e9}"@,
    }
}

impl WebhookEvent {
    /// The embed colour of the event.
    pub fn color(&self) -> (c: u32)
        ensures
            c == event_color(*self),
    {
        match self {
            WebhookEvent::AfkStart => 0x2ECC71,
            WebhookEvent::AfkStop => 0xE74C3C,
            WebhookEvent::Crash => 0xE67E22,
            WebhookEvent::MuscuStart => 0x9B59B6,
            WebhookEvent::MuscuStop => 0x8E44AD,
            WebhookEvent::MiningStart => 0xF1C40F,
            WebhookEvent::MiningStop => 0xE67E22,
        }
    }

    /// The embed title of the event.
    pub fn title(&self) -> (t: &'static str)
        ensures
            t@ == event_title(*self),
    {
        match self {
            WebhookEvent::AfkStart => "\u{1F7E2} AFK Activ\u{e9}",
            WebhookEvent::AfkStop => "\u{1F534} AFK Arr\u{ea}t\u{e9}",
            WebhookEvent::Crash => "\u{26A0}\u{FE0F} Crash D\u{e9}tect\u{e9}",
            WebhookEvent::MuscuStart => "\u{1F4AA} Muscu D\u{e9}marr\u{e9}",
            WebhookEvent::MuscuStop => "\u{1F6D1} Muscu Arr\u{ea}t\u{e9}",
            WebhookEvent::MiningStart => "\u{26CF}\u{FE0F} Mining D\u{e9}marr\u{e9}",
            WebhookEvent::MiningStop => "\u{1F6D1} Mining Arr\u{ea}t\u{e9}",
        }
    }
}

/// The event a name stands for, if any.
pub fn event_from_name(name: &str) -> (r: Option<WebhookEvent>)
    ensures
        r == event_named(name@),
{
    let n = chars_of(name);
    let ns = n.as_slice();
    if chars_eq(ns, chars_of("afk_start").as_slice()) {
        Some(WebhookEvent::AfkStart)
    } else if chars_eq(ns, chars_of("afk_stop").as_slice()) {
        Some(WebhookEvent::AfkStop)
    } else if chars_eq(ns, chars_of("crash").as_slice()) {
        Some(WebhookEvent::Crash)
    } else if chars_eq(ns, chars_of("muscu_start").as_slice()) {
        Some(WebhookEvent::MuscuStart)
    } else if chars_eq(ns, chars_of("muscu_stop").as_slice()) {
        Some(WebhookEvent::MuscuStop)
    } else if chars_eq(ns, chars_of("mining_start").as_slice()) {
        Some(WebhookEvent::MiningStart)
    } else if chars_eq(ns, chars_of("mining_stop").as_slice()) {
        Some(WebhookEvent::MiningStop)
    } else {
        None
    }
}

/// A Discord embed ready to be posted.
pub struct WebhookMessage {
    pub url: String,
    pub title: &'static str,
    pub description: String,
    pub color: u32,
}

/// The message to post for `event`, or `None` when no URL is set or the
/// settings turn that event off.
pub fn notification_for(cfg: &WebhookConfig, event: WebhookEvent, description: &str) -> (r: Option<
    WebhookMessage,
>)
    ensures
        r is None <==> (cfg.url@.len() == 0 || !wanted(*cfg, event)),
        r matches Some(m) ==> {
            &&& m.url@ == cfg.url@
            &&& m.title@ == event_title(event)
            &&& m.description@ == description@
            &&& m.color == event_color(event)
        },
{
    if cfg.url.as_str().is_empty() {
        return None;
    }
    let should_send = match event {
        WebhookEvent::AfkStart => cfg.notify_afk_start,
        WebhookEvent::AfkStop => cfg.notify_afk_stop,
        WebhookEvent::Crash => cfg.notify_crash,
        WebhookEvent::MuscuStart => cfg.notify_muscu_start,
        WebhookEvent::MuscuStop => cfg.notify_muscu_stop,
        WebhookEvent::MiningStart => cfg.notify_mining_start,
        WebhookEvent::MiningStop => cfg.notify_mining_stop,
    };
    if !should_send {
        return None;
    }
    Some(
        WebhookMessage {
            url: cfg.url.clone(),
            title: event.title(),
            description: description.to_owned(),
            color: event.color(),
        },
    )
}

/// The message to post when a bot reports the event named `event`: nothing
/// when no URL is set, the name is unknown, or the settings turn it off.
pub fn webhook_notify(cfg: &WebhookConfig, event: &str, description: &str) -> (r: Option<
    WebhookMessage,
>)
    ensures
        r is None <==> (cfg.url@.len() == 0 || event_named(event@) is None || !wanted(
            *cfg,
            event_named(event@)->0,
        )),
        r matches Some(m) ==> {
            &&& m.url@ == cfg.url@
            &&& m.title@ == event_title(event_named(event@)->0)
            &&& m.description@ == description@
            &&& m.color == event_color(event_named(event@)->0)
        },
{
    if cfg.url.as_str().is_empty() {
        return None;
    }
    match event_from_name(event) {
        Some(kind) => notification_for(cfg, kind, description),
        None => None,
    }
}

/// Checks the URL given for a test post: it must not be blank.
pub fn check_webhook_url(url: &str) -> (r: Result<(), String>)
    ensures
        r is Ok <==> trimmed(url@).len() > 0,
        r matches Err(e) ==> e@ == "URL du webhook requise"@,
{
    let t = trim_chars(&chars_of(url));
    if t.len() == 0 {
        return Err(String::from_str("URL du webhook requise"));
    }
    Ok(())
}

/// Each event follows its own setting and no other: with a URL set, the
/// message for an event is posted exactly when that event's own flag is on.
pub proof fn each_event_follows_its_own_setting(cfg: WebhookConfig)
    ensures
        wanted(cfg, WebhookEvent::AfkStart) == cfg.notify_afk_start,
        wanted(cfg, WebhookEvent::AfkStop) == cfg.notify_afk_stop,
        wanted(cfg, WebhookEvent::Crash) == cfg.notify_crash,
        wanted(cfg, WebhookEvent::MuscuStart) == cfg.notify_muscu_start,
        wanted(cfg, WebhookEvent::MuscuStop) == cfg.notify_muscu_stop,
        wanted(cfg, WebhookEvent::MiningStart) == cfg.notify_mining_start,
        wanted(cfg, WebhookEvent::MiningStop) == cfg.notify_mining_stop,
{
}

/// The identifiers the bots use name their own events.
pub proof fn event_names_name_their_events()
    ensures
        event_named("afk_start"@) == Some(WebhookEvent::AfkStart),
        event_named("afk_stop"@) == Some(WebhookEvent::AfkStop),
        event_named("crash"@) == Some(WebhookEvent::Crash),
        event_named("muscu_start"@) == Some(WebhookEvent::MuscuStart),
        event_named("muscu_stop"@) == Some(WebhookEvent::MuscuStop),
        event_named("mining_start"@) == Some(WebhookEvent::MiningStart),
        event_named("mining_stop"@) == Some(WebhookEvent::MiningStop),
{
    reveal_strlit("afk_start");
    reveal_strlit("afk_stop");
    reveal_strlit("crash");
    reveal_strlit("muscu_start");
    reveal_strlit("muscu_stop");
    reveal_strlit("mining_start");
    reveal_strlit("mining_stop");
    assert("afk_stop"@ != "afk_start"@) by { assert("afk_stop"@[6] != "afk_start"@[6]); }
    assert("crash"@ != "afk_start"@) by { assert("crash"@[0] != "afk_start"@[0]); }
    assert("crash"@ != "afk_stop"@) by { assert("crash"@[0] != "afk_stop"@[0]); }
    assert("muscu_start"@ != "afk_start"@) by { assert("muscu_start"@[0] != "afk_start"@[0]); }
    assert("muscu_start"@ != "afk_stop"@) by { assert("muscu_start"@[0] != "afk_stop"@[0]); }
    assert("muscu_start"@ != "crash"@) by { assert("muscu_start"@[0] != "crash"@[0]); }
    assert("muscu_stop"@ != "afk_start"@) by { assert("muscu_stop"@[0] != "afk_start"@[0]); }
    assert("muscu_stop"@ != "afk_stop"@) by { assert("muscu_stop"@[0] != "afk_stop"@[0]); }
    assert("muscu_stop"@ != "crash"@) by { assert("muscu_stop"@[0] != "crash"@[0]); }
    assert("muscu_stop"@ != "muscu_start"@) by { assert("muscu_stop"@[8] != "muscu_start"@[8]); }
    assert("mining_start"@ != "afk_start"@) by { assert("mining_start"@[0] != "afk_start"@[0]); }
    assert("mining_start"@ != "afk_stop"@) by { assert("mining_start"@[0] != "afk_stop"@[0]); }
    assert("mining_start"@ != "crash"@) by { assert("mining_start"@[0] != "crash"@[0]); }
    assert("mining_start"@ != "muscu_start"@) by { assert("mining_start"@[1] != "muscu_start"@[1]); }
    assert("mining_start"@ != "muscu_stop"@) by { assert("mining_start"@[1] != "muscu_stop"@[1]); }
    assert("mining_stop"@ != "afk_start"@) by { assert("mining_stop"@[0] != "afk_start"@[0]); }
    assert("mining_stop"@ != "afk_stop"@) by { assert("mining_stop"@[0] != "afk_stop"@[0]); }
    assert("mining_stop"@ != "crash"@) by { assert("mining_stop"@[0] != "crash"@[0]); }
    assert("mining_stop"@ != "muscu_start"@) by { assert("mining_stop"@[1] != "muscu_start"@[1]); }
    assert("mining_stop"@ != "muscu_stop"@) by { assert("mining_stop"@[1] != "muscu_stop"@[1]); }
    assert("mining_stop"@ != "mining_start"@) by { assert("mining_stop"@[9] != "mining_start"@[9]); }
}

/// The colour of each event's embed: green for AFK on, red for AFK off,
/// orange for a crash and for the end of mining, purple shades for the gym
/// bot, yellow for the start of mining.
pub proof fn event_colours()
    ensures
        event_color(WebhookEvent::AfkStart) == 0x2ECC71,
        event_color(WebhookEvent::AfkStop) == 0xE74C3C,
        event_color(WebhookEvent::Crash) == 0xE67E22,
        event_color(WebhookEvent::MuscuStart) == 0x9B59B6,
        event_color(WebhookEvent::MuscuStop) == 0x8E44AD,
        event_color(WebhookEvent::MiningStart) == 0xF1C40F,
        event_color(WebhookEvent::MiningStop) == 0xE67E22,
{
}

/// The title of each event's embed.
pub proof fn event_titles()
    ensures
        event_title(WebhookEvent::AfkStart) == "\u{1F7E2} AFK Activ\u{e9}"@,
        event_title(WebhookEvent::AfkStop) == "\u{1F534} AFK Arr\u{ea}t\u{e9}"@,
        event_title(WebhookEvent::Crash) == "\u{26A0}\u{FE0F} Crash D\u{e9}tect\u{e9}"@,
        event_title(WebhookEvent::MuscuStart) == "\u{1F4AA} Muscu D\u{e9}marr\u{e9}"@,
        event_title(WebhookEvent::MuscuStop) == "\u{1F6D1} Muscu Arr\u{ea}t\u{e9}"@,
        event_title(WebhookEvent::MiningStart) == "\u{26CF}\u{FE0F} Mining D\u{e9}marr\u{e9}"@,
        event_title(WebhookEvent::MiningStop) == "\u{1F6D1} Mining Arr\u{ea}t\u{e9}"@,
{
}

} // verus!
