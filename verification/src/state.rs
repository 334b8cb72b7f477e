//! The status records of the three bots and the user's settings.
use vstd::prelude::*;

verus! {

/// Phase of the AFK automation, as shown to the user.
#[derive(Clone, Copy, Debug, PartialEq, Eq, Structural)]
pub enum AutomationState {
    Idle,
    SearchingWindow,
    LaunchingFivem,
    WaitingOcr,
    SelectingCharacter,
    SendingKeys,
    AfkActive,
    Reconnecting,
}

impl AutomationState {
    /// The French label shown for each phase.
    pub fn label(&self) -> (r: &'static str)
        ensures
            r@ == match *self {
                AutomationState::Idle => "En attente"@,
                AutomationState::SearchingWindow => "Recherche de la fen\u{ea}tre FiveM..."@,
                AutomationState::LaunchingFivem => "Lancement de FiveM..."@,
                AutomationState::WaitingOcr => "D\u{e9}tection du personnage (OCR)..."@,
                AutomationState::SelectingCharacter => "S\u{e9}lection du personnage..."@,
                AutomationState::SendingKeys => "Envoi des touches AFK..."@,
                AutomationState::AfkActive => "Mode AFK actif"@,
                AutomationState::Reconnecting => "Reconnexion en cours..."@,
            },
    {
        match self {
            AutomationState::Idle => "En attente",
            AutomationState::SearchingWindow => "Recherche de la fen\u{ea}tre FiveM...",
            AutomationState::LaunchingFivem => "Lancement de FiveM...",
            AutomationState::WaitingOcr => "D\u{e9}tection du personnage (OCR)...",
            AutomationState::SelectingCharacter => "S\u{e9}lection du personnage...",
            AutomationState::SendingKeys => "Envoi des touches AFK...",
            AutomationState::AfkActive => "Mode AFK actif",
            AutomationState::Reconnecting => "Reconnexion en cours...",
        }
    }
}

/// Live status of the AFK automation.
#[derive(Clone, Debug)]
pub struct AutomationStatus {
    pub state: AutomationState,
    pub running: bool,
    pub session_treated: bool,
    pub reconnect_count: u32,
    pub afk_start_time: Option<String>,
    pub last_crash_time: Option<String>,
}

impl Default for AutomationStatus {
    fn default() -> (r: Self)
        ensures
            r.state == AutomationState::Idle,
            !r.running,
            !r.session_treated,
            r.reconnect_count == 0,
            r.afk_start_time is None,
            r.last_crash_time is None,
            r.afk_consistent(),
    {
        AutomationStatus {
            state: AutomationState::Idle,
            running: false,
            session_treated: false,
            reconnect_count: 0,
            afk_start_time: None,
            last_crash_time: None,
        }
    }
}

/// The character the AFK automation logs in with.
#[derive(Clone, Debug)]
pub struct Config {
    pub character_name: String,
}

impl Default for Config {
    fn default() -> (r: Self)
        ensures
            r.character_name@ == Seq::<char>::empty(),
    {
        Config { character_name: String::new() }
    }
}

/// Where the game window is: its client area in screen coordinates.
#[derive(Clone, Debug)]
pub struct WindowInfo {
    pub found: bool,
    pub title: String,
    /// Client area top-left X (screen coordinates), where the game renders.
    pub x: i32,
    /// Client area top-left Y (screen coordinates).
    pub y: i32,
    /// Client area width.
    pub width: i32,
    /// Client area height.
    pub height: i32,
    pub hwnd: isize,
}

impl Default for WindowInfo {
    fn default() -> (r: Self)
        ensures
            !r.found,
            r.title@ == Seq::<char>::empty(),
            r.x == 0,
            r.y == 0,
            r.width == 0,
            r.height == 0,
            r.hwnd == 0,
    {
        WindowInfo { found: false, title: String::new(), x: 0, y: 0, width: 0, height: 0, hwnd: 0 }
    }
}

/// Live status of the gym ("muscu") bot.
#[derive(Clone, Copy, Debug)]
pub struct MuscuStatus {
    pub running: bool,
    pub cycle_count: u32,
}

impl Default for MuscuStatus {
    fn default() -> (r: Self)
        ensures
            !r.running,
            r.cycle_count == 0,
    {
        MuscuStatus { running: false, cycle_count: 0 }
    }
}

/// Live status of the mining bot.
#[derive(Clone, Copy, Debug)]
pub struct MiningStatus {
    pub running: bool,
    pub active: bool,
    pub click_count: u32,
    pub detection_count: u32,
}

impl Default for MiningStatus {
    fn default() -> (r: Self)
        ensures
            !r.running,
            !r.active,
            r.click_count == 0,
            r.detection_count == 0,
    {
        MiningStatus { running: false, active: false, click_count: 0, detection_count: 0 }
    }
}

/// Discord webhook settings: the target URL and which events are announced.
#[derive(Clone, Debug)]
pub struct WebhookConfig {
    pub url: String,
    pub notify_afk_start: bool,
    pub notify_afk_stop: bool,
    pub notify_crash: bool,
    pub notify_muscu_start: bool,
    pub notify_muscu_stop: bool,
    pub notify_mining_start: bool,
    pub notify_mining_stop: bool,
}

impl Default for WebhookConfig {
    fn default() -> (r: Self)
        ensures
            r.url@ == Seq::<char>::empty(),
            r.notify_afk_start,
            r.notify_afk_stop,
            r.notify_crash,
            r.notify_muscu_start,
            r.notify_muscu_stop,
            r.notify_mining_start,
            r.notify_mining_stop,
    {
        WebhookConfig {
            url: String::new(),
            notify_afk_start: true,
            notify_afk_stop: true,
            notify_crash: true,
            notify_muscu_start: true,
            notify_muscu_stop: true,
            notify_mining_start: true,
            notify_mining_stop: true,
        }
    }
}

/// Totals kept across sessions.
#[derive(Clone, Copy, Debug)]
pub struct Stats {
    pub total_muscu_cycles: u64,
    pub total_mining_clicks: u64,
    pub total_afk_seconds: u64,
}

impl Default for Stats {
    fn default() -> (r: Self)
        ensures
            r.total_muscu_cycles == 0,
            r.total_mining_clicks == 0,
            r.total_afk_seconds == 0,
    {
        Stats { total_muscu_cycles: 0, total_mining_clicks: 0, total_afk_seconds: 0 }
    }
}

impl AutomationStatus {
    /// The status tells a consistent story: AFK mode is shown only for a
    /// session that reached it, and such a session has a start time.
    pub open spec fn afk_consistent(&self) -> bool {
        &&& self.state == AutomationState::AfkActive ==> self.session_treated
        &&& self.session_treated ==> self.afk_start_time is Some
    }

    /// Starts the AFK automation for a character: refused when the name is
    /// blank; otherwise the status is reset for a fresh session that begins by
    /// looking for the game window.
    pub fn start(&mut self, character_name: &str) -> (r: Result<(), String>)
        ensures
            r is Ok <==> crate::text::trimmed(character_name@).len() > 0,
            r matches Err(e) ==> e@ == "Le nom du personnage est requis"@ && *final(self) == *old(self),
            r is Ok ==> {
                &&& final(self).running
                &&& final(self).state == AutomationState::SearchingWindow
                &&& !final(self).session_treated
                &&& final(self).reconnect_count == 0
                &&& final(self).afk_start_time is None
                &&& final(self).last_crash_time is None
            },
            r is Ok ==> final(self).afk_consistent(),
    {
        let t = crate::text::trim_chars(&crate::text::chars_of(character_name));
        if t.len() == 0 {
            return Err(String::from_str("Le nom du personnage est requis"));
        }
        self.running = true;
        self.state = AutomationState::SearchingWindow;
        self.session_treated = false;
        self.reconnect_count = 0;
        self.afk_start_time = None;
        self.last_crash_time = None;
        Ok(())
    }

    /// Stops the AFK automation: not running, back to idle; the rest is kept.
    pub fn stop(&mut self)
        ensures
            !final(self).running,
            final(self).state == AutomationState::Idle,
            final(self).session_treated == old(self).session_treated,
            final(self).reconnect_count == old(self).reconnect_count,
            final(self).afk_start_time == old(self).afk_start_time,
            final(self).last_crash_time == old(self).last_crash_time,
            old(self).afk_consistent() ==> final(self).afk_consistent(),
    {
        self.running = false;
        self.state = AutomationState::Idle;
    }
}

impl MiningStatus {
    /// Starts the mining bot: refused while it is already running; otherwise
    /// running and active with both counters at zero.
    pub fn start(&mut self) -> (r: Result<(), String>)
        ensures
            r is Err <==> old(self).running,
            r matches Err(e) ==> e@ == "Le bot mining est d\u{e9}j\u{e0} en cours"@ && *final(self) == *old(self),
            r is Ok ==> final(self).running && final(self).active && final(self).click_count == 0
                && final(self).detection_count == 0,
    {
        if self.running {
            return Err(String::from_str("Le bot mining est d\u{e9}j\u{e0} en cours"));
        }
        self.running = true;
        self.active = true;
        self.click_count = 0;
        self.detection_count = 0;
        Ok(())
    }

    /// Sets whether detection is active.
    pub fn set_active(&mut self, active: bool)
        ensures
            *final(self) == (MiningStatus { active, ..*old(self) }),
    {
        self.active = active;
    }

    /// Counts one more detection of the target colour.
    pub fn record_detection(&mut self)
        requires
            old(self).detection_count < u32::MAX,
        ensures
            *final(self) == (MiningStatus {
                detection_count: (old(self).detection_count + 1) as u32,
                ..*old(self)
            }),
    {
        self.detection_count = self.detection_count + 1;
    }

    /// Counts one more click.
    pub fn record_click(&mut self)
        requires
            old(self).click_count < u32::MAX,
        ensures
            *final(self) == (MiningStatus { click_count: (old(self).click_count + 1) as u32, ..*old(self) }),
    {
        self.click_count = self.click_count + 1;
    }

    /// Stops the mining bot: neither running nor active; counters kept.
    pub fn stop(&mut self)
        ensures
            !final(self).running,
            !final(self).active,
            final(self).click_count == old(self).click_count,
            final(self).detection_count == old(self).detection_count,
    {
        self.running = false;
        self.active = false;
    }
}

impl MuscuStatus {
    /// Starts the gym bot: refused while it is already running; otherwise
    /// running with the cycle counter at zero.
    pub fn start(&mut self) -> (r: Result<(), String>)
        ensures
            r is Err <==> old(self).running,
            r matches Err(e) ==> e@ == "Le bot muscu est d\u{e9}j\u{e0} en cours d'ex\u{e9}cution"@ && *final(self) == *old(self),
            r is Ok ==> final(self).running && final(self).cycle_count == 0,
    {
        if self.running {
            return Err(String::from_str("Le bot muscu est d\u{e9}j\u{e0} en cours d'ex\u{e9}cution"));
        }
        self.running = true;
        self.cycle_count = 0;
        Ok(())
    }

    /// Counts one more completed exercise cycle.
    pub fn record_cycle(&mut self)
        requires
            old(self).cycle_count < u32::MAX,
        ensures
            *final(self) == (MuscuStatus { cycle_count: (old(self).cycle_count + 1) as u32, ..*old(self) }),
    {
        self.cycle_count = self.cycle_count + 1;
    }

    /// Stops the gym bot; the cycle counter is kept.
    pub fn stop(&mut self)
        ensures
            !final(self).running,
            final(self).cycle_count == old(self).cycle_count,
    {
        self.running = false;
    }
}

impl WindowInfo {
    /// A copy of the window description.
    pub fn duplicate(&self) -> (r: Self)
        ensures
            r == *self,
    {
        WindowInfo {
            found: self.found,
            title: self.title.clone(),
            x: self.x,
            y: self.y,
            width: self.width,
            height: self.height,
            hwnd: self.hwnd,
        }
    }
}

impl AutomationStatus {
    /// Moves the automation to another phase.
    pub fn set_state(&mut self, state: AutomationState)
        ensures
            *final(self) == (AutomationStatus { state, ..*old(self) }),
    {
        self.state = state;
    }

    /// Records that AFK mode is on for this session, started at `now`
    /// (written `%Y-%m-%d %H:%M:%S`).
    pub fn begin_afk(&mut self, now: String)
        ensures
            *final(self) == (AutomationStatus {
                session_treated: true,
                state: AutomationState::AfkActive,
                afk_start_time: Some(now),
                ..*old(self)
            }),
    {
        self.session_treated = true;
        self.state = AutomationState::AfkActive;
        self.afk_start_time = Some(now);
    }

    /// Records a crash of the game at `now`: one more reconnection, and the
    /// session has to be set up again.
    pub fn record_crash(&mut self, now: String)
        requires
            old(self).reconnect_count < u32::MAX,
        ensures
            *final(self) == (AutomationStatus {
                reconnect_count: (old(self).reconnect_count + 1) as u32,
                last_crash_time: Some(now),
                session_treated: false,
                ..*old(self)
            }),
    {
        self.reconnect_count = self.reconnect_count + 1;
        self.last_crash_time = Some(now);
        self.session_treated = false;
    }

    /// The automation has ended: idle and not running.
    pub fn finish(&mut self)
        ensures
            *final(self) == (AutomationStatus { state: AutomationState::Idle, running: false, ..*old(self) }),
    {
        self.state = AutomationState::Idle;
        self.running = false;
    }
}

} // verus!
