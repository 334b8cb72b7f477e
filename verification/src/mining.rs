//! The decisions of the mining bot: watch the middle of the game window for a
//! target colour and click it, with a hotkey to pause and three quick presses
//! of Escape to quit.
use vstd::prelude::*;
use crate::afk::LogLevel;
use crate::keys::{key_name_to_vk, virtual_key};
use crate::pixels::{count_matches, find_color_pixel, pixel_matches};
use crate::state::{MiningStatus, WindowInfo};
use crate::text::{trimmed, uppercase};

verus! {

/// Virtual-key code of Escape.
pub const VK_ESCAPE: i32 = 0x1B;
/// Virtual-key code of M, the toggle key when the configured one is unknown.
pub const VK_M: i32 = 0x4D;
/// Escape presses that quit the bot when they fall within one second.
pub const ESCAPE_PRESSES_TO_QUIT: usize = 3;
/// One second, in nanoseconds: how close the Escape presses must be.
pub const ESCAPE_WINDOW_NS: u64 = 1_000_000_000;
/// Two seconds, in nanoseconds: how often the game window is looked for again.
pub const WINDOW_RECHECK_NS: u64 = 2_000_000_000;

/// A key reading reports a press when the key is down now and was not at the
/// previous reading.
pub open spec fn key_edge(is_down: bool, was_pressed: bool) -> bool {
    is_down && !was_pressed
}

/// Whether a key went from up to down since the last reading; `was_pressed`
/// carries the last reading from one call to the next.
pub fn is_key_just_pressed(is_down: bool, was_pressed: &mut bool) -> (r: bool)
    ensures
        r == key_edge(is_down, *old(was_pressed)),
        *final(was_pressed) == is_down,
{
    let just_pressed = is_down && !*was_pressed;
    *was_pressed = is_down;
    just_pressed
}

/// Holding a key down reports it once: after a reading that saw the key down,
/// a second reading with the key still down is not a new press.
pub proof fn held_key_counts_once(was_pressed: bool)
    ensures
        key_edge(true, was_pressed) == !was_pressed,
        !key_edge(true, true),
        !key_edge(false, was_pressed),
{
}

/// Whether a press at time `t` is within one second before `now` (a press
/// stamped after `now` counts as just now).
pub open spec fn recent_press(t: u64, now: u64) -> bool {
    t as int + ESCAPE_WINDOW_NS as int >= now as int
}

/// The press times kept once a press at `now` is added: those within one
/// second of `now`, in order.
pub open spec fn kept_presses(times: Seq<u64>, now: u64) -> Seq<u64> {
    times.push(now).filter(|t: u64| recent_press(t, now))
}

/// Records an Escape press at `now` (nanoseconds on a monotonic clock), forgets
/// presses more than a second old, and tells whether three or more remain: the
/// signal to quit.
pub fn register_escape(times: &mut Vec<u64>, now: u64) -> (quit: bool)
    ensures
        final(times)@ == kept_presses(old(times)@, now),
        quit == (final(times)@.len() >= ESCAPE_PRESSES_TO_QUIT),
{
    let ghost all = old(times)@.push(now);
    times.push(now);
    let mut kept: Vec<u64> = Vec::new();
    let mut i: usize = 0;
    while i < times.len()
        invariant
            times@ == all,
            i <= all.len(),
            kept@ == all.take(i as int).filter(|t: u64| recent_press(t, now)),
        decreases times.len() - i,
    {
        let t = times[i];
        proof {
            reveal(Seq::filter);
            assert(all.take(i + 1).drop_last() =~= all.take(i as int));
        }
        if now <= t || now - t <= ESCAPE_WINDOW_NS {
            kept.push(t);
        }
        i = i + 1;
    }
    assert(all.take(all.len() as int) =~= all);
    *times = kept;
    times.len() >= ESCAPE_PRESSES_TO_QUIT
}

/// Three presses of Escape within one second quit the bot: whatever came
/// before, presses at `t`, `t + a` and `t + a + b` with `a + b` at most one
/// second make the third press report a quit.
pub proof fn three_quick_escapes_quit(earlier: Seq<u64>, t: u64, a: u64, b: u64)
    requires
        a + b <= 1_000_000_000,
        t + a + b <= u64::MAX,
    ensures
        ({
            let s1 = kept_presses(earlier, t);
            let s2 = kept_presses(s1, (t + a) as u64);
            let s3 = kept_presses(s2, (t + a + b) as u64);
            s3.len() >= 3
        }),
{
    let t2 = (t + a) as u64;
    let t3 = (t + a + b) as u64;
    let p1 = |x: u64| recent_press(x, t);
    let p2 = |x: u64| recent_press(x, t2);
    let p3 = |x: u64| recent_press(x, t3);
    let s1 = kept_presses(earlier, t);
    let s2 = kept_presses(s1, t2);
    let s3 = kept_presses(s2, t3);
    lemma_filter_push_keep(earlier, t, p1);
    let x1 = earlier.filter(p1);
    assert(s1 == x1.push(t));
    lemma_filter_push_keep(s1, t2, p2);
    lemma_filter_push_keep(x1, t, p2);
    let x2 = x1.filter(p2);
    assert(s2 == x2.push(t).push(t2));
    lemma_filter_push_keep(s2, t3, p3);
    lemma_filter_push_keep(x2.push(t), t2, p3);
    lemma_filter_push_keep(x2, t, p3);
    assert(s3 == x2.filter(p3).push(t).push(t2).push(t3));
}

proof fn lemma_filter_push_keep(s: Seq<u64>, x: u64, p: spec_fn(u64) -> bool)
    requires
        p(x),
    ensures
        s.push(x).filter(p) == s.filter(p).push(x),
{
    reveal(Seq::filter);
    assert(s.push(x).drop_last() =~= s);
}

/// Registering an Escape press keeps exactly the presses of the last second:
/// the new press, every earlier one within a second of it, and nothing older.
pub proof fn escape_window_keeps_recent_presses(times: Seq<u64>, now: u64)
    ensures
        kept_presses(times, now).contains(now),
        forall|k: int|
            0 <= k < times.len() && times[k] + 1_000_000_000 >= now ==> #[trigger] kept_presses(
                times,
                now,
            ).contains(times[k]),
        forall|x: u64| #[trigger] kept_presses(times, now).contains(x) ==> x + 1_000_000_000 >= now,
{
    broadcast use vstd::seq_lib::group_filter_ensures;

    let all = times.push(now);
    let p = |t: u64| recent_press(t, now);
    assert(all[all.len() - 1] == now);
    assert(p(now));
    assert forall|k: int| 0 <= k < times.len() && times[k] + 1_000_000_000 >= now implies #[trigger] kept_presses(
        times,
        now,
    ).contains(times[k]) by {
        assert(all[k] == times[k]);
    }
    assert forall|x: u64| #[trigger] kept_presses(times, now).contains(x) implies x + 1_000_000_000 >= now by {
        let f = all.filter(p);
        let i = choose|i: int| 0 <= i < f.len() && f[i] == x;
        assert(p(f[i]));
    }
}

/// The first matching pixel among the first `n` (by index, row by row), or
/// `n` when none matches.
pub open spec fn first_match_index(pixels: Seq<u8>, n: int, target: [u8; 3], tolerance: u8) -> int
    decreases n,
{
    if n <= 0 {
        0
    } else {
        let f = first_match_index(pixels, n - 1, target, tolerance);
        if f < n - 1 {
            f
        } else if pixel_matches(pixels, n - 1, target, tolerance) {
            n - 1
        } else {
            n
        }
    }
}

proof fn lemma_first_match_index(pixels: Seq<u8>, n: int, k: int, target: [u8; 3], tolerance: u8)
    requires
        0 <= k < n,
        pixel_matches(pixels, k, target, tolerance),
        forall|j: int| 0 <= j < k ==> !#[trigger] pixel_matches(pixels, j, target, tolerance),
    ensures
        first_match_index(pixels, n, target, tolerance) == k,
    decreases n,
{
    if n - 1 > k {
        lemma_first_match_index(pixels, n - 1, k, target, tolerance);
    } else {
        lemma_no_match_index(pixels, k, target, tolerance);
    }
}

proof fn lemma_no_match_index(pixels: Seq<u8>, n: int, target: [u8; 3], tolerance: u8)
    requires
        n >= 0,
        forall|j: int| 0 <= j < n ==> !#[trigger] pixel_matches(pixels, j, target, tolerance),
    ensures
        first_match_index(pixels, n, target, tolerance) == n,
    decreases n,
{
    if n > 0 {
        lemma_no_match_index(pixels, n - 1, target, tolerance);
    }
}

/// Where the target colour shows in a captured zone of `width` × `height`
/// pixels: the column and row of its first pixel (row by row from the top)
/// and the number of matching pixels; `None` when there is none.
pub open spec fn color_hit(pixels: Seq<u8>, width: int, height: int, target: [u8; 3], tolerance: u8) -> Option<
    (int, int, nat),
> {
    let n = width * height;
    if count_matches(pixels, n, target, tolerance) == 0 {
        None
    } else {
        let k = first_match_index(pixels, n, target, tolerance);
        Some((k % width, k / width, count_matches(pixels, n, target, tolerance)))
    }
}

/// The lines the mining bot writes to its log.
#[derive(Debug)]
pub enum MiningLog {
    Started,
    DetectionOn,
    DetectionPaused,
    TripleEscape,
    WindowFound { width: i32, height: i32 },
    WindowLost,
    PixelDetected { x: i32, y: i32, count: u32 },
    Clicked,
    CaptureFailed { error: String },
    Stopped,
}

impl MiningLog {
    /// The severity of the line.
    pub fn level(&self) -> (l: LogLevel)
        ensures
            l == mining_log_level(*self),
    {
        match self {
            MiningLog::TripleEscape | MiningLog::WindowLost => LogLevel::Warn,
            MiningLog::CaptureFailed { .. } => LogLevel::Error,
            _ => LogLevel::Info,
        }
    }
}

/// Warnings for the Escape quit and a lost window, errors for failed captures.
pub open spec fn mining_log_level(l: MiningLog) -> LogLevel {
    match l {
        MiningLog::TripleEscape | MiningLog::WindowLost => LogLevel::Warn,
        MiningLog::CaptureFailed { .. } => LogLevel::Error,
        _ => LogLevel::Info,
    }
}

/// What the mining bot announces on the webhook.
#[derive(Debug)]
pub enum MiningAnnouncement {
    Started,
    Stopped { clicks: u32 },
}

/// Something the desktop layer does without answering.
#[derive(Debug)]
pub enum MiningEffect {
    Log(MiningLog),
    /// Log the configured colour, tolerance, margin, delays and toggle key.
    LogSettings,
    /// Set whether detection is active in the status, and publish it.
    SetActive(bool),
    Notify(MiningAnnouncement),
    /// Count one more detection in the status (`MiningStatus::record_detection`), publish.
    RecordDetection,
    /// Glide the mouse to a screen position along a curve and click there.
    ClickAt { x: i32, y: i32 },
    /// Count one more click in the status and the totals (`MiningStatus::record_click`,
    /// `record_mining_click`), publish, save the totals.
    RecordClick,
    /// Plain wait, in milliseconds.
    Pause { millis: u64 },
    /// The bot has ended: neither running nor active (`MiningStatus::stop`), publish.
    Finish,
}

/// What the bot waits for after a step; each is answered by one event.
#[derive(Debug)]
pub enum MiningQuery {
    /// Whether a stop was requested: answered by `Stop`.
    StopRequested,
    /// Whether the toggle key and Escape are down, and the time: answered by `Keys`.
    KeyStates { toggle_vk: i32 },
    /// Look for the game window: answered by `Window`.
    FindWindow,
    /// The zone to watch in the window (its middle, without the margins):
    /// answered by `Zone`.
    WatchZone(WindowInfo),
    /// Capture a zone of the screen as BGRA bytes: answered by `Captured`.
    Capture { left: i32, top: i32, width: i32, height: i32 },
    /// Nothing more: the bot is over.
    Finished,
}

/// The answer to a query.
#[derive(Debug)]
pub enum MiningEvent {
    /// The bot was just spawned.
    Start,
    Stop(bool),
    /// Key states, and the time in nanoseconds on a monotonic clock.
    Keys { toggle_down: bool, escape_down: bool, now: u64 },
    Window(Option<WindowInfo>),
    Zone { left: i32, top: i32, width: i32, height: i32 },
    Captured(Result<Vec<u8>, String>),
}

/// Where the bot stands between two events.
#[derive(Debug)]
pub enum MiningPhase {
    Begin,
    CheckingStop,
    ReadingKeys,
    FindingWindow,
    Zoning,
    Capturing { left: i32, top: i32, width: i32, height: i32 },
    Done,
}

/// The mining bot between two events.
pub struct MiningMachine {
    pub phase: MiningPhase,
    pub target_color: [u8; 3],
    pub tolerance: u8,
    pub toggle_vk: i32,
    pub toggle_was_pressed: bool,
    pub escape_was_pressed: bool,
    pub escape_times: Vec<u64>,
    pub last_window_check: Option<u64>,
    pub window: Option<WindowInfo>,
    pub active: bool,
}

/// The mining bot's state as a value.
pub struct MiningView {
    pub phase: MiningPhase,
    pub target_color: [u8; 3],
    pub tolerance: u8,
    pub toggle_vk: i32,
    pub toggle_was_pressed: bool,
    pub escape_was_pressed: bool,
    pub escape_times: Seq<u64>,
    pub last_window_check: Option<u64>,
    pub window: Option<WindowInfo>,
    pub active: bool,
}

impl View for MiningMachine {
    type V = MiningView;

    open spec fn view(&self) -> MiningView {
        MiningView {
            phase: self.phase,
            target_color: self.target_color,
            tolerance: self.tolerance,
            toggle_vk: self.toggle_vk,
            toggle_was_pressed: self.toggle_was_pressed,
            escape_was_pressed: self.escape_was_pressed,
            escape_times: self.escape_times@,
            last_window_check: self.last_window_check,
            window: self.window,
            active: self.active,
        }
    }
}

/// Whether `event` answers what a bot in `phase` waits for, and a capture has
/// the size of its zone.
pub open spec fn mining_step_ok(m: MiningView, event: MiningEvent) -> bool {
    match m.phase {
        MiningPhase::Begin => event is Start,
        MiningPhase::CheckingStop => event is Stop,
        MiningPhase::ReadingKeys => event is Keys,
        MiningPhase::FindingWindow => event is Window,
        MiningPhase::Zoning => event is Zone,
        MiningPhase::Capturing { left, top, width, height } => {
            &&& event is Captured
            &&& width > 0 && height > 0
            &&& 4 * (width * height - 1) <= i32::MAX
            &&& left + width - 1 <= i32::MAX
            &&& top + height - 1 <= i32::MAX
            &&& event matches MiningEvent::Captured(Ok(pixels)) ==> pixels@.len() >= 4 * width * height - 1
        },
        MiningPhase::Done => false,
    }
}

/// The end of the bot: announce how many clicks it made, log, and stop.
pub open spec fn mining_finish(status: MiningStatus) -> Seq<MiningEffect> {
    seq![
        MiningEffect::Notify(MiningAnnouncement::Stopped { clicks: status.click_count }),
        MiningEffect::Log(MiningLog::Stopped),
        MiningEffect::Finish,
    ]
}

/// Whether the window is due to be looked for again at `now`.
pub open spec fn window_check_due(last: Option<u64>, now: u64) -> bool {
    match last {
        None => true,
        Some(t) => now >= t && now - t >= WINDOW_RECHECK_NS,
    }
}

/// After the keys and the window: wait 100 ms when there is no window or
/// detection is paused, otherwise ask for the zone to watch.
pub open spec fn mining_decide(m: MiningView, effects: Seq<MiningEffect>) -> (
    MiningView,
    Seq<MiningEffect>,
    MiningQuery,
) {
    match m.window {
        None => (
            MiningView { phase: MiningPhase::CheckingStop, ..m },
            effects.push(MiningEffect::Pause { millis: 100 }),
            MiningQuery::StopRequested,
        ),
        Some(w) => if !m.active {
            (
                MiningView { phase: MiningPhase::CheckingStop, ..m },
                effects.push(MiningEffect::Pause { millis: 100 }),
                MiningQuery::StopRequested,
            )
        } else {
            (MiningView { phase: MiningPhase::Zoning, ..m }, effects, MiningQuery::WatchZone(w))
        },
    }
}

/// One step of the mining bot.
pub open spec fn mining_step(m: MiningView, status: MiningStatus, event: MiningEvent) -> (
    MiningView,
    Seq<MiningEffect>,
    MiningQuery,
) {
    let done = MiningView { phase: MiningPhase::Done, ..m };
    match (m.phase, event) {
        (MiningPhase::Begin, _) => (
            MiningView { phase: MiningPhase::CheckingStop, active: true, ..m },
            seq![
                MiningEffect::Log(MiningLog::Started),
                MiningEffect::Notify(MiningAnnouncement::Started),
                MiningEffect::LogSettings,
                MiningEffect::SetActive(true),
            ],
            MiningQuery::StopRequested,
        ),
        (MiningPhase::CheckingStop, MiningEvent::Stop(stop)) => if stop {
            (done, mining_finish(status), MiningQuery::Finished)
        } else {
            (
                MiningView { phase: MiningPhase::ReadingKeys, ..m },
                seq![],
                MiningQuery::KeyStates { toggle_vk: m.toggle_vk },
            )
        },
        (MiningPhase::ReadingKeys, MiningEvent::Keys { toggle_down, escape_down, now }) => {
            let toggled = key_edge(toggle_down, m.toggle_was_pressed);
            let active = if toggled { !m.active } else { m.active };
            let toggle_effects = if toggled {
                seq![
                    MiningEffect::SetActive(active),
                    MiningEffect::Log(
                        if active {
                            MiningLog::DetectionOn
                        } else {
                            MiningLog::DetectionPaused
                        },
                    ),
                ]
            } else {
                seq![]
            };
            let escaped = key_edge(escape_down, m.escape_was_pressed);
            let times = if escaped {
                kept_presses(m.escape_times, now)
            } else {
                m.escape_times
            };
            let m2 = MiningView {
                toggle_was_pressed: toggle_down,
                escape_was_pressed: escape_down,
                active,
                escape_times: times,
                ..m
            };
            if escaped && times.len() >= ESCAPE_PRESSES_TO_QUIT {
                (
                    MiningView { phase: MiningPhase::Done, ..m2 },
                    toggle_effects + seq![MiningEffect::Log(MiningLog::TripleEscape)] + mining_finish(
                        status,
                    ),
                    MiningQuery::Finished,
                )
            } else if window_check_due(m.last_window_check, now) {
                (
                    MiningView {
                        phase: MiningPhase::FindingWindow,
                        last_window_check: Some(now),
                        ..m2
                    },
                    toggle_effects,
                    MiningQuery::FindWindow,
                )
            } else {
                mining_decide(m2, toggle_effects)
            }
        },
        (MiningPhase::FindingWindow, MiningEvent::Window(found)) => {
            let effects = match found {
                Some(w) => if m.window is None {
                    seq![MiningEffect::Log(MiningLog::WindowFound { width: w.width, height: w.height })]
                } else {
                    seq![]
                },
                None => if m.window is Some {
                    seq![MiningEffect::Log(MiningLog::WindowLost)]
                } else {
                    seq![]
                },
            };
            mining_decide(MiningView { window: found, ..m }, effects)
        },
        (MiningPhase::Zoning, MiningEvent::Zone { left, top, width, height }) => if width <= 0
            || height <= 0 {
            (
                MiningView { phase: MiningPhase::CheckingStop, ..m },
                seq![MiningEffect::Pause { millis: 100 }],
                MiningQuery::StopRequested,
            )
        } else {
            (
                MiningView { phase: MiningPhase::Capturing { left, top, width, height }, ..m },
                seq![],
                MiningQuery::Capture { left, top, width, height },
            )
        },
        (MiningPhase::Capturing { left, top, width, height }, MiningEvent::Captured(outcome)) => {
            let next = MiningView { phase: MiningPhase::CheckingStop, ..m };
            match outcome {
                Ok(pixels) => match color_hit(pixels@, width as int, height as int, m.target_color, m.tolerance) {
                    Some((x, y, count)) => {
                        let sx = (left + x) as i32;
                        let sy = (top + y) as i32;
                        (
                            next,
                            seq![
                                MiningEffect::RecordDetection,
                                MiningEffect::Log(MiningLog::PixelDetected { x: sx, y: sy, count: count as u32 }),
                                MiningEffect::ClickAt { x: sx, y: sy },
                                MiningEffect::RecordClick,
                                MiningEffect::Log(MiningLog::Clicked),
                            ],
                            MiningQuery::StopRequested,
                        )
                    },
                    None => (next, seq![MiningEffect::Pause { millis: 10 }], MiningQuery::StopRequested),
                },
                Err(error) => (
                    next,
                    seq![
                        MiningEffect::Log(MiningLog::CaptureFailed { error }),
                        MiningEffect::Pause { millis: 100 },
                    ],
                    MiningQuery::StopRequested,
                ),
            }
        },
        _ => (done, seq![], MiningQuery::Finished),
    }
}

/// The effects of one step and the query that follows them.
pub struct MiningStep {
    pub effects: Vec<MiningEffect>,
    pub query: MiningQuery,
}

fn mining_finish_effects(status: &MiningStatus) -> (r: Vec<MiningEffect>)
    ensures
        r@ == mining_finish(*status),
{
    vec![
        MiningEffect::Notify(MiningAnnouncement::Stopped { clicks: status.click_count }),
        MiningEffect::Log(MiningLog::Stopped),
        MiningEffect::Finish,
    ]
}

impl MiningMachine {
    /// A bot about to run, watching for `target_color` within `tolerance`, with
    /// `toggle_key` to pause and resume (M when the name is unknown).
    pub fn new(target_color: [u8; 3], tolerance: u8, toggle_key: &str) -> (m: Self)
        ensures
            m@.phase is Begin,
            m@.target_color == target_color,
            m@.tolerance == tolerance,
            m@.toggle_vk == match virtual_key(uppercase(trimmed(toggle_key@))) {
                Some(vk) => vk,
                None => 0x4Di32,
            },
            !m@.toggle_was_pressed,
            !m@.escape_was_pressed,
            m@.escape_times.len() == 0,
            m@.last_window_check is None,
            m@.window is None,
            m@.active,
    {
        let toggle_vk = match key_name_to_vk(toggle_key) {
            Some(vk) => vk,
            None => VK_M,
        };
        MiningMachine {
            phase: MiningPhase::Begin,
            target_color,
            tolerance,
            toggle_vk,
            toggle_was_pressed: false,
            escape_was_pressed: false,
            escape_times: Vec::new(),
            last_window_check: None,
            window: None,
            active: true,
        }
    }

    /// Whether the bot is over.
    pub fn is_done(&self) -> (b: bool)
        ensures
            b == self.phase is Done,
    {
        matches!(self.phase, MiningPhase::Done)
    }

    fn decide(&mut self, effects: Vec<MiningEffect>) -> (r: MiningStep)
        ensures
            (final(self)@, r.effects@, r.query) == mining_decide(old(self)@, effects@),
    {
        let mut effects = effects;
        match &self.window {
            None => {
                effects.push(MiningEffect::Pause { millis: 100 });
                self.phase = MiningPhase::CheckingStop;
                MiningStep { effects, query: MiningQuery::StopRequested }
            },
            Some(w) => {
                if !self.active {
                    effects.push(MiningEffect::Pause { millis: 100 });
                    self.phase = MiningPhase::CheckingStop;
                    MiningStep { effects, query: MiningQuery::StopRequested }
                } else {
                    let shown = w.duplicate();
                    self.phase = MiningPhase::Zoning;
                    MiningStep { effects, query: MiningQuery::WatchZone(shown) }
                }
            },
        }
    }

    /// Takes the answer to the pending query and decides what comes next.
    pub fn step(&mut self, status: &MiningStatus, event: MiningEvent) -> (r: MiningStep)
        requires
            mining_step_ok(old(self)@, event),
        ensures
            (final(self)@, r.effects@, r.query) == mining_step(old(self)@, *status, event),
    {
        let mut phase = MiningPhase::Done;
        std::mem::swap(&mut phase, &mut self.phase);
        match phase {
            MiningPhase::Begin => {
                self.active = true;
                self.phase = MiningPhase::CheckingStop;
                MiningStep {
                    effects: vec![
                        MiningEffect::Log(MiningLog::Started),
                        MiningEffect::Notify(MiningAnnouncement::Started),
                        MiningEffect::LogSettings,
                        MiningEffect::SetActive(true),
                    ],
                    query: MiningQuery::StopRequested,
                }
            },
            MiningPhase::CheckingStop => match event {
                MiningEvent::Stop(stop) => if stop {
                    MiningStep { effects: mining_finish_effects(status), query: MiningQuery::Finished }
                } else {
                    self.phase = MiningPhase::ReadingKeys;
                    MiningStep {
                        effects: Vec::new(),
                        query: MiningQuery::KeyStates { toggle_vk: self.toggle_vk },
                    }
                },
                _ => MiningStep { effects: Vec::new(), query: MiningQuery::Finished },
            },
            MiningPhase::ReadingKeys => match event {
                MiningEvent::Keys { toggle_down, escape_down, now } => {
                    let mut effects: Vec<MiningEffect> = Vec::new();
                    let toggled = is_key_just_pressed(toggle_down, &mut self.toggle_was_pressed);
                    if toggled {
                        self.active = !self.active;
                        effects.push(MiningEffect::SetActive(self.active));
                        if self.active {
                            effects.push(MiningEffect::Log(MiningLog::DetectionOn));
                        } else {
                            effects.push(MiningEffect::Log(MiningLog::DetectionPaused));
                        }
                    }
                    let escaped = is_key_just_pressed(escape_down, &mut self.escape_was_pressed);
                    if escaped {
                        let quit = register_escape(&mut self.escape_times, now);
                        if quit {
                            effects.push(MiningEffect::Log(MiningLog::TripleEscape));
                            let mut fin = mining_finish_effects(status);
                            effects.append(&mut fin);
                            return MiningStep { effects, query: MiningQuery::Finished };
                        }
                    }
                    let due = match self.last_window_check {
                        None => true,
                        Some(t) => now >= t && now - t >= WINDOW_RECHECK_NS,
                    };
                    if due {
                        self.last_window_check = Some(now);
                        self.phase = MiningPhase::FindingWindow;
                        MiningStep { effects, query: MiningQuery::FindWindow }
                    } else {
                        self.decide(effects)
                    }
                },
                _ => MiningStep { effects: Vec::new(), query: MiningQuery::Finished },
            },
            MiningPhase::FindingWindow => match event {
                MiningEvent::Window(found) => {
                    let mut effects: Vec<MiningEffect> = Vec::new();
                    match &found {
                        Some(w) => {
                            if self.window.is_none() {
                                effects.push(
                                    MiningEffect::Log(MiningLog::WindowFound { width: w.width, height: w.height }),
                                );
                            }
                        },
                        None => {
                            if self.window.is_some() {
                                effects.push(MiningEffect::Log(MiningLog::WindowLost));
                            }
                        },
                    }
                    self.window = found;
                    self.decide(effects)
                },
                _ => MiningStep { effects: Vec::new(), query: MiningQuery::Finished },
            },
            MiningPhase::Zoning => match event {
                MiningEvent::Zone { left, top, width, height } => if width <= 0 || height <= 0 {
                    self.phase = MiningPhase::CheckingStop;
                    MiningStep {
                        effects: vec![MiningEffect::Pause { millis: 100 }],
                        query: MiningQuery::StopRequested,
                    }
                } else {
                    self.phase = MiningPhase::Capturing { left, top, width, height };
                    MiningStep { effects: Vec::new(), query: MiningQuery::Capture { left, top, width, height } }
                },
                _ => MiningStep { effects: Vec::new(), query: MiningQuery::Finished },
            },
            MiningPhase::Capturing { left, top, width, height } => match event {
                MiningEvent::Captured(Ok(pixels)) => {
                    self.phase = MiningPhase::CheckingStop;
                    let hit = find_color_pixel(pixels.as_slice(), width, height, self.target_color, self.tolerance);
                    proof {
                        let n = width * height;
                        let p = pixels@;
                        if let Some((x, y, c)) = hit {
                            assert(y * width + x < n) by (nonlinear_arith)
                                requires
                                    0 <= x < width,
                                    0 <= y < height,
                                    n == width * height,
                            ;
                            lemma_first_match_index(p, n, y * width + x, self.target_color, self.tolerance);
                            vstd::arithmetic::div_mod::lemma_fundamental_div_mod_converse(
                                y * width + x,
                                width as int,
                                y as int,
                                x as int,
                            );
                        }
                    }
                    match hit {
                        Some((x, y, count)) => {
                            let sx = left + x;
                            let sy = top + y;
                            MiningStep {
                                effects: vec![
                                    MiningEffect::RecordDetection,
                                    MiningEffect::Log(MiningLog::PixelDetected { x: sx, y: sy, count }),
                                    MiningEffect::ClickAt { x: sx, y: sy },
                                    MiningEffect::RecordClick,
                                    MiningEffect::Log(MiningLog::Clicked),
                                ],
                                query: MiningQuery::StopRequested,
                            }
                        },
                        None => MiningStep {
                            effects: vec![MiningEffect::Pause { millis: 10 }],
                            query: MiningQuery::StopRequested,
                        },
                    }
                },
                MiningEvent::Captured(Err(error)) => {
                    self.phase = MiningPhase::CheckingStop;
                    MiningStep {
                        effects: vec![
                            MiningEffect::Log(MiningLog::CaptureFailed { error }),
                            MiningEffect::Pause { millis: 100 },
                        ],
                        query: MiningQuery::StopRequested,
                    }
                },
                _ => MiningStep { effects: Vec::new(), query: MiningQuery::Finished },
            },
            MiningPhase::Done => MiningStep { effects: Vec::new(), query: MiningQuery::Finished },
        }
    }
}

/// The toggle key flips detection: a press (the key down after a reading that
/// saw it up) turns detection off when it was on and on when it was off.
pub proof fn mining_toggle_flips_detection(m: MiningView, status: MiningStatus, escape_down: bool, now: u64)
    requires
        m.phase is ReadingKeys,
        !m.toggle_was_pressed,
    ensures
        mining_step(m, status, MiningEvent::Keys { toggle_down: true, escape_down, now }).0.active
            == !m.active,
        mining_step(m, status, MiningEvent::Keys { toggle_down: true, escape_down, now }).1[0]
            == MiningEffect::SetActive(!m.active),
{
}

/// The bot only clicks where it saw the colour: a click is the answer to a
/// capture of zone `(left, top, ..)`, at `(left + x, top + y)` where `(x, y)`
/// is the first pixel of the capture within tolerance of the target.
pub proof fn mining_clicks_only_on_detection(
    m: MiningView,
    status: MiningStatus,
    event: MiningEvent,
    k: int,
)
    requires
        mining_step_ok(m, event),
        0 <= k < mining_step(m, status, event).1.len(),
        mining_step(m, status, event).1[k] is ClickAt,
    ensures
        m.phase matches MiningPhase::Capturing { left, top, width, height } && event matches MiningEvent::Captured(Ok(pixels)) && color_hit(pixels@, width as int, height as int, m.target_color, m.tolerance) matches Some((x, y, c)) && mining_step(m, status, event).1[k] == (MiningEffect::ClickAt {
            x: (left + x) as i32,
            y: (top + y) as i32,
        }),
{
    let effects = mining_step(m, status, event).1;
    match m.phase {
        MiningPhase::ReadingKeys => {
            if let MiningEvent::Keys { toggle_down, escape_down, now } = event {
                let toggled = key_edge(toggle_down, m.toggle_was_pressed);
                assert(effects.len() <= 6);
                assert(!(effects[k] is ClickAt));
            }
        },
        MiningPhase::FindingWindow => {
            assert(effects.len() <= 2);
        },
        _ => {},
    }
}

/// While detection is paused the bot never looks at the screen: a step that
/// asks for the zone to watch leaves detection on, whatever the phase and the
/// event.
pub proof fn mining_paused_bot_does_not_capture(m: MiningView, status: MiningStatus, event: MiningEvent)
    requires
        mining_step_ok(m, event),
    ensures
        mining_step(m, status, event).2 is WatchZone ==> mining_step(m, status, event).0.active,
{
}

/// A stop request is always honoured: at the stop check the bot ends,
/// announcing its clicks, with `Finish` as the last effect.
pub proof fn mining_stop_request_ends_bot(m: MiningView, status: MiningStatus)
    requires
        m.phase is CheckingStop,
    ensures
        mining_step(m, status, MiningEvent::Stop(true)).0.phase is Done,
        mining_step(m, status, MiningEvent::Stop(true)).1 == mining_finish(status),
        mining_step(m, status, MiningEvent::Stop(true)).1.last() is Finish,
        mining_step(m, status, MiningEvent::Stop(true)).2 is Finished,
{
}

/// What an effect does to the status when the desktop layer performs it (the
/// contracts of `set_active`, `record_detection`, `record_click` and `stop`).
pub open spec fn mining_status_after(status: MiningStatus, effect: MiningEffect) -> MiningStatus {
    match effect {
        MiningEffect::SetActive(active) => MiningStatus { active, ..status },
        MiningEffect::RecordDetection => MiningStatus {
            detection_count: (status.detection_count + 1) as u32,
            ..status
        },
        MiningEffect::RecordClick => MiningStatus { click_count: (status.click_count + 1) as u32, ..status },
        MiningEffect::Finish => MiningStatus { running: false, active: false, ..status },
        _ => status,
    }
}

/// The status once the first `n` effects are performed.
pub open spec fn mining_status_through(status: MiningStatus, effects: Seq<MiningEffect>, n: int) -> MiningStatus
    decreases n,
{
    if n <= 0 {
        status
    } else {
        mining_status_after(mining_status_through(status, effects, n - 1), effects[n - 1])
    }
}

/// The persistent click total once the first `n` effects are performed:
/// `RecordClick` adds one (`record_mining_click`).
pub open spec fn mining_clicks_total_through(total: int, effects: Seq<MiningEffect>, n: int) -> int
    decreases n,
{
    if n <= 0 {
        total
    } else {
        mining_clicks_total_through(total, effects, n - 1) + if effects[n - 1] is RecordClick {
            1int
        } else {
            0int
        }
    }
}

proof fn lemma_uncounted_effects_keep_counts(status: MiningStatus, effects: Seq<MiningEffect>, n: int)
    requires
        0 <= n <= effects.len(),
        forall|i: int|
            0 <= i < n ==> !(#[trigger] effects[i] is RecordDetection) && !(effects[i] is RecordClick),
    ensures
        mining_status_through(status, effects, n).click_count == status.click_count,
        mining_status_through(status, effects, n).detection_count == status.detection_count,
        forall|total: int| #[trigger] mining_clicks_total_through(total, effects, n) == total,
    decreases n,
{
    if n > 0 {
        lemma_uncounted_effects_keep_counts(status, effects, n - 1);
        assert(!(effects[n - 1] is RecordDetection) && !(effects[n - 1] is RecordClick));
        assert forall|total: int| #[trigger] mining_clicks_total_through(total, effects, n) == total by {
            assert(mining_clicks_total_through(total, effects, n - 1) == total);
        }
    }
}

/// Clicks never outnumber detections: a status with no more clicks than
/// detections (as `MiningStatus::start` leaves it, both zero) keeps that
/// after the effects of any step, since each click follows its own detection.
/// A step detects at most once, and the clicks it adds to the status are
/// exactly those it adds to the persistent total.
pub proof fn mining_clicks_never_exceed_detections(
    m: MiningView,
    status: MiningStatus,
    event: MiningEvent,
    total: int,
)
    requires
        mining_step_ok(m, event),
        status.click_count <= status.detection_count,
        status.detection_count < u32::MAX,
    ensures
        ({
            let effects = mining_step(m, status, event).1;
            let after = mining_status_through(status, effects, effects.len() as int);
            &&& after.click_count <= after.detection_count
            &&& after.detection_count <= status.detection_count + 1
            &&& mining_clicks_total_through(total, effects, effects.len() as int) - total
                == after.click_count - status.click_count
        }),
{
    let effects = mining_step(m, status, event).1;
    let n = effects.len() as int;
    if effects.contains(MiningEffect::RecordClick) || effects.contains(MiningEffect::RecordDetection) {
        reveal_with_fuel(mining_status_through, 6);
        reveal_with_fuel(mining_clicks_total_through, 6);
        assert(m.phase is Capturing);
    } else {
        assert forall|i: int| 0 <= i < n implies !(#[trigger] effects[i] is RecordDetection) && !(
        effects[i] is RecordClick) by {
            if effects[i] is RecordDetection {
                assert(effects.contains(MiningEffect::RecordDetection));
            }
            if effects[i] is RecordClick {
                assert(effects.contains(MiningEffect::RecordClick));
            }
        }
        lemma_uncounted_effects_keep_counts(status, effects, n);
        assert(mining_clicks_total_through(total, effects, n) == total);
    }
}

/// A whole run of the bot, the status carried from step to step by the
/// effects: the bot reached, the status, and the persistent click total.
pub open spec fn mining_counted_run(m: MiningView, status: MiningStatus, total: int, events: Seq<MiningEvent>) -> (
    MiningView,
    MiningStatus,
    int,
)
    decreases events.len(),
{
    if events.len() == 0 || m.phase is Done {
        (m, status, total)
    } else {
        let (next, effects, _) = mining_step(m, status, events[0]);
        mining_counted_run(
            next,
            mining_status_through(status, effects, effects.len() as int),
            mining_clicks_total_through(total, effects, effects.len() as int),
            events.drop_first(),
        )
    }
}

/// Whether each event of such a run answers the query pending at its step.
pub open spec fn mining_counted_run_ok(m: MiningView, status: MiningStatus, events: Seq<MiningEvent>) -> bool
    decreases events.len(),
{
    events.len() == 0 || m.phase is Done || {
        let (next, effects, _) = mining_step(m, status, events[0]);
        &&& mining_step_ok(m, events[0])
        &&& mining_counted_run_ok(
            next,
            mining_status_through(status, effects, effects.len() as int),
            events.drop_first(),
        )
    }
}

/// Over a whole run, clicks never outnumber detections, and every click is
/// counted once in the status and once in the persistent total: from a status
/// with no more clicks than detections (both zero after `start`), the clicks
/// added to the status equal those added to the total.
pub proof fn mining_run_counts_each_click_once(
    m: MiningView,
    status: MiningStatus,
    total: int,
    events: Seq<MiningEvent>,
)
    requires
        mining_counted_run_ok(m, status, events),
        status.click_count <= status.detection_count,
        status.detection_count + events.len() < u32::MAX,
    ensures
        ({
            let (_, after, after_total) = mining_counted_run(m, status, total, events);
            &&& after.click_count <= after.detection_count
            &&& after.detection_count <= status.detection_count + events.len()
            &&& after_total - total == after.click_count - status.click_count
        }),
    decreases events.len(),
{
    if events.len() > 0 && !(m.phase is Done) {
        let (next, effects, _) = mining_step(m, status, events[0]);
        mining_clicks_never_exceed_detections(m, status, events[0], total);
        let s1 = mining_status_through(status, effects, effects.len() as int);
        let t1 = mining_clicks_total_through(total, effects, effects.len() as int);
        mining_run_counts_each_click_once(next, s1, t1, events.drop_first());
    }
}

/// How many steps at most lie between a phase and the next stop check; at
/// most four.
pub open spec fn mining_steps_to_stop_check(phase: MiningPhase) -> nat {
    match phase {
        MiningPhase::ReadingKeys => 4,
        MiningPhase::FindingWindow => 3,
        MiningPhase::Zoning => 2,
        MiningPhase::Capturing { .. } | MiningPhase::Begin => 1,
        _ => 0,
    }
}

/// Every step brings the next stop check nearer: with a stop request
/// standing, a step either ends the bot or leads closer to a stop check.
pub proof fn mining_step_nears_stop_check(m: MiningView, status: MiningStatus, event: MiningEvent)
    requires
        mining_step_ok(m, event),
        event != MiningEvent::Stop(false),
    ensures
        mining_step(m, status, event).0.phase is Done || mining_steps_to_stop_check(
            mining_step(m, status, event).0.phase,
        ) < mining_steps_to_stop_check(m.phase),
{
}

/// The bot reached by answering the queries with `events` in order, the status
/// read at step `i` being `statuses[i]`; it stays put once the bot is over.
pub open spec fn mining_run(m: MiningView, statuses: Seq<MiningStatus>, events: Seq<MiningEvent>) -> MiningView
    decreases events.len(),
{
    if events.len() == 0 || m.phase is Done {
        m
    } else {
        mining_run(mining_step(m, statuses[0], events[0]).0, statuses.drop_first(), events.drop_first())
    }
}

/// Whether each event of a run answers the query pending at its step.
pub open spec fn mining_run_ok(m: MiningView, statuses: Seq<MiningStatus>, events: Seq<MiningEvent>) -> bool
    decreases events.len(),
{
    events.len() == 0 || m.phase is Done || {
        &&& mining_step_ok(m, events[0])
        &&& mining_run_ok(mining_step(m, statuses[0], events[0]).0, statuses.drop_first(), events.drop_first())
    }
}

/// A stop request that stays set ends the bot within five steps, whatever the
/// keys, the window and the captures report meanwhile.
pub proof fn mining_standing_stop_ends_bot(m: MiningView, statuses: Seq<MiningStatus>, events: Seq<MiningEvent>)
    requires
        statuses.len() == events.len(),
        events.len() > mining_steps_to_stop_check(m.phase),
        mining_run_ok(m, statuses, events),
        forall|i: int| 0 <= i < events.len() ==> #[trigger] events[i] != MiningEvent::Stop(false),
    ensures
        mining_run(m, statuses, events).phase is Done,
        mining_steps_to_stop_check(m.phase) <= 4,
    decreases events.len(),
{
    if !(m.phase is Done) {
        assert(events[0] != MiningEvent::Stop(false));
        mining_step_nears_stop_check(m, statuses[0], events[0]);
        let next = mining_step(m, statuses[0], events[0]).0;
        if !(next.phase is Done) {
            let rest = events.drop_first();
            assert forall|i: int| 0 <= i < rest.len() implies #[trigger] rest[i] != MiningEvent::Stop(false) by {
                assert(rest[i] == events[i + 1]);
            }
            mining_standing_stop_ends_bot(next, statuses.drop_first(), rest);
        } else {
            assert(mining_run(next, statuses.drop_first(), events.drop_first()).phase is Done);
        }
    }
}

/// The key reading that brings the Escape presses of the last second to three
/// ends the bot at once: it logs the triple Escape, announces the clicks made,
/// and stops the bot.
pub proof fn mining_triple_escape_ends_bot(m: MiningView, status: MiningStatus, toggle_down: bool, now: u64)
    requires
        m.phase is ReadingKeys,
        !m.escape_was_pressed,
        kept_presses(m.escape_times, now).len() >= ESCAPE_PRESSES_TO_QUIT,
    ensures
        ({
            let (next, effects, query) = mining_step(
                m,
                status,
                MiningEvent::Keys { toggle_down, escape_down: true, now },
            );
            &&& next.phase is Done
            &&& query is Finished
            &&& effects.len() >= 4
            &&& effects.subrange(effects.len() - 4, effects.len() as int) == seq![
                MiningEffect::Log(MiningLog::TripleEscape),
            ] + mining_finish(status)
        }),
{
    let effects = mining_step(m, status, MiningEvent::Keys { toggle_down, escape_down: true, now }).1;
    assert(effects.subrange(effects.len() - 4, effects.len() as int) =~= seq![
        MiningEffect::Log(MiningLog::TripleEscape),
    ] + mining_finish(status));
}

/// The game window is looked for again every two seconds: at a key reading
/// without a triple Escape, when no window check was made yet or at least
/// 2 000 000 000 ns have passed since the last one, the bot asks for the
/// window and notes the time; when less has passed, it does not.
pub proof fn mining_rechecks_window_every_two_seconds(
    m: MiningView,
    status: MiningStatus,
    toggle_down: bool,
    escape_down: bool,
    now: u64,
)
    requires
        m.phase is ReadingKeys,
        !escape_down || m.escape_was_pressed || kept_presses(m.escape_times, now).len() < 3,
    ensures
        ({
            let (next, effects, query) = mining_step(
                m,
                status,
                MiningEvent::Keys { toggle_down, escape_down, now },
            );
            &&& (m.last_window_check is None || (m.last_window_check matches Some(t) && t <= now && now
                - t >= 2_000_000_000)) ==> ({
                &&& query is FindWindow
                &&& next.phase is FindingWindow
                &&& next.last_window_check == Some(now)
            })
            &&& ((m.last_window_check matches Some(t) && t <= now && now - t < 2_000_000_000) ==> ({
                &&& !(query is FindWindow)
                &&& next.last_window_check == m.last_window_check
            }))
        }),
{
}

/// The mining bot's waits and zone: without a window it waits 100 ms before
/// the next stop check; with a window and detection on it asks for the zone to
/// watch in that window; an empty zone means a 100 ms wait; a zone with pixels
/// is captured as it is; a failed capture is logged and followed by 100 ms; a
/// capture without the colour is followed by 10 ms.
pub proof fn mining_waits_and_zones(m: MiningView, status: MiningStatus, event: MiningEvent)
    requires
        mining_step_ok(m, event),
    ensures
        ({
            let (next, effects, query) = mining_step(m, status, event);
            &&& (event == MiningEvent::Window(None) ==> (effects.last() == (MiningEffect::Pause { millis: 100 })
                && query == MiningQuery::StopRequested))
            &&& (event matches MiningEvent::Window(Some(w)) ==> (m.active ==> query == MiningQuery::WatchZone(w))
                && (!m.active ==> effects.last() == (MiningEffect::Pause { millis: 100 })))
            &&& (event matches MiningEvent::Zone { left, top, width, height } ==> ((width <= 0 || height <= 0)
                ==> (effects == seq![MiningEffect::Pause { millis: 100 }] && query
                == MiningQuery::StopRequested)) && ((width > 0 && height > 0) ==> query == (MiningQuery::Capture {
                left,
                top,
                width,
                height,
            })))
            &&& (event matches MiningEvent::Captured(Err(error)) ==> effects == seq![
                MiningEffect::Log(MiningLog::CaptureFailed { error }),
                MiningEffect::Pause { millis: 100 },
            ])
            &&& (m.phase matches MiningPhase::Capturing { left, top, width, height } && event matches MiningEvent::Captured(
                Ok(pixels),
            ) && (forall|k: int| 0 <= k < width * height ==> !#[trigger] pixel_matches(
                pixels@,
                k,
                m.target_color,
                m.tolerance,
            )) ==> effects == seq![MiningEffect::Pause { millis: 10 }])
        }),
{
    if m.phase is Capturing {
        if let MiningPhase::Capturing { left, top, width, height } = m.phase {
            if let MiningEvent::Captured(Ok(pixels)) = event {
                if forall|k: int| 0 <= k < width * height ==> !#[trigger] pixel_matches(
                    pixels@,
                    k,
                    m.target_color,
                    m.tolerance,
                ) {
                    crate::pixels::lemma_no_match_count(pixels@, width * height, m.target_color, m.tolerance);
                }
            }
        }
    }
}

} // verus!
