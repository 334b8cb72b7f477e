//! The decisions of the AFK automation loop: find the game window, pick the
//! character by OCR, turn AFK mode on, and relaunch the game after a crash.
//! The desktop layer performs each step's effects in order, answers its query
//! with an event, and feeds that event back.
use vstd::prelude::*;
use crate::state::{AutomationState, AutomationStatus, WindowInfo};
use crate::stats::session_afk_seconds;

verus! {

/// How many OCR attempts (5 s apart) are made before giving up on a window.
pub const OCR_MAX_ATTEMPTS: u32 = 60;

/// Severity of a log line.
#[derive(Clone, Copy, Debug, PartialEq, Eq, Structural)]
pub enum LogLevel {
    Info,
    Warn,
    Error,
}

/// The lines the AFK automation writes to its log.
#[derive(Debug)]
pub enum AfkLog {
    Started,
    StoppedByUser,
    WindowFound { title: String, width: i32, height: i32 },
    SearchingCharacter,
    CharacterDetected { text: String },
    CharacterClicked,
    NextClicked,
    OcrAttemptFailed { attempt: u32, max_attempts: u32, error: String },
    OcrTimeout,
    FocusFailed { error: String },
    AfkSequenceSent,
    AfkActive,
    NoWindowLaunching,
    ProcessesKilled { count: u32 },
    KillFailed { error: String },
    Launched,
    LaunchFailed { error: String },
    WaitingForStartup,
    StoppedWhileWaiting,
    CrashDetected,
    KilledBeforeRelaunch,
    StoppedWhileReconnecting,
    Relaunched,
    RelaunchFailed { error: String },
    WaitingForRestart,
}

impl AfkLog {
    /// The severity of the line.
    pub fn level(&self) -> (l: LogLevel)
        ensures
            l == afk_log_level(*self),
    {
        match self {
            AfkLog::OcrAttemptFailed { .. } | AfkLog::CrashDetected => LogLevel::Warn,
            AfkLog::OcrTimeout | AfkLog::FocusFailed { .. } | AfkLog::KillFailed { .. }
            | AfkLog::LaunchFailed { .. } | AfkLog::RelaunchFailed { .. } => LogLevel::Error,
            _ => LogLevel::Info,
        }
    }
}

/// Warnings for failed OCR attempts and crashes, errors for what failed
/// outright, information otherwise.
pub open spec fn afk_log_level(l: AfkLog) -> LogLevel {
    match l {
        AfkLog::OcrAttemptFailed { .. } | AfkLog::CrashDetected => LogLevel::Warn,
        AfkLog::OcrTimeout | AfkLog::FocusFailed { .. } | AfkLog::KillFailed { .. }
        | AfkLog::LaunchFailed { .. } | AfkLog::RelaunchFailed { .. } => LogLevel::Error,
        _ => LogLevel::Info,
    }
}

/// What the automation announces on the webhook.
#[derive(Debug)]
pub enum AfkAnnouncement {
    /// The character is connected and AFK mode is on.
    AfkStarted { character: String },
    /// The automation was stopped during an AFK session.
    AfkStopped,
    /// The game crashed; reconnection number `reconnect` is under way.
    Crashed { reconnect: u32 },
}

/// Something the desktop layer does without answering.
#[derive(Debug)]
pub enum AfkEffect {
    Log(AfkLog),
    /// Set the phase shown in the status, and publish the status.
    SetState(AutomationState),
    /// Publish where the game window is.
    ShowWindow(WindowInfo),
    /// Publish that no game window is there (the default window description).
    ShowNoWindow,
    /// Click the character's name at a screen position.
    ClickCharacter { x: i32, y: i32 },
    /// Click "Suivant" relative to the window's client area.
    ClickNext { window_x: i32, window_y: i32, window_height: i32 },
    /// Plain wait, in seconds.
    Pause { secs: u64 },
    /// Send the AFK menu key sequence.
    SendAfkSequence,
    /// Record that AFK mode started now (`AutomationStatus::begin_afk`), publish.
    BeginAfk,
    /// Record a crash now (`AutomationStatus::record_crash`), publish.
    RecordCrash,
    /// Add the AFK time of the session to the persistent totals and save them.
    SaveAfkTime,
    /// Kill the game's processes, ignoring the outcome.
    KillProcessesQuietly,
    /// Post an announcement on the webhook.
    Notify(AfkAnnouncement),
    /// Set the status to idle and not running (`AutomationStatus::finish`), publish.
    Finish,
}

/// What the automation waits for after a step; each is answered by one event.
#[derive(Debug)]
pub enum AfkQuery {
    /// Whether a stop was requested: answered by `Stop`.
    StopRequested,
    /// Look for the game window: answered by `Window`.
    FindWindow,
    /// Look for the character on screen (two captures 500 ms apart, by OCR):
    /// answered by `Detection`.
    DetectCharacter(WindowInfo),
    /// Kill the game's processes: answered by `Killed`.
    KillProcesses,
    /// Start the game on the server: answered by `Launched`.
    Launch,
    /// Sleep that many seconds, checking for a stop every second: answered by
    /// `Slept`.
    Sleep { secs: u64 },
    /// Focus the game window (with a click in its centre): answered by `Focused`.
    Focus { hwnd: isize },
    /// Nothing more: the automation is over.
    Finished,
}

/// The answer to a query.
#[derive(Debug)]
pub enum AfkEvent {
    /// The automation was just spawned.
    Start,
    Stop(bool),
    Window(Option<WindowInfo>),
    /// Where to click to select the character and the text read, or why not.
    Detection(Result<(i32, i32, String), String>),
    Killed(Result<u32, String>),
    Launched(Result<(), String>),
    /// Whether a stop was requested during the sleep.
    Slept(bool),
    Focused(Result<(), String>),
}

/// Where the automation stands between two events.
#[derive(Debug)]
pub enum AfkPhase {
    Begin,
    CheckingStop,
    SearchingWindow,
    OcrCheckingStop { window: WindowInfo, attempt: u32 },
    Detecting { window: WindowInfo, attempt: u32 },
    OcrRetryWait { window: WindowInfo, attempt: u32 },
    OcrTimeoutWait,
    Focusing,
    Killing,
    PreLaunchWait,
    Launching,
    LaunchRetryWait,
    StartupWait,
    CrashWait,
    Relaunching,
    RestartWait,
    IdleWait,
    Done,
}

/// Whether `event` answers what a machine in `phase` waits for.
pub open spec fn afk_expects(phase: AfkPhase, event: AfkEvent) -> bool {
    match phase {
        AfkPhase::Begin => event is Start,
        AfkPhase::CheckingStop | AfkPhase::OcrCheckingStop { .. } => event is Stop,
        AfkPhase::SearchingWindow => event is Window,
        AfkPhase::Detecting { .. } => event is Detection,
        AfkPhase::Killing => event is Killed,
        AfkPhase::Launching | AfkPhase::Relaunching => event is Launched,
        AfkPhase::Focusing => event is Focused,
        AfkPhase::Done => false,
        _ => event is Slept,
    }
}

/// Whether the machine can take `event` in `phase` with this status: the event
/// answers the pending query, OCR attempts stay under the limit, and a crash
/// can still be counted.
pub open spec fn afk_step_ok(phase: AfkPhase, status: AutomationStatus, event: AfkEvent) -> bool {
    &&& afk_expects(phase, event)
    &&& match phase {
        AfkPhase::OcrCheckingStop { attempt, .. } | AfkPhase::Detecting { attempt, .. }
        | AfkPhase::OcrRetryWait { attempt, .. } => attempt < OCR_MAX_ATTEMPTS,
        AfkPhase::SearchingWindow => (event matches AfkEvent::Window(None) && status.session_treated)
            ==> status.reconnect_count < u32::MAX,
        _ => true,
    }
}

/// The clean exit: save the AFK time, announce the end of an AFK session if
/// one was under way, and go idle.
pub open spec fn clean_stop(status: AutomationStatus) -> Seq<AfkEffect> {
    if status.session_treated && status.afk_start_time is Some {
        seq![AfkEffect::SaveAfkTime, AfkEffect::Notify(AfkAnnouncement::AfkStopped), AfkEffect::Finish]
    } else {
        seq![AfkEffect::SaveAfkTime, AfkEffect::Finish]
    }
}

/// One step of the automation: from the phase, the character name, the current
/// status and the event, the next phase, the effects to perform in order, and
/// the query to answer next.
pub open spec fn afk_step(phase: AfkPhase, name: String, status: AutomationStatus, event: AfkEvent) -> (
    AfkPhase,
    Seq<AfkEffect>,
    AfkQuery,
) {
    let user_stop = (
        AfkPhase::Done,
        seq![AfkEffect::Log(AfkLog::StoppedByUser)] + clean_stop(status),
        AfkQuery::Finished,
    );
    match (phase, event) {
        (AfkPhase::Begin, _) => (
            AfkPhase::CheckingStop,
            seq![AfkEffect::Log(AfkLog::Started)],
            AfkQuery::StopRequested,
        ),
        (AfkPhase::CheckingStop, AfkEvent::Stop(stop)) => if stop {
            user_stop
        } else {
            (
                AfkPhase::SearchingWindow,
                seq![AfkEffect::SetState(AutomationState::SearchingWindow)],
                AfkQuery::FindWindow,
            )
        },
        (AfkPhase::SearchingWindow, AfkEvent::Window(found)) => match found {
            Some(info) => {
                let shown = seq![
                    AfkEffect::ShowWindow(info),
                    AfkEffect::Log(
                        AfkLog::WindowFound { title: info.title, width: info.width, height: info.height },
                    ),
                ];
                if !status.session_treated {
                    (
                        AfkPhase::OcrCheckingStop { window: info, attempt: 0 },
                        shown + seq![
                            AfkEffect::SetState(AutomationState::WaitingOcr),
                            AfkEffect::Log(AfkLog::SearchingCharacter),
                        ],
                        AfkQuery::StopRequested,
                    )
                } else {
                    (
                        AfkPhase::IdleWait,
                        shown + seq![AfkEffect::SetState(AutomationState::AfkActive)],
                        AfkQuery::Sleep { secs: 5 },
                    )
                }
            },
            None => {
                let shown = seq![AfkEffect::ShowNoWindow];
                if !status.session_treated {
                    (
                        AfkPhase::Killing,
                        shown + seq![
                            AfkEffect::SetState(AutomationState::LaunchingFivem),
                            AfkEffect::Log(AfkLog::NoWindowLaunching),
                        ],
                        AfkQuery::KillProcesses,
                    )
                } else {
                    (
                        AfkPhase::CrashWait,
                        shown + seq![
                            AfkEffect::SaveAfkTime,
                            AfkEffect::SetState(AutomationState::Reconnecting),
                            AfkEffect::Log(AfkLog::CrashDetected),
                            AfkEffect::RecordCrash,
                            AfkEffect::Notify(
                                AfkAnnouncement::Crashed { reconnect: (status.reconnect_count + 1) as u32 },
                            ),
                            AfkEffect::KillProcessesQuietly,
                            AfkEffect::Log(AfkLog::KilledBeforeRelaunch),
                        ],
                        AfkQuery::Sleep { secs: 60 },
                    )
                }
            },
        },
        (AfkPhase::OcrCheckingStop { window, attempt }, AfkEvent::Stop(stop)) => if stop {
            user_stop
        } else {
            (AfkPhase::Detecting { window, attempt }, seq![], AfkQuery::DetectCharacter(window))
        },
        (AfkPhase::Detecting { window, attempt }, AfkEvent::Detection(found)) => match found {
            Ok((x, y, text)) => (
                AfkPhase::Focusing,
                seq![
                    AfkEffect::Log(AfkLog::CharacterDetected { text }),
                    AfkEffect::SetState(AutomationState::SelectingCharacter),
                    AfkEffect::ClickCharacter { x, y },
                    AfkEffect::Log(AfkLog::CharacterClicked),
                    AfkEffect::Pause { secs: 1 },
                    AfkEffect::ClickNext {
                        window_x: window.x,
                        window_y: window.y,
                        window_height: window.height,
                    },
                    AfkEffect::Log(AfkLog::NextClicked),
                    AfkEffect::Pause { secs: 2 },
                    AfkEffect::SetState(AutomationState::SendingKeys),
                ],
                AfkQuery::Focus { hwnd: window.hwnd },
            ),
            Err(error) => (
                AfkPhase::OcrRetryWait { window, attempt },
                if attempt % 6 == 0 {
                    seq![
                        AfkEffect::Log(
                            AfkLog::OcrAttemptFailed {
                                attempt: (attempt + 1) as u32,
                                max_attempts: OCR_MAX_ATTEMPTS,
                                error,
                            },
                        ),
                    ]
                } else {
                    seq![]
                },
                AfkQuery::Sleep { secs: 5 },
            ),
        },
        (AfkPhase::OcrRetryWait { window, attempt }, AfkEvent::Slept(stop)) => if stop {
            user_stop
        } else if attempt + 1 < OCR_MAX_ATTEMPTS {
            (
                AfkPhase::OcrCheckingStop { window, attempt: (attempt + 1) as u32 },
                seq![],
                AfkQuery::StopRequested,
            )
        } else {
            (
                AfkPhase::OcrTimeoutWait,
                seq![AfkEffect::Log(AfkLog::OcrTimeout)],
                AfkQuery::Sleep { secs: 5 },
            )
        },
        (AfkPhase::OcrTimeoutWait, AfkEvent::Slept(stop)) => if stop {
            (AfkPhase::Done, clean_stop(status), AfkQuery::Finished)
        } else {
            (AfkPhase::CheckingStop, seq![], AfkQuery::StopRequested)
        },
        (AfkPhase::Focusing, AfkEvent::Focused(outcome)) => {
            let afk = seq![
                AfkEffect::Pause { secs: 1 },
                AfkEffect::SendAfkSequence,
                AfkEffect::Log(AfkLog::AfkSequenceSent),
                AfkEffect::BeginAfk,
                AfkEffect::Log(AfkLog::AfkActive),
                AfkEffect::Notify(AfkAnnouncement::AfkStarted { character: name }),
            ];
            (
                AfkPhase::IdleWait,
                match outcome {
                    Ok(()) => afk,
                    Err(error) => seq![AfkEffect::Log(AfkLog::FocusFailed { error })] + afk,
                },
                AfkQuery::Sleep { secs: 5 },
            )
        },
        (AfkPhase::Killing, AfkEvent::Killed(outcome)) => (
            AfkPhase::PreLaunchWait,
            match outcome {
                Ok(count) => if count > 0 {
                    seq![AfkEffect::Log(AfkLog::ProcessesKilled { count })]
                } else {
                    seq![]
                },
                Err(error) => seq![AfkEffect::Log(AfkLog::KillFailed { error })],
            },
            AfkQuery::Sleep { secs: 5 },
        ),
        (AfkPhase::PreLaunchWait, AfkEvent::Slept(stop)) => if stop {
            (AfkPhase::Done, clean_stop(status), AfkQuery::Finished)
        } else {
            (AfkPhase::Launching, seq![], AfkQuery::Launch)
        },
        (AfkPhase::Launching, AfkEvent::Launched(outcome)) => match outcome {
            Ok(()) => (
                AfkPhase::StartupWait,
                seq![AfkEffect::Log(AfkLog::Launched), AfkEffect::Log(AfkLog::WaitingForStartup)],
                AfkQuery::Sleep { secs: 60 },
            ),
            Err(error) => (
                AfkPhase::LaunchRetryWait,
                seq![AfkEffect::Log(AfkLog::LaunchFailed { error })],
                AfkQuery::Sleep { secs: 5 },
            ),
        },
        (AfkPhase::LaunchRetryWait, AfkEvent::Slept(stop)) => if stop {
            (AfkPhase::Done, clean_stop(status), AfkQuery::Finished)
        } else {
            (AfkPhase::CheckingStop, seq![], AfkQuery::StopRequested)
        },
        (AfkPhase::StartupWait, AfkEvent::Slept(stop)) => if stop {
            (
                AfkPhase::Done,
                seq![AfkEffect::Log(AfkLog::StoppedWhileWaiting)] + clean_stop(status),
                AfkQuery::Finished,
            )
        } else {
            (AfkPhase::IdleWait, seq![], AfkQuery::Sleep { secs: 5 })
        },
        (AfkPhase::CrashWait, AfkEvent::Slept(stop)) => if stop {
            (
                AfkPhase::Done,
                seq![AfkEffect::Log(AfkLog::StoppedWhileReconnecting)] + clean_stop(status),
                AfkQuery::Finished,
            )
        } else {
            (AfkPhase::Relaunching, seq![], AfkQuery::Launch)
        },
        (AfkPhase::Relaunching, AfkEvent::Launched(outcome)) => (
            AfkPhase::RestartWait,
            match outcome {
                Ok(()) => seq![AfkEffect::Log(AfkLog::Relaunched)],
                Err(error) => seq![AfkEffect::Log(AfkLog::RelaunchFailed { error })],
            } + seq![AfkEffect::Log(AfkLog::WaitingForRestart)],
            AfkQuery::Sleep { secs: 60 },
        ),
        (AfkPhase::RestartWait, AfkEvent::Slept(stop)) => if stop {
            (
                AfkPhase::Done,
                seq![AfkEffect::Log(AfkLog::StoppedWhileWaiting)] + clean_stop(status),
                AfkQuery::Finished,
            )
        } else {
            (AfkPhase::IdleWait, seq![], AfkQuery::Sleep { secs: 5 })
        },
        (AfkPhase::IdleWait, AfkEvent::Slept(stop)) => if stop {
            user_stop
        } else {
            (AfkPhase::CheckingStop, seq![], AfkQuery::StopRequested)
        },
        _ => (AfkPhase::Done, seq![], AfkQuery::Finished),
    }
}

/// The effects of one step and the query that follows them.
pub struct AfkStep {
    pub effects: Vec<AfkEffect>,
    pub query: AfkQuery,
}

/// The AFK automation between two events.
pub struct AfkMachine {
    pub phase: AfkPhase,
    pub character_name: String,
}

fn clean_stop_effects(status: &AutomationStatus) -> (r: Vec<AfkEffect>)
    ensures
        r@ == clean_stop(*status),
{
    if status.session_treated && status.afk_start_time.is_some() {
        vec![AfkEffect::SaveAfkTime, AfkEffect::Notify(AfkAnnouncement::AfkStopped), AfkEffect::Finish]
    } else {
        vec![AfkEffect::SaveAfkTime, AfkEffect::Finish]
    }
}

fn stop_with(first: AfkLog, status: &AutomationStatus) -> (r: Vec<AfkEffect>)
    ensures
        r@ == seq![AfkEffect::Log(first)] + clean_stop(*status),
{
    let mut r = vec![AfkEffect::Log(first)];
    let mut rest = clean_stop_effects(status);
    r.append(&mut rest);
    r
}

impl AfkMachine {
    /// A machine about to run the automation for `character_name`.
    pub fn new(character_name: String) -> (m: Self)
        ensures
            m.phase is Begin,
            m.character_name == character_name,
    {
        AfkMachine { phase: AfkPhase::Begin, character_name }
    }

    /// Whether the automation is over.
    pub fn is_done(&self) -> (b: bool)
        ensures
            b == self.phase is Done,
    {
        matches!(self.phase, AfkPhase::Done)
    }

    /// Takes the answer to the pending query and decides what comes next.
    pub fn step(&mut self, status: &AutomationStatus, event: AfkEvent) -> (r: AfkStep)
        requires
            afk_step_ok(old(self).phase, *status, event),
        ensures
            (final(self).phase, r.effects@, r.query) == afk_step(
                old(self).phase,
                old(self).character_name,
                *status,
                event,
            ),
            final(self).character_name == old(self).character_name,
    {
        let mut phase = AfkPhase::Done;
        std::mem::swap(&mut phase, &mut self.phase);
        let (next, effects, query) = match phase {
            AfkPhase::Begin => (
                AfkPhase::CheckingStop,
                vec![AfkEffect::Log(AfkLog::Started)],
                AfkQuery::StopRequested,
            ),
            AfkPhase::CheckingStop => match event {
                AfkEvent::Stop(stop) => if stop {
                    (AfkPhase::Done, stop_with(AfkLog::StoppedByUser, status), AfkQuery::Finished)
                } else {
                    (
                        AfkPhase::SearchingWindow,
                        vec![AfkEffect::SetState(AutomationState::SearchingWindow)],
                        AfkQuery::FindWindow,
                    )
                },
                _ => (AfkPhase::Done, Vec::new(), AfkQuery::Finished),
            },
            AfkPhase::SearchingWindow => match event {
                AfkEvent::Window(Some(info)) => {
                    let title = info.title.clone();
                    let width = info.width;
                    let height = info.height;
                    let shown_info = info.duplicate();
                    let mut effects = vec![
                        AfkEffect::ShowWindow(shown_info),
                        AfkEffect::Log(AfkLog::WindowFound { title, width, height }),
                    ];
                    if !status.session_treated {
                        effects.push(AfkEffect::SetState(AutomationState::WaitingOcr));
                        effects.push(AfkEffect::Log(AfkLog::SearchingCharacter));
                        (AfkPhase::OcrCheckingStop { window: info, attempt: 0 }, effects, AfkQuery::StopRequested)
                    } else {
                        effects.push(AfkEffect::SetState(AutomationState::AfkActive));
                        (AfkPhase::IdleWait, effects, AfkQuery::Sleep { secs: 5 })
                    }
                },
                AfkEvent::Window(None) => {
                    if !status.session_treated {
                        (
                            AfkPhase::Killing,
                            vec![
                                AfkEffect::ShowNoWindow,
                                AfkEffect::SetState(AutomationState::LaunchingFivem),
                                AfkEffect::Log(AfkLog::NoWindowLaunching),
                            ],
                            AfkQuery::KillProcesses,
                        )
                    } else {
                        (
                            AfkPhase::CrashWait,
                            vec![
                                AfkEffect::ShowNoWindow,
                                AfkEffect::SaveAfkTime,
                                AfkEffect::SetState(AutomationState::Reconnecting),
                                AfkEffect::Log(AfkLog::CrashDetected),
                                AfkEffect::RecordCrash,
                                AfkEffect::Notify(
                                    AfkAnnouncement::Crashed { reconnect: status.reconnect_count + 1 },
                                ),
                                AfkEffect::KillProcessesQuietly,
                                AfkEffect::Log(AfkLog::KilledBeforeRelaunch),
                            ],
                            AfkQuery::Sleep { secs: 60 },
                        )
                    }
                },
                _ => (AfkPhase::Done, Vec::new(), AfkQuery::Finished),
            },
            AfkPhase::OcrCheckingStop { window, attempt } => match event {
                AfkEvent::Stop(stop) => if stop {
                    (AfkPhase::Done, stop_with(AfkLog::StoppedByUser, status), AfkQuery::Finished)
                } else {
                    let query_window = window.duplicate();
                    (AfkPhase::Detecting { window, attempt }, Vec::new(), AfkQuery::DetectCharacter(query_window))
                },
                _ => (AfkPhase::Done, Vec::new(), AfkQuery::Finished),
            },
            AfkPhase::Detecting { window, attempt } => match event {
                AfkEvent::Detection(Ok((x, y, text))) => {
                    let hwnd = window.hwnd;
                    (
                        AfkPhase::Focusing,
                        vec![
                            AfkEffect::Log(AfkLog::CharacterDetected { text }),
                            AfkEffect::SetState(AutomationState::SelectingCharacter),
                            AfkEffect::ClickCharacter { x, y },
                            AfkEffect::Log(AfkLog::CharacterClicked),
                            AfkEffect::Pause { secs: 1 },
                            AfkEffect::ClickNext {
                                window_x: window.x,
                                window_y: window.y,
                                window_height: window.height,
                            },
                            AfkEffect::Log(AfkLog::NextClicked),
                            AfkEffect::Pause { secs: 2 },
                            AfkEffect::SetState(AutomationState::SendingKeys),
                        ],
                        AfkQuery::Focus { hwnd },
                    )
                },
                AfkEvent::Detection(Err(error)) => {
                    let effects = if attempt % 6 == 0 {
                        vec![
                            AfkEffect::Log(
                                AfkLog::OcrAttemptFailed {
                                    attempt: attempt + 1,
                                    max_attempts: OCR_MAX_ATTEMPTS,
                                    error,
                                },
                            ),
                        ]
                    } else {
                        Vec::new()
                    };
                    (AfkPhase::OcrRetryWait { window, attempt }, effects, AfkQuery::Sleep { secs: 5 })
                },
                _ => (AfkPhase::Done, Vec::new(), AfkQuery::Finished),
            },
            AfkPhase::OcrRetryWait { window, attempt } => match event {
                AfkEvent::Slept(stop) => if stop {
                    (AfkPhase::Done, stop_with(AfkLog::StoppedByUser, status), AfkQuery::Finished)
                } else if attempt + 1 < OCR_MAX_ATTEMPTS {
                    (
                        AfkPhase::OcrCheckingStop { window, attempt: attempt + 1 },
                        Vec::new(),
                        AfkQuery::StopRequested,
                    )
                } else {
                    (
                        AfkPhase::OcrTimeoutWait,
                        vec![AfkEffect::Log(AfkLog::OcrTimeout)],
                        AfkQuery::Sleep { secs: 5 },
                    )
                },
                _ => (AfkPhase::Done, Vec::new(), AfkQuery::Finished),
            },
            AfkPhase::OcrTimeoutWait => match event {
                AfkEvent::Slept(stop) => if stop {
                    (AfkPhase::Done, clean_stop_effects(status), AfkQuery::Finished)
                } else {
                    (AfkPhase::CheckingStop, Vec::new(), AfkQuery::StopRequested)
                },
                _ => (AfkPhase::Done, Vec::new(), AfkQuery::Finished),
            },
            AfkPhase::Focusing => match event {
                AfkEvent::Focused(outcome) => {
                    let mut effects = match outcome {
                        Ok(()) => Vec::new(),
                        Err(error) => vec![AfkEffect::Log(AfkLog::FocusFailed { error })],
                    };
                    let mut afk = vec![
                        AfkEffect::Pause { secs: 1 },
                        AfkEffect::SendAfkSequence,
                        AfkEffect::Log(AfkLog::AfkSequenceSent),
                        AfkEffect::BeginAfk,
                        AfkEffect::Log(AfkLog::AfkActive),
                        AfkEffect::Notify(
                            AfkAnnouncement::AfkStarted { character: self.character_name.clone() },
                        ),
                    ];
                    effects.append(&mut afk);
                    (AfkPhase::IdleWait, effects, AfkQuery::Sleep { secs: 5 })
                },
                _ => (AfkPhase::Done, Vec::new(), AfkQuery::Finished),
            },
            AfkPhase::Killing => match event {
                AfkEvent::Killed(outcome) => {
                    let effects = match outcome {
                        Ok(count) => if count > 0 {
                            vec![AfkEffect::Log(AfkLog::ProcessesKilled { count })]
                        } else {
                            Vec::new()
                        },
                        Err(error) => vec![AfkEffect::Log(AfkLog::KillFailed { error })],
                    };
                    (AfkPhase::PreLaunchWait, effects, AfkQuery::Sleep { secs: 5 })
                },
                _ => (AfkPhase::Done, Vec::new(), AfkQuery::Finished),
            },
            AfkPhase::PreLaunchWait => match event {
                AfkEvent::Slept(stop) => if stop {
                    (AfkPhase::Done, clean_stop_effects(status), AfkQuery::Finished)
                } else {
                    (AfkPhase::Launching, Vec::new(), AfkQuery::Launch)
                },
                _ => (AfkPhase::Done, Vec::new(), AfkQuery::Finished),
            },
            AfkPhase::Launching => match event {
                AfkEvent::Launched(Ok(())) => (
                    AfkPhase::StartupWait,
                    vec![AfkEffect::Log(AfkLog::Launched), AfkEffect::Log(AfkLog::WaitingForStartup)],
                    AfkQuery::Sleep { secs: 60 },
                ),
                AfkEvent::Launched(Err(error)) => (
                    AfkPhase::LaunchRetryWait,
                    vec![AfkEffect::Log(AfkLog::LaunchFailed { error })],
                    AfkQuery::Sleep { secs: 5 },
                ),
                _ => (AfkPhase::Done, Vec::new(), AfkQuery::Finished),
            },
            AfkPhase::LaunchRetryWait => match event {
                AfkEvent::Slept(stop) => if stop {
                    (AfkPhase::Done, clean_stop_effects(status), AfkQuery::Finished)
                } else {
                    (AfkPhase::CheckingStop, Vec::new(), AfkQuery::StopRequested)
                },
                _ => (AfkPhase::Done, Vec::new(), AfkQuery::Finished),
            },
            AfkPhase::StartupWait => match event {
                AfkEvent::Slept(stop) => if stop {
                    (AfkPhase::Done, stop_with(AfkLog::StoppedWhileWaiting, status), AfkQuery::Finished)
                } else {
                    (AfkPhase::IdleWait, Vec::new(), AfkQuery::Sleep { secs: 5 })
                },
                _ => (AfkPhase::Done, Vec::new(), AfkQuery::Finished),
            },
            AfkPhase::CrashWait => match event {
                AfkEvent::Slept(stop) => if stop {
                    (AfkPhase::Done, stop_with(AfkLog::StoppedWhileReconnecting, status), AfkQuery::Finished)
                } else {
                    (AfkPhase::Relaunching, Vec::new(), AfkQuery::Launch)
                },
                _ => (AfkPhase::Done, Vec::new(), AfkQuery::Finished),
            },
            AfkPhase::Relaunching => match event {
                AfkEvent::Launched(outcome) => {
                    let mut effects = match outcome {
                        Ok(()) => vec![AfkEffect::Log(AfkLog::Relaunched)],
                        Err(error) => vec![AfkEffect::Log(AfkLog::RelaunchFailed { error })],
                    };
                    effects.push(AfkEffect::Log(AfkLog::WaitingForRestart));
                    (AfkPhase::RestartWait, effects, AfkQuery::Sleep { secs: 60 })
                },
                _ => (AfkPhase::Done, Vec::new(), AfkQuery::Finished),
            },
            AfkPhase::RestartWait => match event {
                AfkEvent::Slept(stop) => if stop {
                    (AfkPhase::Done, stop_with(AfkLog::StoppedWhileWaiting, status), AfkQuery::Finished)
                } else {
                    (AfkPhase::IdleWait, Vec::new(), AfkQuery::Sleep { secs: 5 })
                },
                _ => (AfkPhase::Done, Vec::new(), AfkQuery::Finished),
            },
            AfkPhase::IdleWait => match event {
                AfkEvent::Slept(stop) => if stop {
                    (AfkPhase::Done, stop_with(AfkLog::StoppedByUser, status), AfkQuery::Finished)
                } else {
                    (AfkPhase::CheckingStop, Vec::new(), AfkQuery::StopRequested)
                },
                _ => (AfkPhase::Done, Vec::new(), AfkQuery::Finished),
            },
            AfkPhase::Done => (AfkPhase::Done, Vec::new(), AfkQuery::Finished),
        };
        self.phase = next;
        AfkStep { effects, query }
    }
}

/// The OCR attempt counter of a phase stays under the limit.
pub open spec fn afk_phase_ok(phase: AfkPhase) -> bool {
    match phase {
        AfkPhase::OcrCheckingStop { attempt, .. } | AfkPhase::Detecting { attempt, .. }
        | AfkPhase::OcrRetryWait { attempt, .. } => attempt < OCR_MAX_ATTEMPTS,
        _ => true,
    }
}

/// A stop request is always honoured: whenever the automation learns that a
/// stop was requested (at a stop check or during a sleep), it ends with the
/// clean exit, whose last effect leaves the status idle and not running.
pub proof fn afk_stop_request_ends_automation(
    phase: AfkPhase,
    name: String,
    status: AutomationStatus,
    event: AfkEvent,
)
    requires
        afk_step_ok(phase, status, event),
        event matches AfkEvent::Stop(true) || event matches AfkEvent::Slept(true),
    ensures
        afk_step(phase, name, status, event).0 is Done,
        afk_step(phase, name, status, event).2 is Finished,
        afk_step(phase, name, status, event).1.last() is Finish,
        afk_step(phase, name, status, event).1.contains(AfkEffect::SaveAfkTime),
{
    let effects = afk_step(phase, name, status, event).1;
    let cs = clean_stop(status);
    assert(cs.contains(AfkEffect::SaveAfkTime)) by {
        assert(cs[0] == AfkEffect::SaveAfkTime);
    }
    if effects != cs {
        assert(effects.len() == cs.len() + 1);
        assert(effects[1] == AfkEffect::SaveAfkTime);
    }
}

/// The automation only ends through the clean exit: any step that ends it has
/// `Finish` as its last effect, and saves the AFK time before.
pub proof fn afk_ends_only_through_clean_exit(
    phase: AfkPhase,
    name: String,
    status: AutomationStatus,
    event: AfkEvent,
)
    requires
        afk_step_ok(phase, status, event),
        afk_step(phase, name, status, event).0 is Done,
    ensures
        afk_step(phase, name, status, event).2 is Finished,
        afk_step(phase, name, status, event).1.last() is Finish,
        afk_step(phase, name, status, event).1.contains(AfkEffect::SaveAfkTime),
{
    let effects = afk_step(phase, name, status, event).1;
    let cs = clean_stop(status);
    assert(cs[0] == AfkEffect::SaveAfkTime);
    if effects != cs {
        assert(effects[1] == AfkEffect::SaveAfkTime);
    } else {
        assert(effects[0] == AfkEffect::SaveAfkTime);
    }
}

/// AFK mode is only recorded right after the AFK key sequence was sent, in the
/// same step: two effects before `BeginAfk` comes `SendAfkSequence`.
pub proof fn afk_mode_follows_key_sequence(
    phase: AfkPhase,
    name: String,
    status: AutomationStatus,
    event: AfkEvent,
    k: int,
)
    requires
        afk_step_ok(phase, status, event),
        0 <= k < afk_step(phase, name, status, event).1.len(),
        afk_step(phase, name, status, event).1[k] is BeginAfk,
    ensures
        k >= 2,
        afk_step(phase, name, status, event).1[k - 2] is SendAfkSequence,
        phase is Focusing,
{
}

/// A crash (the window gone after AFK mode was reached) is handled once: the
/// AFK time of the lost session is saved first, then the crash is recorded
/// (one more reconnection) and announced with its number, and the game is
/// killed before a 60 s wait. Once the crash is recorded, saving again adds
/// nothing, so the lost session is never counted twice.
pub proof fn afk_crash_is_counted_once(name: String, status: AutomationStatus, crash_time: String, now: i64)
    requires
        status.session_treated,
        status.reconnect_count < u32::MAX,
    ensures
        ({
            let (next, effects, query) = afk_step(
                AfkPhase::SearchingWindow,
                name,
                status,
                AfkEvent::Window(None),
            );
            &&& next is CrashWait
            &&& effects == seq![
                AfkEffect::ShowNoWindow,
                AfkEffect::SaveAfkTime,
                AfkEffect::SetState(AutomationState::Reconnecting),
                AfkEffect::Log(AfkLog::CrashDetected),
                AfkEffect::RecordCrash,
                AfkEffect::Notify(
                    AfkAnnouncement::Crashed { reconnect: (status.reconnect_count + 1) as u32 },
                ),
                AfkEffect::KillProcessesQuietly,
                AfkEffect::Log(AfkLog::KilledBeforeRelaunch),
            ]
            &&& query == AfkQuery::Sleep { secs: 60 }
        }),
        session_afk_seconds(
            AutomationStatus {
                reconnect_count: (status.reconnect_count + 1) as u32,
                last_crash_time: Some(crash_time),
                session_treated: false,
                ..status
            },
            now,
        ) is None,
{
}

/// The OCR attempt counter never reaches the limit: a step from a phase within
/// the limit leads to a phase within the limit. At most 60 attempts are made on
/// a window before the automation waits and starts over.
pub proof fn afk_attempts_stay_bounded(
    phase: AfkPhase,
    name: String,
    status: AutomationStatus,
    event: AfkEvent,
)
    requires
        afk_phase_ok(phase),
        afk_step_ok(phase, status, event),
    ensures
        afk_phase_ok(afk_step(phase, name, status, event).0),
{
}

/// What an effect does to the status when the desktop layer performs it, with
/// `now` the time written for `BeginAfk` and `RecordCrash` (the contracts of
/// `set_state`, `begin_afk`, `record_crash` and `finish`).
pub open spec fn afk_status_after(status: AutomationStatus, effect: AfkEffect, now: String) -> AutomationStatus {
    match effect {
        AfkEffect::SetState(state) => AutomationStatus { state, ..status },
        AfkEffect::BeginAfk => AutomationStatus {
            session_treated: true,
            state: AutomationState::AfkActive,
            afk_start_time: Some(now),
            ..status
        },
        AfkEffect::RecordCrash => AutomationStatus {
            reconnect_count: (status.reconnect_count + 1) as u32,
            last_crash_time: Some(now),
            session_treated: false,
            ..status
        },
        AfkEffect::Finish => AutomationStatus { state: AutomationState::Idle, running: false, ..status },
        _ => status,
    }
}

/// The status once the first `n` effects are performed.
pub open spec fn afk_status_through(status: AutomationStatus, effects: Seq<AfkEffect>, n: int, now: String) -> AutomationStatus
    decreases n,
{
    if n <= 0 {
        status
    } else {
        afk_status_after(afk_status_through(status, effects, n - 1, now), effects[n - 1], now)
    }
}

/// Effects that keep any consistent status consistent.
pub open spec fn afk_effect_keeps_consistency(effect: AfkEffect) -> bool {
    match effect {
        AfkEffect::SetState(state) => state != AutomationState::AfkActive,
        AfkEffect::RecordCrash => false,
        _ => true,
    }
}

proof fn lemma_safe_effects_keep_consistency(status: AutomationStatus, effects: Seq<AfkEffect>, n: int, now: String)
    requires
        status.afk_consistent(),
        0 <= n <= effects.len(),
        forall|i: int| 0 <= i < n ==> afk_effect_keeps_consistency(#[trigger] effects[i]),
    ensures
        afk_status_through(status, effects, n, now).afk_consistent(),
    decreases n,
{
    if n > 0 {
        lemma_safe_effects_keep_consistency(status, effects, n - 1, now);
        assert(afk_effect_keeps_consistency(effects[n - 1]));
    }
}

/// The status stays consistent (see `AutomationStatus::afk_consistent`): from
/// a consistent status, it is consistent after each effect of any step, not
/// only at the end. AFK mode is shown again only for a session that reached
/// it, and a crash first leaves AFK mode, then marks the session as lost.
pub proof fn afk_status_stays_consistent(
    phase: AfkPhase,
    name: String,
    status: AutomationStatus,
    event: AfkEvent,
    now: String,
)
    requires
        afk_step_ok(phase, status, event),
        status.afk_consistent(),
    ensures
        forall|n: int|
            0 <= n <= afk_step(phase, name, status, event).1.len() ==> #[trigger] afk_status_through(
                status,
                afk_step(phase, name, status, event).1,
                n,
                now,
            ).afk_consistent(),
{
    let effects = afk_step(phase, name, status, event).1;
    let len = effects.len() as int;
    if phase is SearchingWindow && status.session_treated {
        assert forall|n: int| 0 <= n <= len implies #[trigger] afk_status_through(
            status,
            effects,
            n,
            now,
        ).afk_consistent() by {
            reveal_with_fuel(afk_status_through, 9);
        }
    } else {
        assert forall|i: int| 0 <= i < len implies afk_effect_keeps_consistency(#[trigger] effects[i]) by {
            let e = effects[i];
            assert(afk_effect_keeps_consistency(e));
        }
        assert forall|n: int| 0 <= n <= len implies #[trigger] afk_status_through(
            status,
            effects,
            n,
            now,
        ).afk_consistent() by {
            lemma_safe_effects_keep_consistency(status, effects, n, now);
        }
    }
}

/// The way into AFK mode. Each turn starts with the window search, entered
/// from the stop check alone; the character search (state `WaitingOcr`) is
/// entered only from the window search of a session not yet in AFK mode, or
/// from a retry; the focus step only after the character was found, clicked
/// (state `SelectingCharacter`) and "Suivant" pressed (state `SendingKeys`);
/// and AFK mode is recorded only from the focus step, right after the key
/// sequence. AFK mode is shown without being recorded only for a session that
/// already reached it.
pub proof fn afk_way_to_afk_mode(phase: AfkPhase, name: String, status: AutomationStatus, event: AfkEvent)
    requires
        afk_step_ok(phase, status, event),
    ensures
        ({
            let (next, effects, query) = afk_step(phase, name, status, event);
            &&& next is SearchingWindow ==> phase is CheckingStop && effects == seq![
                AfkEffect::SetState(AutomationState::SearchingWindow),
            ]
            &&& next is OcrCheckingStop ==> (phase is SearchingWindow && !status.session_treated
                && effects.last() == AfkEffect::Log(AfkLog::SearchingCharacter) && effects[effects.len()
                - 2] == AfkEffect::SetState(AutomationState::WaitingOcr)) || phase is OcrRetryWait
            &&& next is Detecting ==> phase is OcrCheckingStop
            &&& next is Focusing ==> {
                &&& phase is Detecting
                &&& event matches AfkEvent::Detection(Ok(_))
                &&& effects[1] == AfkEffect::SetState(AutomationState::SelectingCharacter)
                &&& effects[2] is ClickCharacter
                &&& effects[5] is ClickNext
                &&& effects.last() == AfkEffect::SetState(AutomationState::SendingKeys)
            }
            &&& effects.contains(AfkEffect::BeginAfk) ==> phase is Focusing
            &&& effects.contains(AfkEffect::SetState(AutomationState::AfkActive)) ==> status.session_treated
        }),
{
    let (next, effects, query) = afk_step(phase, name, status, event);
    if effects.contains(AfkEffect::BeginAfk) {
        let k = choose|k: int| 0 <= k < effects.len() && effects[k] == AfkEffect::BeginAfk;
        afk_mode_follows_key_sequence(phase, name, status, event, k);
    }
    if effects.contains(AfkEffect::SetState(AutomationState::AfkActive)) {
        let k = choose|k: int| 0 <= k < effects.len() && effects[k] == AfkEffect::SetState(AutomationState::AfkActive);
        assert(effects[k] == AfkEffect::SetState(AutomationState::AfkActive));
    }
}

/// How many steps at most lie between a phase and the next reading of the
/// stop flag (a stop check or an interruptible sleep); at most two.
pub open spec fn afk_steps_to_stop_read(phase: AfkPhase) -> nat {
    match phase {
        AfkPhase::SearchingWindow | AfkPhase::Detecting { .. } => 2,
        AfkPhase::Begin | AfkPhase::Focusing | AfkPhase::Killing | AfkPhase::Launching
        | AfkPhase::Relaunching => 1,
        _ => 0,
    }
}

/// Whether an event leaves a stop request standing: a stop check and an
/// interruptible sleep both report the stop.
pub open spec fn afk_stop_kept(event: AfkEvent) -> bool {
    &&& event != AfkEvent::Stop(false)
    &&& event != AfkEvent::Slept(false)
}

/// Every step brings the next reading of the stop flag nearer: with a stop
/// request standing, a step either ends the automation or leads to a phase
/// closer to a reading of the flag.
pub proof fn afk_step_nears_stop_read(phase: AfkPhase, name: String, status: AutomationStatus, event: AfkEvent)
    requires
        afk_step_ok(phase, status, event),
        afk_stop_kept(event),
    ensures
        afk_step(phase, name, status, event).0 is Done || afk_steps_to_stop_read(
            afk_step(phase, name, status, event).0,
        ) < afk_steps_to_stop_read(phase),
{
}

/// The phase reached by answering the queries with `events` in order, the
/// status read at step `i` being `statuses[i]`; it stays put once the
/// automation is over.
pub open spec fn afk_run(phase: AfkPhase, name: String, statuses: Seq<AutomationStatus>, events: Seq<AfkEvent>) -> AfkPhase
    decreases events.len(),
{
    if events.len() == 0 || phase is Done {
        phase
    } else {
        afk_run(
            afk_step(phase, name, statuses[0], events[0]).0,
            name,
            statuses.drop_first(),
            events.drop_first(),
        )
    }
}

/// Whether each event of a run answers the query pending at its step.
pub open spec fn afk_run_ok(phase: AfkPhase, name: String, statuses: Seq<AutomationStatus>, events: Seq<AfkEvent>) -> bool
    decreases events.len(),
{
    events.len() == 0 || phase is Done || {
        &&& afk_step_ok(phase, statuses[0], events[0])
        &&& afk_run_ok(
            afk_step(phase, name, statuses[0], events[0]).0,
            name,
            statuses.drop_first(),
            events.drop_first(),
        )
    }
}

/// A stop request that stays set ends the automation within three steps,
/// whatever the window search, OCR, launches and focus report meanwhile.
pub proof fn afk_standing_stop_ends_automation(
    phase: AfkPhase,
    name: String,
    statuses: Seq<AutomationStatus>,
    events: Seq<AfkEvent>,
)
    requires
        statuses.len() == events.len(),
        events.len() > afk_steps_to_stop_read(phase),
        afk_run_ok(phase, name, statuses, events),
        forall|i: int| 0 <= i < events.len() ==> afk_stop_kept(#[trigger] events[i]),
    ensures
        afk_run(phase, name, statuses, events) is Done,
        afk_steps_to_stop_read(phase) <= 2,
    decreases events.len(),
{
    if !(phase is Done) {
        assert(afk_stop_kept(events[0]));
        afk_step_nears_stop_read(phase, name, statuses[0], events[0]);
        let next = afk_step(phase, name, statuses[0], events[0]).0;
        if !(next is Done) {
            let rest = events.drop_first();
            assert forall|i: int| 0 <= i < rest.len() implies afk_stop_kept(#[trigger] rest[i]) by {
                assert(rest[i] == events[i + 1]);
            }
            afk_standing_stop_ends_automation(next, name, statuses.drop_first(), rest);
        } else {
            assert(afk_run(next, name, statuses.drop_first(), events.drop_first()) is Done);
        }
    }
}

/// The OCR attempts on a window: a failed attempt waits 5 s before the next
/// one and is logged on attempts 1, 7, 13, ... (out of 60); after the 60th
/// failure the automation logs the timeout, waits 5 s and starts over.
pub proof fn afk_ocr_attempts(name: String, status: AutomationStatus, window: WindowInfo, attempt: u32, error: String)
    requires
        attempt < 60,
    ensures
        ({
            let (next, effects, query) = afk_step(
                AfkPhase::Detecting { window, attempt },
                name,
                status,
                AfkEvent::Detection(Err(error)),
            );
            &&& next == AfkPhase::OcrRetryWait { window, attempt }
            &&& query == AfkQuery::Sleep { secs: 5 }
            &&& attempt % 6 == 0 ==> effects == seq![
                AfkEffect::Log(AfkLog::OcrAttemptFailed { attempt: (attempt + 1) as u32, max_attempts: 60, error }),
            ]
            &&& attempt % 6 != 0 ==> effects.len() == 0
        }),
        ({
            let (next, effects, query) = afk_step(
                AfkPhase::OcrRetryWait { window, attempt },
                name,
                status,
                AfkEvent::Slept(false),
            );
            &&& attempt + 1 < 60 ==> next == AfkPhase::OcrCheckingStop { window, attempt: (attempt + 1) as u32 }
                && effects.len() == 0 && query == AfkQuery::StopRequested
            &&& attempt + 1 == 60 ==> next is OcrTimeoutWait && effects == seq![AfkEffect::Log(AfkLog::OcrTimeout)]
                && query == AfkQuery::Sleep { secs: 5 }
        }),
        afk_step(AfkPhase::OcrTimeoutWait, name, status, AfkEvent::Slept(false)).2 == AfkQuery::StopRequested,
{
}

/// Selecting the character: the click lands where the character was read,
/// one second later "Suivant" is clicked relative to the window's client area,
/// two seconds later the window is focused by its handle. After the focus, one
/// second, the AFK key sequence, AFK mode recorded, and the start announced
/// with the character's name; then a 5 s wait.
pub proof fn afk_selects_character_then_turns_afk_on(
    name: String,
    status: AutomationStatus,
    window: WindowInfo,
    attempt: u32,
    x: i32,
    y: i32,
    text: String,
    outcome: Result<(), String>,
)
    requires
        attempt < 60,
    ensures
        ({
            let (next, e, query) = afk_step(
                AfkPhase::Detecting { window, attempt },
                name,
                status,
                AfkEvent::Detection(Ok((x, y, text))),
            );
            &&& next is Focusing
            &&& e.len() == 9
            &&& e[2] == AfkEffect::ClickCharacter { x, y }
            &&& e[4] == AfkEffect::Pause { secs: 1 }
            &&& e[5] == AfkEffect::ClickNext {
                window_x: window.x,
                window_y: window.y,
                window_height: window.height,
            }
            &&& e[7] == AfkEffect::Pause { secs: 2 }
            &&& query == AfkQuery::Focus { hwnd: window.hwnd }
        }),
        ({
            let (next, e, query) = afk_step(AfkPhase::Focusing, name, status, AfkEvent::Focused(outcome));
            &&& next is IdleWait
            &&& query == AfkQuery::Sleep { secs: 5 }
            &&& e.len() >= 6
            &&& e.subrange(e.len() - 6, e.len() as int) == seq![
                AfkEffect::Pause { secs: 1 },
                AfkEffect::SendAfkSequence,
                AfkEffect::Log(AfkLog::AfkSequenceSent),
                AfkEffect::BeginAfk,
                AfkEffect::Log(AfkLog::AfkActive),
                AfkEffect::Notify(AfkAnnouncement::AfkStarted { character: name }),
            ]
        }),
{
    let e = afk_step(AfkPhase::Focusing, name, status, AfkEvent::Focused(outcome)).1;
    assert(e.subrange(e.len() - 6, e.len() as int) =~= seq![
        AfkEffect::Pause { secs: 1 },
        AfkEffect::SendAfkSequence,
        AfkEffect::Log(AfkLog::AfkSequenceSent),
        AfkEffect::BeginAfk,
        AfkEffect::Log(AfkLog::AfkActive),
        AfkEffect::Notify(AfkAnnouncement::AfkStarted { character: name }),
    ]);
}

/// Launching the game: with no window and no session, the game's processes
/// are killed, 5 s pass, the game is launched; after a launch 60 s are given
/// to start (5 s and a new turn when the launch failed). After a crash the
/// automation waits 60 s, relaunches, and waits 60 s more. Between two turns
/// it waits 5 s.
pub proof fn afk_launch_and_wait_times(
    name: String,
    status: AutomationStatus,
    killed: Result<u32, String>,
    launched: Result<(), String>,
    window: WindowInfo,
)
    ensures
        !status.session_treated ==> afk_step(AfkPhase::SearchingWindow, name, status, AfkEvent::Window(None)).2
            == AfkQuery::KillProcesses,
        afk_step(AfkPhase::Killing, name, status, AfkEvent::Killed(killed)).2 == (AfkQuery::Sleep { secs: 5 }),
        afk_step(AfkPhase::PreLaunchWait, name, status, AfkEvent::Slept(false)).2 == AfkQuery::Launch,
        launched is Ok ==> afk_step(AfkPhase::Launching, name, status, AfkEvent::Launched(launched)).2
            == (AfkQuery::Sleep { secs: 60 }),
        launched is Err ==> afk_step(AfkPhase::Launching, name, status, AfkEvent::Launched(launched)).2
            == (AfkQuery::Sleep { secs: 5 }),
        afk_step(AfkPhase::LaunchRetryWait, name, status, AfkEvent::Slept(false)).2 == AfkQuery::StopRequested,
        afk_step(AfkPhase::StartupWait, name, status, AfkEvent::Slept(false)).2 == (AfkQuery::Sleep { secs: 5 }),
        afk_step(AfkPhase::CrashWait, name, status, AfkEvent::Slept(false)).2 == AfkQuery::Launch,
        afk_step(AfkPhase::Relaunching, name, status, AfkEvent::Launched(launched)).2 == (AfkQuery::Sleep { secs: 60 }),
        afk_step(AfkPhase::RestartWait, name, status, AfkEvent::Slept(false)).2 == (AfkQuery::Sleep { secs: 5 }),
        afk_step(AfkPhase::IdleWait, name, status, AfkEvent::Slept(false)).2 == AfkQuery::StopRequested,
        status.session_treated ==> afk_step(AfkPhase::SearchingWindow, name, status, AfkEvent::Window(Some(window))).2
            == (AfkQuery::Sleep { secs: 5 }),
        !status.session_treated ==> afk_step(
            AfkPhase::SearchingWindow,
            name,
            status,
            AfkEvent::Window(Some(window)),
        ).0 == (AfkPhase::OcrCheckingStop { window, attempt: 0 }),
{
}

/// Stopping saves the AFK time first, announces the end of AFK mode exactly
/// when the session had reached it (and has a start time), and goes idle last.
pub proof fn afk_clean_stop_contents(status: AutomationStatus)
    ensures
        clean_stop(status)[0] == AfkEffect::SaveAfkTime,
        clean_stop(status).last() == AfkEffect::Finish,
        clean_stop(status).contains(AfkEffect::Notify(AfkAnnouncement::AfkStopped)) <==> (status.session_treated
            && status.afk_start_time is Some),
{
    let c = clean_stop(status);
    if !(status.session_treated && status.afk_start_time is Some) {
        assert(c.len() == 2);
        assert(c[0] != AfkEffect::Notify(AfkAnnouncement::AfkStopped));
        assert(c[1] != AfkEffect::Notify(AfkAnnouncement::AfkStopped));
    } else {
        assert(c[1] == AfkEffect::Notify(AfkAnnouncement::AfkStopped));
    }
}

} // verus!
