//! The decisions of the gym ("muscu") bot: focus the game, take one random
//! step, press E to start the exercise, wait for the animation, repeat.
use vstd::prelude::*;
use rand::Rng;
use crate::afk::LogLevel;
use crate::input::{SC_D, SC_E, SC_Q, SC_S, SC_Z};
use crate::state::{MuscuStatus, WindowInfo};

verus! {

/// The movement keys, one of which is held before each exercise.
pub open spec fn movement_keys() -> Seq<u16> {
    seq![SC_Z, SC_Q, SC_S, SC_D]
}

/// The fixed part of the wait after pressing E, in milliseconds; with the
/// 100 ms step and the 500 ms pause it makes a cycle of about 77 s.
pub const EXERCISE_WAIT_MS: u64 = 76_400;

/// How long a movement key is held, in milliseconds.
pub const STEP_HOLD_MS: u64 = 100;

/// Calls `rand::rng().random_range(0..n)`: some number below `n`, drawn at random.
#[verifier::external_body]
fn random_below(n: u64) -> (r: u64)
    requires
        n > 0,
    ensures
        r < n,
{
    rand::rng().random_range(0..n)
}

/// The pieces an interruptible sleep of `total_ms` is cut into: as many 200 ms
/// pieces as fit, then the rest if there is any. A stop is checked before each.
pub open spec fn sleep_chunks(total_ms: u64) -> Seq<u64> {
    let whole = total_ms / 200;
    let rest = total_ms % 200;
    Seq::new(whole as nat, |i: int| 200u64) + if rest > 0 {
        seq![rest]
    } else {
        seq![]
    }
}

/// The pieces of an interruptible sleep of `total_ms` milliseconds.
pub fn sleep_chunks_ms(total_ms: u64) -> (r: Vec<u64>)
    ensures
        r@ == sleep_chunks(total_ms),
{
    let chunks = total_ms / 200;
    let remainder = total_ms % 200;
    let mut r: Vec<u64> = Vec::new();
    let mut i: u64 = 0;
    while i < chunks
        invariant
            i <= chunks,
            r@ == Seq::new(i as nat, |j: int| 200u64),
        decreases chunks - i,
    {
        r.push(200);
        i = i + 1;
        assert(r@ =~= Seq::new(i as nat, |j: int| 200u64));
    }
    if remainder > 0 {
        r.push(remainder);
    }
    assert(r@ =~= sleep_chunks(total_ms));
    r
}

/// The sum of some durations.
pub open spec fn total_of(s: Seq<u64>) -> int
    decreases s.len(),
{
    if s.len() == 0 {
        0
    } else {
        total_of(s.drop_last()) + s.last()
    }
}

proof fn lemma_total_of_append(a: Seq<u64>, b: Seq<u64>)
    ensures
        total_of(a + b) == total_of(a) + total_of(b),
    decreases b.len(),
{
    if b.len() > 0 {
        lemma_total_of_append(a, b.drop_last());
        assert((a + b).drop_last() =~= a + b.drop_last());
    } else {
        assert(a + b =~= a);
    }
}

proof fn lemma_total_of_twohundreds(n: nat)
    ensures
        total_of(Seq::new(n, |j: int| 200u64)) == 200 * n,
    decreases n,
{
    if n > 0 {
        lemma_total_of_twohundreds((n - 1) as nat);
        assert(Seq::new(n, |j: int| 200u64).drop_last() =~= Seq::new((n - 1) as nat, |j: int| 200u64));
    }
}

/// An uninterrupted sleep lasts exactly as asked, and the stop signal is
/// checked at least every 200 ms.
pub proof fn sleep_chunks_add_up(total_ms: u64)
    ensures
        total_of(sleep_chunks(total_ms)) == total_ms,
        forall|i: int| 0 <= i < sleep_chunks(total_ms).len() ==> 0 < #[trigger] sleep_chunks(total_ms)[i] <= 200,
{
    let whole = total_ms / 200;
    let rest = total_ms % 200;
    let a = Seq::new(whole as nat, |i: int| 200u64);
    let b: Seq<u64> = if rest > 0 { seq![rest] } else { seq![] };
    lemma_total_of_append(a, b);
    lemma_total_of_twohundreds(whole as nat);
    if rest > 0 {
        assert(b.drop_last() =~= Seq::<u64>::empty());
        assert(total_of(b.drop_last()) == 0);
        assert(b.last() == rest);
        assert(total_of(b) == rest);
    } else {
        assert(total_of(b) == 0);
    }
    assert(200 * whole + rest == total_ms) by (nonlinear_arith)
        requires
            whole == total_ms / 200,
            rest == total_ms % 200,
    ;
}

/// The lines the gym bot writes to its log.
#[derive(Debug)]
pub enum MuscuLog {
    Started,
    Focused,
    FocusFailed { error: String },
    WindowMissing,
    Movement { scan_code: u16 },
    InteractionPressed,
    WaitingForAnimation { millis: u64 },
    CycleDone { count: u32 },
    Stopped,
}

impl MuscuLog {
    /// The severity of the line.
    pub fn level(&self) -> (l: LogLevel)
        ensures
            l == muscu_log_level(*self),
    {
        match self {
            MuscuLog::FocusFailed { .. } | MuscuLog::WindowMissing => LogLevel::Warn,
            _ => LogLevel::Info,
        }
    }
}

/// Warnings for a failed focus and a missing window.
pub open spec fn muscu_log_level(l: MuscuLog) -> LogLevel {
    match l {
        MuscuLog::FocusFailed { .. } | MuscuLog::WindowMissing => LogLevel::Warn,
        _ => LogLevel::Info,
    }
}

/// What the gym bot announces on the webhook.
#[derive(Debug)]
pub enum MuscuAnnouncement {
    Started,
    Stopped { cycles: u32 },
}

/// Something the desktop layer does without answering.
#[derive(Debug)]
pub enum MuscuEffect {
    Log(MuscuLog),
    Notify(MuscuAnnouncement),
    /// Hold a key for some milliseconds (`send_key_hold`).
    HoldKey { scan_code: u16, millis: u64 },
    /// Tap a key (`send_key_press`).
    PressKey { scan_code: u16 },
    /// Count one more cycle in the status (`MuscuStatus::record_cycle`), publish.
    RecordCycle,
    /// Count one more cycle in the persistent totals (`record_muscu_cycle`), save them.
    SaveCycle,
    /// The bot has ended (`MuscuStatus::stop`), publish.
    Finish,
}

/// What the bot waits for after a step; each is answered by one event.
#[derive(Debug)]
pub enum MuscuQuery {
    /// Whether a stop was requested: answered by `Stop`.
    StopRequested,
    /// Look for the game window: answered by `Window`.
    FindWindow,
    /// Focus the game window without clicking: answered by `Focused`.
    Focus { hwnd: isize },
    /// Sleep in the pieces of `sleep_chunks_ms`, stopping early on a stop
    /// request: answered by `Slept`.
    Sleep { millis: u64 },
    /// Nothing more: the bot is over.
    Finished,
}

/// The answer to a query.
#[derive(Debug)]
pub enum MuscuEvent {
    /// The bot was just spawned.
    Start,
    Stop(bool),
    Window(Option<WindowInfo>),
    Focused(Result<(), String>),
    /// Whether a stop was requested during the sleep.
    Slept(bool),
}

/// Where the bot stands between two events.
#[derive(Debug)]
pub enum MuscuPhase {
    Begin,
    CheckingStop,
    FindingWindow,
    Focusing,
    NoWindowWait,
    SettleWait,
    ExerciseWait,
    Done,
}

/// Whether `event` answers what a bot in `phase` waits for, and a finished
/// cycle can still be counted.
pub open spec fn muscu_step_ok(phase: MuscuPhase, status: MuscuStatus, event: MuscuEvent) -> bool {
    match phase {
        MuscuPhase::Begin => event is Start,
        MuscuPhase::CheckingStop => event is Stop,
        MuscuPhase::FindingWindow => event is Window,
        MuscuPhase::Focusing => event is Focused,
        MuscuPhase::ExerciseWait => event is Slept && status.cycle_count < u32::MAX,
        MuscuPhase::Done => false,
        _ => event is Slept,
    }
}

/// The end of the bot: announce how many cycles it made, log, and stop.
pub open spec fn muscu_finish(status: MuscuStatus) -> Seq<MuscuEffect> {
    seq![
        MuscuEffect::Notify(MuscuAnnouncement::Stopped { cycles: status.cycle_count }),
        MuscuEffect::Log(MuscuLog::Stopped),
        MuscuEffect::Finish,
    ]
}

/// One step of the gym bot, given the two random draws it may use: which
/// movement key to hold (`key_index`, below 4) and how many milliseconds to add
/// to the exercise wait (`extra_ms`, below 1000).
pub open spec fn muscu_step(
    phase: MuscuPhase,
    status: MuscuStatus,
    event: MuscuEvent,
    key_index: int,
    extra_ms: int,
) -> (MuscuPhase, Seq<MuscuEffect>, MuscuQuery) {
    let finish = (MuscuPhase::Done, muscu_finish(status), MuscuQuery::Finished);
    match (phase, event) {
        (MuscuPhase::Begin, _) => (
            MuscuPhase::CheckingStop,
            seq![MuscuEffect::Log(MuscuLog::Started), MuscuEffect::Notify(MuscuAnnouncement::Started)],
            MuscuQuery::StopRequested,
        ),
        (MuscuPhase::CheckingStop, MuscuEvent::Stop(stop)) => if stop {
            finish
        } else {
            (MuscuPhase::FindingWindow, seq![], MuscuQuery::FindWindow)
        },
        (MuscuPhase::FindingWindow, MuscuEvent::Window(found)) => match found {
            Some(info) => (MuscuPhase::Focusing, seq![], MuscuQuery::Focus { hwnd: info.hwnd }),
            None => (
                MuscuPhase::NoWindowWait,
                seq![MuscuEffect::Log(MuscuLog::WindowMissing)],
                MuscuQuery::Sleep { millis: 5000 },
            ),
        },
        (MuscuPhase::NoWindowWait, MuscuEvent::Slept(stop)) => if stop {
            finish
        } else {
            (MuscuPhase::CheckingStop, seq![], MuscuQuery::StopRequested)
        },
        (MuscuPhase::Focusing, MuscuEvent::Focused(outcome)) => {
            let key = movement_keys()[key_index];
            (
                MuscuPhase::SettleWait,
                seq![
                    MuscuEffect::Log(
                        match outcome {
                            Ok(()) => MuscuLog::Focused,
                            Err(error) => MuscuLog::FocusFailed { error },
                        },
                    ),
                    MuscuEffect::HoldKey { scan_code: key, millis: STEP_HOLD_MS },
                    MuscuEffect::Log(MuscuLog::Movement { scan_code: key }),
                ],
                MuscuQuery::Sleep { millis: 500 },
            )
        },
        (MuscuPhase::SettleWait, MuscuEvent::Slept(stop)) => if stop {
            finish
        } else {
            let wait = (EXERCISE_WAIT_MS + extra_ms) as u64;
            (
                MuscuPhase::ExerciseWait,
                seq![
                    MuscuEffect::PressKey { scan_code: SC_E },
                    MuscuEffect::Log(MuscuLog::InteractionPressed),
                    MuscuEffect::Log(MuscuLog::WaitingForAnimation { millis: wait }),
                ],
                MuscuQuery::Sleep { millis: wait },
            )
        },
        (MuscuPhase::ExerciseWait, MuscuEvent::Slept(stop)) => if stop {
            finish
        } else {
            (
                MuscuPhase::CheckingStop,
                seq![
                    MuscuEffect::RecordCycle,
                    MuscuEffect::Log(MuscuLog::CycleDone { count: (status.cycle_count + 1) as u32 }),
                    MuscuEffect::SaveCycle,
                ],
                MuscuQuery::StopRequested,
            )
        },
        _ => (MuscuPhase::Done, seq![], MuscuQuery::Finished),
    }
}

/// The effects of one step and the query that follows them.
pub struct MuscuStep {
    pub effects: Vec<MuscuEffect>,
    pub query: MuscuQuery,
}

/// The gym bot between two events.
pub struct MuscuMachine {
    pub phase: MuscuPhase,
}

fn muscu_finish_effects(status: &MuscuStatus) -> (r: Vec<MuscuEffect>)
    ensures
        r@ == muscu_finish(*status),
{
    vec![
        MuscuEffect::Notify(MuscuAnnouncement::Stopped { cycles: status.cycle_count }),
        MuscuEffect::Log(MuscuLog::Stopped),
        MuscuEffect::Finish,
    ]
}

impl MuscuMachine {
    /// A bot about to run.
    pub fn new() -> (m: Self)
        ensures
            m.phase is Begin,
    {
        MuscuMachine { phase: MuscuPhase::Begin }
    }

    /// Whether the bot is over.
    pub fn is_done(&self) -> (b: bool)
        ensures
            b == self.phase is Done,
    {
        matches!(self.phase, MuscuPhase::Done)
    }

    /// The step taken with given draws: `key_index` picks the movement key and
    /// `extra_ms` lengthens the exercise wait.
    pub fn step_with(&mut self, status: &MuscuStatus, event: MuscuEvent, key_index: usize, extra_ms: u64) -> (r:
        MuscuStep)
        requires
            muscu_step_ok(old(self).phase, *status, event),
            key_index < 4,
            extra_ms < 1000,
        ensures
            (final(self).phase, r.effects@, r.query) == muscu_step(
                old(self).phase,
                *status,
                event,
                key_index as int,
                extra_ms as int,
            ),
    {
        let mut phase = MuscuPhase::Done;
        std::mem::swap(&mut phase, &mut self.phase);
        let (next, effects, query) = match phase {
            MuscuPhase::Begin => (
                MuscuPhase::CheckingStop,
                vec![MuscuEffect::Log(MuscuLog::Started), MuscuEffect::Notify(MuscuAnnouncement::Started)],
                MuscuQuery::StopRequested,
            ),
            MuscuPhase::CheckingStop => match event {
                MuscuEvent::Stop(stop) => if stop {
                    (MuscuPhase::Done, muscu_finish_effects(status), MuscuQuery::Finished)
                } else {
                    (MuscuPhase::FindingWindow, Vec::new(), MuscuQuery::FindWindow)
                },
                _ => (MuscuPhase::Done, Vec::new(), MuscuQuery::Finished),
            },
            MuscuPhase::FindingWindow => match event {
                MuscuEvent::Window(Some(info)) => (
                    MuscuPhase::Focusing,
                    Vec::new(),
                    MuscuQuery::Focus { hwnd: info.hwnd },
                ),
                MuscuEvent::Window(None) => (
                    MuscuPhase::NoWindowWait,
                    vec![MuscuEffect::Log(MuscuLog::WindowMissing)],
                    MuscuQuery::Sleep { millis: 5000 },
                ),
                _ => (MuscuPhase::Done, Vec::new(), MuscuQuery::Finished),
            },
            MuscuPhase::NoWindowWait => match event {
                MuscuEvent::Slept(stop) => if stop {
                    (MuscuPhase::Done, muscu_finish_effects(status), MuscuQuery::Finished)
                } else {
                    (MuscuPhase::CheckingStop, Vec::new(), MuscuQuery::StopRequested)
                },
                _ => (MuscuPhase::Done, Vec::new(), MuscuQuery::Finished),
            },
            MuscuPhase::Focusing => match event {
                MuscuEvent::Focused(outcome) => {
                    let keys = [SC_Z, SC_Q, SC_S, SC_D];
                    let key = keys[key_index];
                    assert(key == movement_keys()[key_index as int]);
                    let first = match outcome {
                        Ok(()) => MuscuLog::Focused,
                        Err(error) => MuscuLog::FocusFailed { error },
                    };
                    (
                        MuscuPhase::SettleWait,
                        vec![
                            MuscuEffect::Log(first),
                            MuscuEffect::HoldKey { scan_code: key, millis: STEP_HOLD_MS },
                            MuscuEffect::Log(MuscuLog::Movement { scan_code: key }),
                        ],
                        MuscuQuery::Sleep { millis: 500 },
                    )
                },
                _ => (MuscuPhase::Done, Vec::new(), MuscuQuery::Finished),
            },
            MuscuPhase::SettleWait => match event {
                MuscuEvent::Slept(stop) => if stop {
                    (MuscuPhase::Done, muscu_finish_effects(status), MuscuQuery::Finished)
                } else {
                    let wait = EXERCISE_WAIT_MS + extra_ms;
                    (
                        MuscuPhase::ExerciseWait,
                        vec![
                            MuscuEffect::PressKey { scan_code: SC_E },
                            MuscuEffect::Log(MuscuLog::InteractionPressed),
                            MuscuEffect::Log(MuscuLog::WaitingForAnimation { millis: wait }),
                        ],
                        MuscuQuery::Sleep { millis: wait },
                    )
                },
                _ => (MuscuPhase::Done, Vec::new(), MuscuQuery::Finished),
            },
            MuscuPhase::ExerciseWait => match event {
                MuscuEvent::Slept(stop) => if stop {
                    (MuscuPhase::Done, muscu_finish_effects(status), MuscuQuery::Finished)
                } else {
                    (
                        MuscuPhase::CheckingStop,
                        vec![
                            MuscuEffect::RecordCycle,
                            MuscuEffect::Log(MuscuLog::CycleDone { count: status.cycle_count + 1 }),
                            MuscuEffect::SaveCycle,
                        ],
                        MuscuQuery::StopRequested,
                    )
                },
                _ => (MuscuPhase::Done, Vec::new(), MuscuQuery::Finished),
            },
            MuscuPhase::Done => (MuscuPhase::Done, Vec::new(), MuscuQuery::Finished),
        };
        self.phase = next;
        MuscuStep { effects, query }
    }

    /// Takes the answer to the pending query and decides what comes next,
    /// drawing at random the movement key (one of four) and the extra exercise
    /// wait (under one second).
    pub fn step(&mut self, status: &MuscuStatus, event: MuscuEvent) -> (r: MuscuStep)
        requires
            muscu_step_ok(old(self).phase, *status, event),
        ensures
            exists|key_index: int, extra_ms: int|
                0 <= key_index < 4 && 0 <= extra_ms < 1000 && (final(self).phase, r.effects@, r.query)
                    == muscu_step(old(self).phase, *status, event, key_index, extra_ms),
    {
        let key_index = random_below(4) as usize;
        let extra_ms = random_below(1000);
        self.step_with(status, event, key_index, extra_ms)
    }
}

/// A stop request is always honoured: a stop seen at the check or during any
/// wait ends the bot, announcing its cycles, with `Finish` last.
pub proof fn muscu_stop_request_ends_bot(
    phase: MuscuPhase,
    status: MuscuStatus,
    event: MuscuEvent,
    key_index: int,
    extra_ms: int,
)
    requires
        muscu_step_ok(phase, status, event),
        event matches MuscuEvent::Stop(true) || event matches MuscuEvent::Slept(true),
    ensures
        muscu_step(phase, status, event, key_index, extra_ms).0 is Done,
        muscu_step(phase, status, event, key_index, extra_ms).1 == muscu_finish(status),
        muscu_step(phase, status, event, key_index, extra_ms).2 is Finished,
{
}

/// The exercise cycle lasts about 77 seconds: after E is pressed the bot waits
/// between 76.4 s and 77.4 s (exclusive) before counting the cycle.
pub proof fn muscu_exercise_wait_bounds(status: MuscuStatus, key_index: int, extra_ms: int)
    requires
        0 <= extra_ms < 1000,
    ensures
        muscu_step(MuscuPhase::SettleWait, status, MuscuEvent::Slept(false), key_index, extra_ms).2 matches MuscuQuery::Sleep { millis } && 76_400 <= millis < 77_400,
        muscu_step(MuscuPhase::SettleWait, status, MuscuEvent::Slept(false), key_index, extra_ms).1[0]
            == (MuscuEffect::PressKey { scan_code: SC_E }),
{
}

/// Each completed exercise counts exactly one cycle: once in the status, then
/// the log line with the new count, then once in the persistent totals. The
/// step held before it uses one of the four movement keys for 100 ms.
pub proof fn muscu_cycle_counted_once(status: MuscuStatus, key_index: int, extra_ms: int)
    requires
        status.cycle_count < u32::MAX,
        0 <= key_index < 4,
    ensures
        muscu_step(MuscuPhase::ExerciseWait, status, MuscuEvent::Slept(false), key_index, extra_ms).1
            == seq![
            MuscuEffect::RecordCycle,
            MuscuEffect::Log(MuscuLog::CycleDone { count: (status.cycle_count + 1) as u32 }),
            MuscuEffect::SaveCycle,
        ],
        movement_keys().contains(
            match muscu_step(MuscuPhase::Focusing, status, MuscuEvent::Focused(Ok(())), key_index, extra_ms).1[1] {
                MuscuEffect::HoldKey { scan_code, millis } => scan_code,
                _ => 0u16,
            },
        ),
{
    assert(movement_keys()[key_index] == movement_keys()[key_index]);
}

/// Without the game window the cycle is skipped: a missing window is logged,
/// the bot waits 5 s and goes back to the stop check, with no focus and no
/// key. The bot only focuses a window that the search reported, by its handle,
/// holds a movement key only once that focus is answered, and presses E only
/// after the settling wait that follows.
pub proof fn muscu_missing_window_skips_cycle(
    phase: MuscuPhase,
    status: MuscuStatus,
    event: MuscuEvent,
    key_index: int,
    extra_ms: int,
)
    requires
        muscu_step_ok(phase, status, event),
        0 <= key_index < 4,
    ensures
        ({
            let (next, effects, query) = muscu_step(phase, status, event, key_index, extra_ms);
            &&& event == MuscuEvent::Window(None) ==> {
                &&& effects == seq![MuscuEffect::Log(MuscuLog::WindowMissing)]
                &&& query == MuscuQuery::Sleep { millis: 5000 }
                &&& next is NoWindowWait
            }
            &&& (phase is NoWindowWait && event == MuscuEvent::Slept(false)) ==> {
                &&& effects.len() == 0
                &&& query == MuscuQuery::StopRequested
                &&& next is CheckingStop
            }
            &&& (query matches MuscuQuery::Focus { hwnd } ==> (event matches MuscuEvent::Window(Some(info))
                && info.hwnd == hwnd))
            &&& (next is Focusing ==> event matches MuscuEvent::Window(Some(_)))
            &&& forall|k: int|
                0 <= k < effects.len() ==> (#[trigger] effects[k] is HoldKey ==> phase is Focusing
                    && event is Focused) && (effects[k] is PressKey ==> phase is SettleWait)
        }),
{
}

/// The gym cycle's keys and times: once the focus is answered, one of Z, Q, S
/// and D (scan codes 0x11, 0x10, 0x1F, 0x20, picked by the draw) is held
/// 100 ms, then 500 ms pass; then E (0x12) is pressed and the bot waits
/// between 76.4 s and 77.4 s (76 400 ms plus the draw below one second).
pub proof fn muscu_cycle_keys_and_times(status: MuscuStatus, outcome: Result<(), String>, key_index: int, extra_ms: int)
    requires
        0 <= key_index < 4,
        0 <= extra_ms < 1000,
    ensures
        ({
            let (next, e, query) = muscu_step(MuscuPhase::Focusing, status, MuscuEvent::Focused(outcome), key_index, extra_ms);
            &&& next is SettleWait
            &&& query == (MuscuQuery::Sleep { millis: 500 })
            &&& e[1] == MuscuEffect::HoldKey {
                scan_code: if key_index == 0 {
                    0x11u16
                } else if key_index == 1 {
                    0x10u16
                } else if key_index == 2 {
                    0x1Fu16
                } else {
                    0x20u16
                },
                millis: 100,
            }
        }),
        ({
            let (next, e, query) = muscu_step(MuscuPhase::SettleWait, status, MuscuEvent::Slept(false), key_index, extra_ms);
            &&& next is ExerciseWait
            &&& e[0] == (MuscuEffect::PressKey { scan_code: 0x12 })
            &&& query == (MuscuQuery::Sleep { millis: (76_400 + extra_ms) as u64 })
        }),
{
}

} // verus!
