//! Simulated input as plans: the key taps, clicks and waits that the desktop
//! layer carries out in order.
use vstd::prelude::*;

verus! {

/// Scan code of F5, which opens the in-game menu.
pub const SC_F5: u16 = 0x3F;
/// Scan code of the down arrow (an extended key).
pub const SC_DOWN: u16 = 0x50;
/// Scan code of Enter.
pub const SC_ENTER: u16 = 0x1C;
/// Scan code of the key in the W position of QWERTY (Z on AZERTY): forward.
pub const SC_Z: u16 = 0x11;
/// Scan code of the key in the A position of QWERTY (Q on AZERTY): left.
pub const SC_Q: u16 = 0x10;
/// Scan code of S: backward.
pub const SC_S: u16 = 0x1F;
/// Scan code of D: right.
pub const SC_D: u16 = 0x20;
/// Scan code of E: interaction.
pub const SC_E: u16 = 0x12;

/// One step of simulated input, carried out in order by the desktop layer.
/// Mouse positions are screen coordinates.
#[derive(Clone, Copy, Debug, PartialEq, Eq, Structural)]
pub enum InputAction {
    /// Press a key, given by scan code; `extended` for arrows and the like.
    KeyDown { scan_code: u16, extended: bool },
    /// Release a key.
    KeyUp { scan_code: u16, extended: bool },
    /// Wait.
    Pause { millis: u64 },
    /// Move the mouse pointer to a screen position.
    MoveTo { x: i32, y: i32 },
    /// Press the left button at a screen position.
    LeftDownAt { x: i32, y: i32 },
    /// Release the left button at a screen position.
    LeftUpAt { x: i32, y: i32 },
    /// Press the left button where the pointer is.
    LeftDown,
    /// Release the left button where the pointer is.
    LeftUp,
    /// Restore a minimised window.
    RestoreWindow { hwnd: isize },
    /// Bring a window to the foreground.
    BringToFront { hwnd: isize },
}

/// A key held for `hold_ms` milliseconds: press, wait, release.
pub open spec fn key_hold_plan(scan_code: u16, extended: bool, hold_ms: u64) -> Seq<InputAction> {
    seq![
        InputAction::KeyDown { scan_code, extended },
        InputAction::Pause { millis: hold_ms },
        InputAction::KeyUp { scan_code, extended },
    ]
}

/// A key tap: held 40 ms so the game registers it.
pub open spec fn key_tap_plan(scan_code: u16, extended: bool) -> Seq<InputAction> {
    key_hold_plan(scan_code, extended, 40)
}

/// A left click at a screen position: move there, wait 50 ms, press, hold 40 ms,
/// release.
pub open spec fn click_plan(x: i32, y: i32) -> Seq<InputAction> {
    seq![
        InputAction::MoveTo { x, y },
        InputAction::Pause { millis: 50 },
        InputAction::LeftDownAt { x, y },
        InputAction::Pause { millis: 40 },
        InputAction::LeftUpAt { x, y },
    ]
}

/// `s` repeated `n` times.
pub open spec fn repeated(s: Seq<InputAction>, n: nat) -> Seq<InputAction>
    decreases n,
{
    if n == 0 {
        seq![]
    } else {
        repeated(s, (n - 1) as nat) + s
    }
}

/// The menu walk that turns AFK mode on: F5, wait 800 ms, four taps on the
/// down arrow 300 ms apart, Enter, wait 800 ms, three more taps on the down
/// arrow, Enter.
pub open spec fn afk_sequence_plan() -> Seq<InputAction> {
    let down = key_tap_plan(SC_DOWN, true) + seq![InputAction::Pause { millis: 300 }];
    key_tap_plan(SC_F5, false) + seq![InputAction::Pause { millis: 800 }] + repeated(down, 4)
        + key_tap_plan(SC_ENTER, false) + seq![InputAction::Pause { millis: 800 }] + repeated(
        down,
        3,
    ) + key_tap_plan(SC_ENTER, false)
}

fn key_hold_actions(scan_code: u16, extended: bool, hold_ms: u64) -> (r: Vec<InputAction>)
    ensures
        r@ == key_hold_plan(scan_code, extended, hold_ms),
{
    vec![
        InputAction::KeyDown { scan_code, extended },
        InputAction::Pause { millis: hold_ms },
        InputAction::KeyUp { scan_code, extended },
    ]
}

/// A tap on a regular key: pressed and released in two separate steps, 40 ms
/// apart, so that the game sees the key held.
pub fn send_key(scan_code: u16) -> (r: Vec<InputAction>)
    ensures
        r@ == key_tap_plan(scan_code, false),
{
    key_hold_actions(scan_code, false, 40)
}

/// A tap on an extended key (arrows, Home, End, Insert, Delete, page keys).
pub fn send_key_extended(scan_code: u16) -> (r: Vec<InputAction>)
    ensures
        r@ == key_tap_plan(scan_code, true),
{
    key_hold_actions(scan_code, true, 40)
}

/// A quick key press (down, 40 ms, up), as the gym bot uses for E.
pub fn send_key_press(scan_code: u16) -> (r: Vec<InputAction>)
    ensures
        r@ == key_tap_plan(scan_code, false),
{
    key_hold_actions(scan_code, false, 40)
}

/// A key held for `hold_ms` milliseconds, then released.
pub fn send_key_hold(scan_code: u16, hold_ms: u64) -> (r: Vec<InputAction>)
    ensures
        r@ == key_hold_plan(scan_code, false, hold_ms),
{
    key_hold_actions(scan_code, false, hold_ms)
}

/// A left click at a screen position.
pub fn click_at(x: i32, y: i32) -> (r: Vec<InputAction>)
    ensures
        r@ == click_plan(x, y),
{
    vec![
        InputAction::MoveTo { x, y },
        InputAction::Pause { millis: 50 },
        InputAction::LeftDownAt { x, y },
        InputAction::Pause { millis: 40 },
        InputAction::LeftUpAt { x, y },
    ]
}

/// A left click where the pointer already is: press, hold 40 ms, release.
pub fn click_mouse() -> (r: Vec<InputAction>)
    ensures
        r@ == seq![InputAction::LeftDown, InputAction::Pause { millis: 40 }, InputAction::LeftUp],
{
    vec![InputAction::LeftDown, InputAction::Pause { millis: 40 }, InputAction::LeftUp]
}

/// A click on the character's name, at screen coordinates.
pub fn click_character(screen_x: i32, screen_y: i32) -> (r: Vec<InputAction>)
    ensures
        r@ == click_plan(screen_x, screen_y),
{
    click_at(screen_x, screen_y)
}

/// Where the "Suivant" (next) button sits: 70 pixels right of the window's left
/// edge and 50 pixels above its bottom edge.
pub open spec fn suivant_position(window_x: i32, window_y: i32, window_height: i32) -> (int, int) {
    (window_x + 70, window_y + window_height - 50)
}

/// The screen position of the "Suivant" button of a window's client area.
pub fn suivant_button(window_x: i32, window_y: i32, window_height: i32) -> (r: (i32, i32))
    requires
        window_x + 70 <= i32::MAX,
        i32::MIN <= window_y + window_height <= i32::MAX,
        i32::MIN <= window_y + window_height - 50,
    ensures
        r.0 == suivant_position(window_x, window_y, window_height).0,
        r.1 == suivant_position(window_x, window_y, window_height).1,
{
    (window_x + 70, window_y + window_height - 50)
}

/// Wait one second, then click the "Suivant" button of the character screen.
pub fn click_suivant(window_x: i32, window_y: i32, window_height: i32) -> (r: Vec<InputAction>)
    requires
        window_x + 70 <= i32::MAX,
        i32::MIN <= window_y + window_height <= i32::MAX,
        i32::MIN <= window_y + window_height - 50,
    ensures
        r@ == seq![InputAction::Pause { millis: 1000 }] + click_plan(
            suivant_position(window_x, window_y, window_height).0 as i32,
            suivant_position(window_x, window_y, window_height).1 as i32,
        ),
{
    let (btn_x, btn_y) = suivant_button(window_x, window_y, window_height);
    let mut r = vec![InputAction::Pause { millis: 1000 }];
    let mut click = click_at(btn_x, btn_y);
    r.append(&mut click);
    r
}

fn push_all(v: &mut Vec<InputAction>, w: Vec<InputAction>)
    ensures
        final(v)@ == old(v)@ + w@,
{
    let mut w = w;
    v.append(&mut w);
}

/// The key sequence that turns AFK mode on in the game menu (scan codes, with
/// the extended flag on the arrows for DirectInput).
pub fn send_afk_sequence() -> (r: Vec<InputAction>)
    ensures
        r@ == afk_sequence_plan(),
{
    let ghost down = key_tap_plan(SC_DOWN, true) + seq![InputAction::Pause { millis: 300 }];
    let mut r = send_key(SC_F5);
    r.push(InputAction::Pause { millis: 800 });
    let ghost head = r@;
    let mut i: u32 = 0;
    while i < 4
        invariant
            i <= 4,
            down == key_tap_plan(SC_DOWN, true) + seq![InputAction::Pause { millis: 300 }],
            r@ == head + repeated(down, i as nat),
        decreases 4 - i,
    {
        let ghost before = r@;
        push_all(&mut r, send_key_extended(SC_DOWN));
        r.push(InputAction::Pause { millis: 300 });
        assert(r@ =~= before + down);
        i = i + 1;
        proof {
            assert(repeated(down, i as nat) == repeated(down, (i - 1) as nat) + down);
            assert(head + repeated(down, i as nat) =~= (head + repeated(down, (i - 1) as nat)) + down);
            assert(r@ =~= head + repeated(down, i as nat));
        }
    }
    push_all(&mut r, send_key(SC_ENTER));
    r.push(InputAction::Pause { millis: 800 });
    let ghost mid = r@;
    let mut j: u32 = 0;
    while j < 3
        invariant
            j <= 3,
            down == key_tap_plan(SC_DOWN, true) + seq![InputAction::Pause { millis: 300 }],
            r@ == mid + repeated(down, j as nat),
        decreases 3 - j,
    {
        let ghost before = r@;
        push_all(&mut r, send_key_extended(SC_DOWN));
        r.push(InputAction::Pause { millis: 300 });
        assert(r@ =~= before + down);
        j = j + 1;
        proof {
            assert(repeated(down, j as nat) == repeated(down, (j - 1) as nat) + down);
            assert(mid + repeated(down, j as nat) =~= (mid + repeated(down, (j - 1) as nat)) + down);
            assert(r@ =~= mid + repeated(down, j as nat));
        }
    }
    push_all(&mut r, send_key(SC_ENTER));
    assert(r@ =~= afk_sequence_plan());
    r
}

/// What focusing a window takes: restore it first if it is minimised (then
/// wait 500 ms), bring it to the front, wait 300 ms. `click_center` says whether
/// a click in the middle of the window follows, to grab input focus.
pub struct FocusPlan {
    pub actions: Vec<InputAction>,
    pub click_center: bool,
}

/// The restore and foreground steps shared by both ways of focusing.
pub open spec fn focus_plan(hwnd: isize, minimized: bool) -> Seq<InputAction> {
    let front = seq![InputAction::BringToFront { hwnd }, InputAction::Pause { millis: 300 }];
    if minimized {
        seq![InputAction::RestoreWindow { hwnd }, InputAction::Pause { millis: 500 }] + front
    } else {
        front
    }
}

fn focus_actions(hwnd_val: isize, minimized: bool) -> (r: Vec<InputAction>)
    ensures
        r@ == focus_plan(hwnd_val, minimized),
{
    let mut r: Vec<InputAction> = Vec::new();
    if minimized {
        r.push(InputAction::RestoreWindow { hwnd: hwnd_val });
        r.push(InputAction::Pause { millis: 500 });
    }
    r.push(InputAction::BringToFront { hwnd: hwnd_val });
    r.push(InputAction::Pause { millis: 300 });
    assert(r@ =~= focus_plan(hwnd_val, minimized));
    r
}

/// Focus the game window, then click its centre to grab input focus.
/// `minimized` is whether the window is iconic at the time.
pub fn focus_window(hwnd_val: isize, minimized: bool) -> (r: FocusPlan)
    ensures
        r.actions@ == focus_plan(hwnd_val, minimized),
        r.click_center,
{
    FocusPlan { actions: focus_actions(hwnd_val, minimized), click_center: true }
}

/// Focus the game window without clicking (restore and foreground only).
pub fn focus_window_no_click(hwnd_val: isize, minimized: bool) -> (r: FocusPlan)
    ensures
        r.actions@ == focus_plan(hwnd_val, minimized),
        !r.click_center,
{
    FocusPlan { actions: focus_actions(hwnd_val, minimized), click_center: false }
}

/// Half of `v`, rounded toward zero as integer division does.
pub open spec fn half_toward_zero(v: int) -> int {
    if v >= 0 {
        v / 2
    } else {
        -((-v) / 2)
    }
}

/// The click in the middle of a window whose outer rectangle is known, followed
/// by a 500 ms wait; nothing when the rectangle could not be read.
pub fn center_click(rect: Option<(i32, i32, i32, i32)>) -> (r: Vec<InputAction>)
    requires
        rect matches Some((left, top, right, bottom)) ==> i32::MIN <= left + right <= i32::MAX
            && i32::MIN <= top + bottom <= i32::MAX,
    ensures
        rect is None ==> r@.len() == 0,
        rect matches Some((left, top, right, bottom)) ==> r@ == click_plan(
            half_toward_zero(left + right) as i32,
            half_toward_zero(top + bottom) as i32,
        ) + seq![InputAction::Pause { millis: 500 }],
{
    match rect {
        None => Vec::new(),
        Some((left, top, right, bottom)) => {
            let cx = (left + right) / 2;
            let cy = (top + bottom) / 2;
            let mut r = click_at(cx, cy);
            r.push(InputAction::Pause { millis: 500 });
            r
        },
    }
}

/// The name logged for each movement key of the gym bot.
pub fn key_name(scan_code: u16) -> (r: &'static str)
    ensures
        r@ == if scan_code == SC_Z {
            "Z (avant)"@
        } else if scan_code == SC_Q {
            "Q (gauche)"@
        } else if scan_code == SC_S {
            "S (arri\u{e8}re)"@
        } else if scan_code == SC_D {
            "D (droite)"@
        } else {
            "?"@
        },
{
    if scan_code == SC_Z {
        "Z (avant)"
    } else if scan_code == SC_Q {
        "Q (gauche)"
    } else if scan_code == SC_S {
        "S (arri\u{e8}re)"
    } else if scan_code == SC_D {
        "D (droite)"
    } else {
        "?"
    }
}

/// The AFK key sequence, step by step: the F5 tap (scan code 0x3F) and 800 ms;
/// exactly four taps on the down arrow (0x50, extended), each followed by
/// 300 ms; the Enter tap (0x1C) and 800 ms; exactly three more down-arrow taps;
/// the final Enter tap. Every tap holds its key 40 ms. 39 actions in all.
pub proof fn afk_sequence_walks_four_then_three()
    ensures
        ({
            let r = afk_sequence_plan();
            let tap = |k: int, code: u16, ext: bool|
                r[k] == InputAction::KeyDown { scan_code: code, extended: ext } && r[k + 1]
                    == InputAction::Pause { millis: 40 } && r[k + 2] == InputAction::KeyUp {
                    scan_code: code,
                    extended: ext,
                };
            &&& r.len() == 39
            &&& tap(0, 0x3F, false)
            &&& r[3] == InputAction::Pause { millis: 800 }
            &&& forall|i: int|
                0 <= i < 4 ==> #[trigger] tap(4 + 4 * i, 0x50, true) && r[7 + 4 * i]
                    == InputAction::Pause { millis: 300 }
            &&& tap(20, 0x1C, false)
            &&& r[23] == InputAction::Pause { millis: 800 }
            &&& forall|i: int|
                0 <= i < 3 ==> #[trigger] tap(24 + 4 * i, 0x50, true) && r[27 + 4 * i]
                    == InputAction::Pause { millis: 300 }
            &&& tap(36, 0x1C, false)
        }),
{
    reveal_with_fuel(repeated, 5);
    let r = afk_sequence_plan();
    let down = key_tap_plan(SC_DOWN, true) + seq![InputAction::Pause { millis: 300 }];
    assert(repeated(down, 4) =~= down + down + down + down);
    assert(repeated(down, 3) =~= down + down + down);
    assert(r =~= key_tap_plan(SC_F5, false) + seq![InputAction::Pause { millis: 800 }] + down + down + down
        + down + key_tap_plan(SC_ENTER, false) + seq![InputAction::Pause { millis: 800 }] + down + down
        + down + key_tap_plan(SC_ENTER, false));
}

/// The input plans with their times: a key tap holds the key 40 ms; a click
/// moves to the point, waits 50 ms, presses, holds 40 ms and releases at the
/// same point; "Suivant" sits 70 px right of the window's left edge and 50 px
/// above its bottom edge; focusing restores a minimised window and waits
/// 500 ms, then brings it to the front and waits 300 ms.
pub proof fn input_plan_times(code: u16, ext: bool, x: i32, y: i32, wx: i32, wy: i32, wh: i32, hwnd: isize, minimized: bool)
    ensures
        key_tap_plan(code, ext) == seq![
            InputAction::KeyDown { scan_code: code, extended: ext },
            InputAction::Pause { millis: 40 },
            InputAction::KeyUp { scan_code: code, extended: ext },
        ],
        click_plan(x, y) == seq![
            InputAction::MoveTo { x, y },
            InputAction::Pause { millis: 50 },
            InputAction::LeftDownAt { x, y },
            InputAction::Pause { millis: 40 },
            InputAction::LeftUpAt { x, y },
        ],
        suivant_position(wx, wy, wh) == (wx + 70, wy + wh - 50),
        minimized ==> focus_plan(hwnd, minimized) == seq![
            InputAction::RestoreWindow { hwnd },
            InputAction::Pause { millis: 500 },
            InputAction::BringToFront { hwnd },
            InputAction::Pause { millis: 300 },
        ],
        !minimized ==> focus_plan(hwnd, minimized) == seq![
            InputAction::BringToFront { hwnd },
            InputAction::Pause { millis: 300 },
        ],
{
    assert(focus_plan(hwnd, true) =~= seq![
        InputAction::RestoreWindow { hwnd },
        InputAction::Pause { millis: 500 },
        InputAction::BringToFront { hwnd },
        InputAction::Pause { millis: 300 },
    ]);
}

/// Holding a key: press, wait the asked time, release; a tap is a 40 ms hold.
pub proof fn key_hold_times(code: u16, ext: bool, hold_ms: u64)
    ensures
        key_hold_plan(code, ext, hold_ms) == seq![
            InputAction::KeyDown { scan_code: code, extended: ext },
            InputAction::Pause { millis: hold_ms },
            InputAction::KeyUp { scan_code: code, extended: ext },
        ],
{
}

} // verus!
