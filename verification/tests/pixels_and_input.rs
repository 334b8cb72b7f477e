use storylife_utils::input::{
    center_click, click_character, click_mouse, click_suivant, focus_window, focus_window_no_click, key_name,
    send_afk_sequence, send_key, send_key_extended, send_key_hold, send_key_press, InputAction,
    SC_D, SC_DOWN, SC_E, SC_ENTER, SC_F5, SC_Q, SC_S, SC_Z,
};
use storylife_utils::pixels::{capture_byte_count, crop_region, find_color_pixel, invert, swap_red_blue};

fn bgra(pixels: &[(u8, u8, u8)]) -> Vec<u8> {
    let mut v = Vec::new();
    for &(r, g, b) in pixels {
        v.extend_from_slice(&[b, g, r, 255]);
    }
    v
}

#[test]
fn finds_first_matching_pixel_and_counts() {
    // 3 x 2 zone, target red (255, 3, 14) with tolerance 30
    let px = bgra(&[
        (0, 0, 0), (10, 10, 10), (250, 20, 0),
        (255, 3, 14), (0, 0, 0), (240, 30, 40),
    ]);
    assert_eq!(find_color_pixel(&px, 3, 2, [255, 3, 14], 30), Some((2, 0, 3)));
    assert_eq!(find_color_pixel(&px, 3, 2, [255, 3, 14], 0), Some((0, 1, 1)));
    assert_eq!(find_color_pixel(&px, 3, 2, [0, 255, 0], 30), None);
    assert_eq!(find_color_pixel(&px, 0, 2, [0, 0, 0], 30), None);
    assert_eq!(find_color_pixel(&px, 3, -1, [0, 0, 0], 30), None);
}

#[test]
fn tolerance_edges() {
    let px = bgra(&[(100, 100, 100)]);
    assert_eq!(find_color_pixel(&px, 1, 1, [130, 70, 100], 30), Some((0, 0, 1)));
    assert_eq!(find_color_pixel(&px, 1, 1, [131, 100, 100], 30), None);
}

#[test]
fn capture_sizes() {
    assert_eq!(capture_byte_count(10, 5), Some(200));
    assert_eq!(capture_byte_count(0, 5), None);
    assert_eq!(capture_byte_count(10, -1), None);
}

#[test]
fn red_blue_swap_round_trips() {
    let orig = vec![1u8, 2, 3, 4, 5, 6, 7, 8, 9];
    let mut v = orig.clone();
    swap_red_blue(&mut v);
    assert_eq!(v, vec![3, 2, 1, 4, 7, 6, 5, 8, 9]);
    swap_red_blue(&mut v);
    assert_eq!(v, orig);
}

#[test]
fn invert_keeps_alpha_and_round_trips() {
    let orig = vec![0u8, 10, 255, 128, 1, 2, 3, 4];
    let inv = invert(&orig);
    assert_eq!(inv, vec![255, 245, 0, 128, 254, 253, 252, 4]);
    assert_eq!(invert(&inv), orig);
}

#[test]
fn crop_keeps_the_top_left_block() {
    // 3 x 2 image, pixel (x, y) has bytes [10y+x, 0, 0, 255]
    let mut img = Vec::new();
    for y in 0..2u8 {
        for x in 0..3u8 {
            img.extend_from_slice(&[10 * y + x, 0, 0, 255]);
        }
    }
    let (out, w, h) = crop_region(&img, 3, 2, 0, 0, 2, 5);
    assert_eq!((w, h), (2, 2));
    assert_eq!(out, vec![0, 0, 0, 255, 1, 0, 0, 255, 10, 0, 0, 255, 11, 0, 0, 255]);
    let (out, w, h) = crop_region(&img, 3, 2, 1, 1, 5, 5);
    assert_eq!((w, h), (2, 1));
    assert_eq!(out, vec![11, 0, 0, 255, 12, 0, 0, 255]);
    let (out, w, h) = crop_region(&img, 3, 2, 0, 0, 0, 0);
    assert_eq!((w, h, out.len()), (0, 0, 0));
}

#[test]
fn key_taps_hold_forty_milliseconds() {
    assert_eq!(
        send_key(SC_F5),
        vec![
            InputAction::KeyDown { scan_code: SC_F5, extended: false },
            InputAction::Pause { millis: 40 },
            InputAction::KeyUp { scan_code: SC_F5, extended: false },
        ]
    );
    assert_eq!(send_key_extended(SC_DOWN)[0], InputAction::KeyDown { scan_code: SC_DOWN, extended: true });
    assert_eq!(send_key_press(SC_E), send_key(SC_E));
    assert_eq!(send_key_hold(SC_Z, 100)[1], InputAction::Pause { millis: 100 });
}

#[test]
fn afk_sequence_walks_the_menu() {
    let seq = send_afk_sequence();
    assert_eq!(seq.len(), 39);
    let downs = seq
        .iter()
        .filter(|a| **a == InputAction::KeyDown { scan_code: SC_DOWN, extended: true })
        .count();
    assert_eq!(downs, 7);
    let enters = seq
        .iter()
        .filter(|a| **a == InputAction::KeyDown { scan_code: SC_ENTER, extended: false })
        .count();
    assert_eq!(enters, 2);
    assert_eq!(seq[0], InputAction::KeyDown { scan_code: SC_F5, extended: false });
    assert_eq!(seq[3], InputAction::Pause { millis: 800 });
    assert_eq!(seq[38], InputAction::KeyUp { scan_code: SC_ENTER, extended: false });
}

#[test]
fn clicks_land_where_asked() {
    assert_eq!(
        click_character(400, 300),
        vec![
            InputAction::MoveTo { x: 400, y: 300 },
            InputAction::Pause { millis: 50 },
            InputAction::LeftDownAt { x: 400, y: 300 },
            InputAction::Pause { millis: 40 },
            InputAction::LeftUpAt { x: 400, y: 300 },
        ]
    );
    assert_eq!(
        click_mouse(),
        vec![InputAction::LeftDown, InputAction::Pause { millis: 40 }, InputAction::LeftUp]
    );
    let next = click_suivant(100, 50, 720);
    assert_eq!(next[0], InputAction::Pause { millis: 1000 });
    assert_eq!(next[1], InputAction::MoveTo { x: 170, y: 720 });
}

#[test]
fn focusing_restores_then_raises() {
    let plan = focus_window(42, true);
    assert!(plan.click_center);
    assert_eq!(
        plan.actions,
        vec![
            InputAction::RestoreWindow { hwnd: 42 },
            InputAction::Pause { millis: 500 },
            InputAction::BringToFront { hwnd: 42 },
            InputAction::Pause { millis: 300 },
        ]
    );
    let plan = focus_window_no_click(42, false);
    assert!(!plan.click_center);
    assert_eq!(plan.actions.len(), 2);
    // centre of a window partly off screen to the left: (-101 + 100) / 2 == 0
    let c = center_click(Some((-101, 0, 100, 51)));
    assert_eq!(c[0], InputAction::MoveTo { x: 0, y: 25 });
    assert_eq!(c[5], InputAction::Pause { millis: 500 });
    assert!(center_click(None).is_empty());
}

#[test]
fn movement_key_names() {
    assert_eq!(key_name(SC_Z), "Z (avant)");
    assert_eq!(key_name(SC_Q), "Q (gauche)");
    assert_eq!(key_name(SC_S), "S (arrière)");
    assert_eq!(key_name(SC_D), "D (droite)");
    assert_eq!(key_name(SC_E), "?");
}
