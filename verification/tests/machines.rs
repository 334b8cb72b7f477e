use storylife_utils::afk::{AfkEffect, AfkEvent, AfkLog, AfkMachine, AfkQuery, LogLevel};
use storylife_utils::mining::{
    is_key_just_pressed, register_escape, MiningEffect, MiningEvent, MiningMachine, MiningQuery,
};
use storylife_utils::muscu::{sleep_chunks_ms, MuscuEffect, MuscuEvent, MuscuLog, MuscuMachine, MuscuQuery};
use storylife_utils::state::{AutomationStatus, MiningStatus, MuscuStatus, WindowInfo};

fn window() -> WindowInfo {
    WindowInfo {
        found: true,
        title: "StoryLife - FiveM".to_string(),
        x: 10,
        y: 20,
        width: 1280,
        height: 720,
        hwnd: 77,
    }
}

#[test]
fn afk_full_session_then_crash() {
    let mut status = AutomationStatus::default();
    status.start("Jean").unwrap();
    let mut m = AfkMachine::new("Jean".to_string());
    let s = m.step(&status, AfkEvent::Start);
    assert!(matches!(s.query, AfkQuery::StopRequested));
    let s = m.step(&status, AfkEvent::Stop(false));
    assert!(matches!(s.query, AfkQuery::FindWindow));
    let s = m.step(&status, AfkEvent::Window(Some(window())));
    assert!(matches!(s.query, AfkQuery::StopRequested));
    assert!(matches!(s.effects[0], AfkEffect::ShowWindow(_)));
    let s = m.step(&status, AfkEvent::Stop(false));
    assert!(matches!(s.query, AfkQuery::DetectCharacter(_)));
    // first attempt fails and is logged, second succeeds
    let s = m.step(&status, AfkEvent::Detection(Err("absent".to_string())));
    assert!(matches!(s.effects[0], AfkEffect::Log(AfkLog::OcrAttemptFailed { attempt: 1, max_attempts: 60, .. })));
    assert!(matches!(s.query, AfkQuery::Sleep { secs: 5 }));
    let s = m.step(&status, AfkEvent::Slept(false));
    assert!(matches!(s.query, AfkQuery::StopRequested));
    let _ = m.step(&status, AfkEvent::Stop(false));
    let s = m.step(&status, AfkEvent::Detection(Ok((400, 300, "Jean".to_string()))));
    assert!(matches!(s.effects[2], AfkEffect::ClickCharacter { x: 400, y: 300 }));
    assert!(matches!(s.effects[5], AfkEffect::ClickNext { window_x: 10, window_y: 20, window_height: 720 }));
    assert!(matches!(s.query, AfkQuery::Focus { hwnd: 77 }));
    let s = m.step(&status, AfkEvent::Focused(Ok(())));
    assert!(matches!(s.effects[1], AfkEffect::SendAfkSequence));
    assert!(matches!(s.effects[3], AfkEffect::BeginAfk));
    status.begin_afk("2024-05-01 10:00:00".to_string());
    assert!(matches!(s.query, AfkQuery::Sleep { secs: 5 }));
    let _ = m.step(&status, AfkEvent::Slept(false));
    let _ = m.step(&status, AfkEvent::Stop(false));
    // the window is gone: a crash
    let s = m.step(&status, AfkEvent::Window(None));
    assert!(s.effects.iter().any(|e| matches!(e, AfkEffect::RecordCrash)));
    assert!(s.effects.iter().any(|e| matches!(
        e,
        AfkEffect::Notify(storylife_utils::afk::AfkAnnouncement::Crashed { reconnect: 1 })
    )));
    assert!(matches!(s.query, AfkQuery::Sleep { secs: 60 }));
    // stop during the reconnection wait: clean exit with the AFK-stop notice
    let s = m.step(&status, AfkEvent::Slept(true));
    assert!(matches!(s.query, AfkQuery::Finished));
    assert!(matches!(s.effects.last(), Some(AfkEffect::Finish)));
    assert!(s.effects.iter().any(|e| matches!(
        e,
        AfkEffect::Notify(storylife_utils::afk::AfkAnnouncement::AfkStopped)
    )));
    assert!(m.is_done());
}

#[test]
fn afk_launches_the_game_when_no_window() {
    let status = AutomationStatus::default();
    let mut m = AfkMachine::new("Jean".to_string());
    let _ = m.step(&status, AfkEvent::Start);
    let _ = m.step(&status, AfkEvent::Stop(false));
    let s = m.step(&status, AfkEvent::Window(None));
    assert!(matches!(s.effects[0], AfkEffect::ShowNoWindow));
    assert!(matches!(s.query, AfkQuery::KillProcesses));
    let s = m.step(&status, AfkEvent::Killed(Ok(2)));
    assert!(matches!(s.effects[0], AfkEffect::Log(AfkLog::ProcessesKilled { count: 2 })));
    let s = m.step(&status, AfkEvent::Slept(false));
    assert!(matches!(s.query, AfkQuery::Launch));
    let s = m.step(&status, AfkEvent::Launched(Err("absent".to_string())));
    if let AfkEffect::Log(l) = &s.effects[0] {
        assert_eq!(l.level(), LogLevel::Error);
    } else {
        panic!("expected a log line");
    }
    let s = m.step(&status, AfkEvent::Slept(false));
    assert!(matches!(s.query, AfkQuery::StopRequested));
    let s = m.step(&status, AfkEvent::Stop(true));
    assert_eq!(s.effects.len(), 3);
    assert!(matches!(s.effects[1], AfkEffect::SaveAfkTime));
    assert!(m.is_done());
}

#[test]
fn afk_gives_up_after_sixty_attempts() {
    let status = AutomationStatus::default();
    let mut m = AfkMachine::new("Jean".to_string());
    let _ = m.step(&status, AfkEvent::Start);
    let _ = m.step(&status, AfkEvent::Stop(false));
    let _ = m.step(&status, AfkEvent::Window(Some(window())));
    let mut logged = 0;
    for attempt in 0..60 {
        let s = m.step(&status, AfkEvent::Stop(false));
        assert!(matches!(s.query, AfkQuery::DetectCharacter(_)));
        let s = m.step(&status, AfkEvent::Detection(Err("no".to_string())));
        logged += s.effects.len();
        let s = m.step(&status, AfkEvent::Slept(false));
        if attempt < 59 {
            assert!(matches!(s.query, AfkQuery::StopRequested));
        } else {
            assert!(matches!(s.effects[0], AfkEffect::Log(AfkLog::OcrTimeout)));
        }
    }
    assert_eq!(logged, 10);
    let s = m.step(&status, AfkEvent::Slept(false));
    assert!(matches!(s.query, AfkQuery::StopRequested));
}

#[test]
fn key_edges_and_escapes() {
    let mut was = false;
    assert!(is_key_just_pressed(true, &mut was));
    assert!(!is_key_just_pressed(true, &mut was));
    assert!(!is_key_just_pressed(false, &mut was));
    assert!(is_key_just_pressed(true, &mut was));
    let mut times = Vec::new();
    assert!(!register_escape(&mut times, 0));
    assert!(!register_escape(&mut times, 400_000_000));
    assert!(register_escape(&mut times, 1_000_000_000));
    let mut slow = Vec::new();
    assert!(!register_escape(&mut slow, 0));
    assert!(!register_escape(&mut slow, 600_000_000));
    assert!(!register_escape(&mut slow, 1_200_000_000));
    assert_eq!(slow, vec![600_000_000, 1_200_000_000]);
}

#[test]
fn mining_clicks_on_the_colour() {
    let mut status = MiningStatus::default();
    status.start().unwrap();
    let mut m = MiningMachine::new([255, 3, 14], 30, "m");
    assert_eq!(m.toggle_vk, 0x4D);
    let s = m.step(&status, MiningEvent::Start);
    assert!(matches!(s.effects[3], MiningEffect::SetActive(true)));
    let _ = m.step(&status, MiningEvent::Stop(false));
    let s = m.step(&status, MiningEvent::Keys { toggle_down: false, escape_down: false, now: 0 });
    assert!(matches!(s.query, MiningQuery::FindWindow));
    let s = m.step(&status, MiningEvent::Window(Some(window())));
    assert!(matches!(s.query, MiningQuery::WatchZone(_)));
    let s = m.step(&status, MiningEvent::Zone { left: 100, top: 200, width: 2, height: 2 });
    assert!(matches!(s.query, MiningQuery::Capture { left: 100, top: 200, width: 2, height: 2 }));
    let pixels = vec![0, 0, 0, 255, 0, 0, 0, 255, 0, 0, 0, 255, 14, 3, 255, 255];
    let s = m.step(&status, MiningEvent::Captured(Ok(pixels)));
    assert!(matches!(s.effects[2], MiningEffect::ClickAt { x: 101, y: 201 }));
    assert!(matches!(s.query, MiningQuery::StopRequested));
    let _ = m.step(&status, MiningEvent::Stop(false));
    // toggle pressed: paused, no capture
    let s = m.step(&status, MiningEvent::Keys { toggle_down: true, escape_down: false, now: 100 });
    assert!(matches!(s.effects[0], MiningEffect::SetActive(false)));
    assert!(matches!(s.query, MiningQuery::StopRequested));
    assert!(!m.active);
    let _ = m.step(&status, MiningEvent::Stop(false));
    let _ = m.step(&status, MiningEvent::Keys { toggle_down: false, escape_down: true, now: 200 });
    let _ = m.step(&status, MiningEvent::Stop(false));
    let _ = m.step(&status, MiningEvent::Keys { toggle_down: false, escape_down: false, now: 300 });
    let _ = m.step(&status, MiningEvent::Stop(false));
    let _ = m.step(&status, MiningEvent::Keys { toggle_down: false, escape_down: true, now: 400 });
    let _ = m.step(&status, MiningEvent::Stop(false));
    let _ = m.step(&status, MiningEvent::Keys { toggle_down: false, escape_down: false, now: 500 });
    let _ = m.step(&status, MiningEvent::Stop(false));
    let s = m.step(&status, MiningEvent::Keys { toggle_down: false, escape_down: true, now: 600 });
    assert!(matches!(s.query, MiningQuery::Finished));
    assert!(matches!(s.effects.last(), Some(MiningEffect::Finish)));
    assert!(m.is_done());
}

#[test]
fn muscu_cycle() {
    assert_eq!(sleep_chunks_ms(450), vec![200, 200, 50]);
    assert_eq!(sleep_chunks_ms(400), vec![200, 200]);
    assert!(sleep_chunks_ms(0).is_empty());
    let status = MuscuStatus::default();
    let mut m = MuscuMachine::new();
    let _ = m.step_with(&status, MuscuEvent::Start, 0, 0);
    let s = m.step_with(&status, MuscuEvent::Stop(false), 0, 0);
    assert!(matches!(s.query, MuscuQuery::FindWindow));
    let s = m.step_with(&status, MuscuEvent::Window(Some(window())), 0, 0);
    assert!(matches!(s.query, MuscuQuery::Focus { hwnd: 77 }));
    let s = m.step_with(&status, MuscuEvent::Focused(Ok(())), 2, 0);
    assert!(matches!(s.effects[1], MuscuEffect::HoldKey { scan_code: 0x1F, millis: 100 }));
    let s = m.step_with(&status, MuscuEvent::Slept(false), 0, 599);
    assert!(matches!(s.effects[0], MuscuEffect::PressKey { scan_code: 0x12 }));
    assert!(matches!(s.query, MuscuQuery::Sleep { millis: 76_999 }));
    let s = m.step_with(&status, MuscuEvent::Slept(false), 0, 0);
    assert!(matches!(s.effects[0], MuscuEffect::RecordCycle));
    assert!(matches!(s.effects[1], MuscuEffect::Log(MuscuLog::CycleDone { count: 1 })));
    assert!(matches!(s.effects[2], MuscuEffect::SaveCycle));
    let s = m.step(&status, MuscuEvent::Stop(true));
    assert!(matches!(s.query, MuscuQuery::Finished));
    assert!(m.is_done());
}

#[test]
fn muscu_random_draws_stay_in_range() {
    for _ in 0..20 {
        let status = MuscuStatus::default();
        let mut m = MuscuMachine::new();
        let _ = m.step(&status, MuscuEvent::Start);
        let _ = m.step(&status, MuscuEvent::Stop(false));
        let _ = m.step(&status, MuscuEvent::Window(Some(window())));
        let s = m.step(&status, MuscuEvent::Focused(Err("x".to_string())));
        match s.effects[1] {
            MuscuEffect::HoldKey { scan_code, millis } => {
                assert!([0x11u16, 0x10, 0x1F, 0x20].contains(&scan_code));
                assert_eq!(millis, 100);
            }
            _ => panic!("expected a held key"),
        }
        let s = m.step(&status, MuscuEvent::Slept(false));
        match s.query {
            MuscuQuery::Sleep { millis } => assert!((76_400..77_400).contains(&millis)),
            _ => panic!("expected a sleep"),
        }
    }
}

#[test]
fn afk_standing_stop_ends_within_three_steps() {
    let mut status = AutomationStatus::default();
    status.start("Jean").unwrap();
    // from the window search: window found, then the stop is read at once
    let mut m = AfkMachine::new("Jean".to_string());
    let _ = m.step(&status, AfkEvent::Start);
    let _ = m.step(&status, AfkEvent::Stop(false));
    let _ = m.step(&status, AfkEvent::Window(None));
    let _ = m.step(&status, AfkEvent::Killed(Ok(0)));
    let s = m.step(&status, AfkEvent::Slept(true));
    assert!(matches!(s.query, AfkQuery::Finished));
    assert!(m.is_done());
    // from detection: the character is found, focus, then the sleep reports the stop
    let mut m = AfkMachine::new("Jean".to_string());
    let _ = m.step(&status, AfkEvent::Start);
    let _ = m.step(&status, AfkEvent::Stop(false));
    let _ = m.step(&status, AfkEvent::Window(Some(window())));
    let _ = m.step(&status, AfkEvent::Stop(false));
    let _ = m.step(&status, AfkEvent::Detection(Ok((1, 2, "Jean".to_string()))));
    let _ = m.step(&status, AfkEvent::Focused(Err("busy".to_string())));
    let s = m.step(&status, AfkEvent::Slept(true));
    assert!(matches!(s.query, AfkQuery::Finished));
    assert!(m.is_done());
}

#[test]
fn afk_status_stays_consistent_through_a_crash() {
    let mut status = AutomationStatus::default();
    status.start("Jean").unwrap();
    status.set_state(storylife_utils::state::AutomationState::SendingKeys);
    status.begin_afk("2024-05-01 10:00:00".to_string());
    assert!(status.session_treated && status.afk_start_time.is_some());
    // a crash first leaves AFK mode, then loses the session
    status.set_state(storylife_utils::state::AutomationState::Reconnecting);
    status.record_crash("2024-05-01 11:00:00".to_string());
    assert!(!status.session_treated);
    assert_ne!(status.state, storylife_utils::state::AutomationState::AfkActive);
    status.stop();
    assert_eq!(status.state, storylife_utils::state::AutomationState::Idle);
}

#[test]
fn mining_clicks_follow_detections() {
    let mut status = MiningStatus::default();
    status.start().unwrap();
    let mut m = MiningMachine::new([255, 3, 14], 30, "F5");
    assert_eq!(m.toggle_vk, 0x74);
    let _ = m.step(&status, MiningEvent::Start);
    let _ = m.step(&status, MiningEvent::Stop(false));
    let _ = m.step(&status, MiningEvent::Keys { toggle_down: false, escape_down: false, now: 0 });
    let _ = m.step(&status, MiningEvent::Window(Some(window())));
    let _ = m.step(&status, MiningEvent::Zone { left: 0, top: 0, width: 1, height: 1 });
    let s = m.step(&status, MiningEvent::Captured(Ok(vec![14, 3, 255, 255])));
    for effect in &s.effects {
        match effect {
            MiningEffect::RecordDetection => status.record_detection(),
            MiningEffect::RecordClick => {
                assert!(status.click_count < status.detection_count);
                status.record_click();
            }
            _ => {}
        }
    }
    assert_eq!((status.detection_count, status.click_count), (1, 1));
    // a standing stop is read at the next check
    let s = m.step(&status, MiningEvent::Stop(true));
    assert!(matches!(s.query, MiningQuery::Finished));
}
