use storylife_utils::state::{
    AutomationState, AutomationStatus, Config, MiningStatus, MuscuStatus, Stats, WebhookConfig, WindowInfo,
};
use storylife_utils::stats::{
    afk_elapsed_seconds, get_stats, record_afk_elapsed, record_mining_click, record_muscu_cycle, reset_stats,
    AfkSave,
};
use storylife_utils::webhook::{check_webhook_url, event_from_name, webhook_notify, WebhookEvent};

fn ts(s: &str) -> i64 {
    chrono::NaiveDateTime::parse_from_str(s, "%Y-%m-%d %H:%M:%S").unwrap().and_utc().timestamp()
}

#[test]
fn defaults() {
    let s = AutomationStatus::default();
    assert_eq!(s.state, AutomationState::Idle);
    assert!(!s.running && !s.session_treated && s.reconnect_count == 0);
    assert!(s.afk_start_time.is_none() && s.last_crash_time.is_none());
    assert_eq!(Config::default().character_name, "");
    let w = WindowInfo::default();
    assert!(!w.found && w.title.is_empty() && w.width == 0 && w.hwnd == 0);
    let cfg = WebhookConfig::default();
    assert!(cfg.url.is_empty() && cfg.notify_afk_start && cfg.notify_mining_stop);
    let st = Stats::default();
    assert_eq!((st.total_muscu_cycles, st.total_mining_clicks, st.total_afk_seconds), (0, 0, 0));
    assert!(!MuscuStatus::default().running);
    assert_eq!(MiningStatus::default().click_count, 0);
}

#[test]
fn state_labels() {
    assert_eq!(AutomationState::Idle.label(), "En attente");
    assert_eq!(AutomationState::AfkActive.label(), "Mode AFK actif");
    assert_eq!(AutomationState::WaitingOcr.label(), "Détection du personnage (OCR)...");
    assert_eq!(AutomationState::SearchingWindow.label(), "Recherche de la fenêtre FiveM...");
}

#[test]
fn starting_the_automation() {
    let mut s = AutomationStatus::default();
    s.reconnect_count = 4;
    s.session_treated = true;
    assert_eq!(s.start("   ").unwrap_err(), "Le nom du personnage est requis");
    assert_eq!(s.reconnect_count, 4);
    assert!(s.start("Jean Dupont").is_ok());
    assert!(s.running && !s.session_treated && s.reconnect_count == 0);
    assert_eq!(s.state, AutomationState::SearchingWindow);
    s.stop();
    assert!(!s.running);
    assert_eq!(s.state, AutomationState::Idle);
}

#[test]
fn starting_bots_twice_is_refused() {
    let mut m = MiningStatus::default();
    m.click_count = 9;
    assert!(m.start().is_ok());
    assert_eq!((m.running, m.active, m.click_count), (true, true, 0));
    assert_eq!(m.start().unwrap_err(), "Le bot mining est déjà en cours");
    m.record_click();
    m.stop();
    assert_eq!((m.running, m.active, m.click_count), (false, false, 1));
    let mut g = MuscuStatus::default();
    assert!(g.start().is_ok());
    assert_eq!(g.start().unwrap_err(), "Le bot muscu est déjà en cours d'exécution");
    g.record_cycle();
    g.stop();
    assert_eq!((g.running, g.cycle_count), (false, 1));
}

#[test]
fn crash_and_afk_records() {
    let mut s = AutomationStatus::default();
    s.begin_afk("2024-05-01 10:00:00".to_string());
    assert!(s.session_treated);
    assert_eq!(s.state, AutomationState::AfkActive);
    s.record_crash("2024-05-01 11:00:00".to_string());
    assert!(!s.session_treated);
    assert_eq!(s.reconnect_count, 1);
    assert_eq!(s.last_crash_time.as_deref(), Some("2024-05-01 11:00:00"));
    s.finish();
    assert!(!s.running);
    assert_eq!(s.state, AutomationState::Idle);
}

#[test]
fn afk_time_is_measured_from_the_recorded_start() {
    let now = ts("2024-05-01 10:05:30");
    assert_eq!(afk_elapsed_seconds("2024-05-01 10:00:00", now), Some(330));
    assert_eq!(afk_elapsed_seconds("2024-05-01 11:00:00", now), Some(0));
    assert_eq!(afk_elapsed_seconds("not a date", now), None);
}

#[test]
fn saving_afk_time() {
    let now = ts("2024-05-01 10:05:30");
    let mut stats = Stats::default();
    stats.total_afk_seconds = 100;
    let mut status = AutomationStatus::default();
    status.afk_start_time = Some("2024-05-01 10:00:00".to_string());
    assert_eq!(record_afk_elapsed(&mut stats, &status, now), AfkSave::Nothing);
    status.session_treated = true;
    assert_eq!(record_afk_elapsed(&mut stats, &status, now), AfkSave::Added(330));
    assert_eq!(stats.total_afk_seconds, 430);
    status.afk_start_time = Some("garbage".to_string());
    assert_eq!(record_afk_elapsed(&mut stats, &status, now), AfkSave::Nothing);
    stats.total_afk_seconds = u64::MAX - 10;
    status.afk_start_time = Some("2024-05-01 10:00:00".to_string());
    assert_eq!(record_afk_elapsed(&mut stats, &status, now), AfkSave::Overflow);
    assert_eq!(stats.total_afk_seconds, u64::MAX - 10);
}

#[test]
fn live_stats_add_the_running_session() {
    let now = ts("2024-05-01 10:01:00");
    let mut stats = Stats::default();
    stats.total_afk_seconds = 5;
    let mut status = AutomationStatus::default();
    status.afk_start_time = Some("2024-05-01 10:00:00".to_string());
    status.state = AutomationState::AfkActive;
    assert_eq!(get_stats(&stats, &status, now).unwrap().total_afk_seconds, 5);
    status.running = true;
    assert_eq!(get_stats(&stats, &status, now).unwrap().total_afk_seconds, 65);
    status.state = AutomationState::Reconnecting;
    assert_eq!(get_stats(&stats, &status, now).unwrap().total_afk_seconds, 5);
    stats.total_afk_seconds = u64::MAX;
    status.state = AutomationState::AfkActive;
    assert!(get_stats(&stats, &status, now).is_none());
}

#[test]
fn saving_a_live_session_keeps_the_shown_total() {
    let now = ts("2024-05-01 12:30:00");
    let mut stats = Stats::default();
    stats.total_afk_seconds = 40;
    let mut status = AutomationStatus::default();
    status.start("Jean").unwrap();
    status.begin_afk("2024-05-01 12:00:00".to_string());
    let shown = get_stats(&stats, &status, now).unwrap().total_afk_seconds;
    assert_eq!(shown, 40 + 1800);
    assert_eq!(record_afk_elapsed(&mut stats, &status, now), AfkSave::Added(1800));
    assert_eq!(stats.total_afk_seconds, shown);
}

#[test]
fn counting_and_resetting() {
    let mut stats = Stats::default();
    record_mining_click(&mut stats);
    record_mining_click(&mut stats);
    record_muscu_cycle(&mut stats);
    assert_eq!((stats.total_mining_clicks, stats.total_muscu_cycles), (2, 1));
    reset_stats(&mut stats);
    assert_eq!((stats.total_mining_clicks, stats.total_muscu_cycles, stats.total_afk_seconds), (0, 0, 0));
}

#[test]
fn webhook_decisions() {
    let mut cfg = WebhookConfig::default();
    assert!(webhook_notify(&cfg, "afk_start", "x").is_none());
    cfg.url = "https://discord.example/hook".to_string();
    let m = webhook_notify(&cfg, "afk_start", "Personnage connecté").unwrap();
    assert_eq!(m.url, cfg.url);
    assert_eq!(m.title, "\u{1F7E2} AFK Activé");
    assert_eq!(m.color, 0x2ECC71);
    assert_eq!(m.description, "Personnage connecté");
    assert_eq!(webhook_notify(&cfg, "crash", "c").unwrap().color, 0xE67E22);
    assert_eq!(webhook_notify(&cfg, "mining_stop", "c").unwrap().title, "\u{1F6D1} Mining Arrêté");
    assert!(webhook_notify(&cfg, "unknown", "x").is_none());
    cfg.notify_crash = false;
    assert!(webhook_notify(&cfg, "crash", "x").is_none());
    assert_eq!(event_from_name("muscu_stop"), Some(WebhookEvent::MuscuStop));
    assert_eq!(event_from_name("Muscu_Stop"), None);
    assert_eq!(check_webhook_url("  ").unwrap_err(), "URL du webhook requise");
    assert!(check_webhook_url(" https://x ").is_ok());
}
