use viber_balance::refresh::{
    after_fetch, alert_step, tick_action, FetchEvent, FetchResult, Level, Scheduler, TickAction,
    INITIAL_TICK_SECS,
};
use viber_balance::settings::{
    default_theme, default_token, DEFAULT_AUTO_START, DEFAULT_REFRESH_MINUTES, DEFAULT_SHOW_PERCENT_TEXT,
};
use viber_balance::tray::{
    error_label, format_label, menu_command, set_token_label, tray_icon_size, tray_text_slot, MenuCommand,
    Platform, TextSlot,
};

#[test]
fn icon_size_per_platform() {
    assert_eq!(tray_icon_size(Platform::Windows), 16);
    assert_eq!(tray_icon_size(Platform::MacOs), 22);
    assert_eq!(tray_icon_size(Platform::Other), 22);
}

#[test]
fn text_slot_per_platform() {
    assert_eq!(tray_text_slot(Platform::MacOs), TextSlot::Title);
    assert_eq!(tray_text_slot(Platform::Windows), TextSlot::Tooltip);
    assert_eq!(tray_text_slot(Platform::Other), TextSlot::Tooltip);
}

#[test]
fn labels() {
    assert_eq!(format_label(true, true, "100"), "\u{221e}");
    assert_eq!(format_label(true, false, "100"), "");
    assert_eq!(format_label(false, true, "42"), "42%");
    assert_eq!(format_label(false, false, "42"), "");
    assert_eq!(set_token_label(), "\u{2699} Set Token");
    assert_eq!(error_label(), "\u{26a0} Error");
}

#[test]
fn menu_entries() {
    assert_eq!(menu_command("open"), MenuCommand::OpenPopup);
    assert_eq!(menu_command("settings"), MenuCommand::OpenPopup);
    assert_eq!(menu_command("quit"), MenuCommand::Quit);
    assert_eq!(menu_command("other"), MenuCommand::Ignore);
    assert_eq!(menu_command(""), MenuCommand::Ignore);
}

#[test]
fn scheduler_rearms_only_on_change() {
    assert_eq!(INITIAL_TICK_SECS, 10);
    let mut s = Scheduler::new();
    assert_eq!(s.interval_mins, 0);
    let p = s.on_tick(5, "tok");
    assert_eq!(p.reschedule_secs, Some(300));
    assert_eq!(p.action, TickAction::FetchBalance);
    assert_eq!(s.interval_mins, 5);
    let p = s.on_tick(5, "");
    assert_eq!(p.reschedule_secs, None);
    assert_eq!(p.action, TickAction::PromptForToken);
    let p = s.on_tick(60, "tok");
    assert_eq!(p.reschedule_secs, Some(3600));
    assert_eq!(s.interval_mins, 60);
}

#[test]
fn zero_interval_before_first_setting_keeps_timer() {
    let mut s = Scheduler::new();
    let p = s.on_tick(0, "tok");
    assert_eq!(p.reschedule_secs, None);
}

#[test]
fn fetch_only_with_token() {
    assert_eq!(tick_action(""), TickAction::PromptForToken);
    assert_eq!(tick_action("x"), TickAction::FetchBalance);
}

#[test]
fn alert_fires_once_per_dip() {
    let mut alerted = false;
    let mut notes = 0;
    for level in [Level::Above, Level::Neither, Level::Below, Level::Below, Level::Neither, Level::Below] {
        let s = alert_step(alerted, false, level);
        alerted = s.alerted;
        if s.notify {
            notes += 1;
        }
    }
    assert_eq!(notes, 1);
    assert!(alerted);
    let s = alert_step(alerted, false, Level::Above);
    assert!(!s.alerted && !s.notify);
    let s = alert_step(s.alerted, false, Level::Below);
    assert!(s.alerted && s.notify);
}

#[test]
fn unlimited_never_alerts() {
    let s = alert_step(false, true, Level::Below);
    assert!(!s.alerted && !s.notify);
    let s = alert_step(true, true, Level::Above);
    assert!(s.alerted && !s.notify);
}

#[test]
fn setting_defaults() {
    assert_eq!(default_theme(), "system");
    assert_eq!(DEFAULT_REFRESH_MINUTES, 5);
    assert_eq!(default_token(), "");
    assert!(DEFAULT_SHOW_PERCENT_TEXT);
    assert!(!DEFAULT_AUTO_START);
}

#[test]
fn reading_at_threshold_changes_nothing() {
    let s = alert_step(false, false, Level::Neither);
    assert!(!s.alerted && !s.notify);
    let s = alert_step(true, false, Level::Neither);
    assert!(s.alerted && !s.notify);
    // a reading at the threshold does not silence the first drop below it
    let s = alert_step(false, false, Level::Neither);
    let s = alert_step(s.alerted, false, Level::Below);
    assert!(s.alerted && s.notify);
}

#[test]
fn step_after_balance() {
    let r = FetchResult::Balance { unlimited: false, level: Level::Below, rounded_percent: "12".to_string() };
    let s = after_fetch(&r, true, false, true);
    assert_eq!(s.label, "12%");
    assert!(s.draw_battery && s.keep_balance && s.alerted && s.notify);
    assert_eq!(s.event, FetchEvent::BalanceUpdated);
    let s = after_fetch(&r, false, false, false);
    assert_eq!(s.label, "");
    assert!(s.draw_battery && s.keep_balance && !s.alerted && !s.notify);
    let r = FetchResult::Balance { unlimited: true, level: Level::Below, rounded_percent: "100".to_string() };
    let s = after_fetch(&r, true, false, true);
    assert_eq!(s.label, "\u{221e}");
    assert!(!s.alerted && !s.notify);
}

#[test]
fn step_after_failure() {
    let s = after_fetch(&FetchResult::Failed, true, true, true);
    assert_eq!(s.label, "\u{26a0} Error");
    assert!(!s.draw_battery && !s.keep_balance && s.alerted && !s.notify);
    assert_eq!(s.event, FetchEvent::BalanceError);
    let s = after_fetch(&FetchResult::Failed, false, false, true);
    assert!(!s.alerted && !s.notify);
}
