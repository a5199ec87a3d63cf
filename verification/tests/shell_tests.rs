use echokey::clipboard::{self, ClipboardHandle};
use echokey::clock::{Clock, LogDate, now_clock};
use echokey::gui::{EchoKeyApp, Page, SharedGuiState};
use echokey::keyboard::KeyboardEvent;
use echokey::logger::Logger;
use echokey::logic::{AppState, TrayDirective, handle_keyboard_event_at, handle_tray_event_at,
    sync_pause_from_gui_at};
use echokey::render::{char_to_string, file_name};
use echokey::tray::{TrayEvent, is_in_letter_e, tray_tooltip};
use echokey::config::get_log_directory;

fn date() -> LogDate {
    LogDate { year: 2024, month: 5, day: 6 }
}

fn clock(ms: i64, hour: u8, minute: u8, second: u8) -> Clock {
    Clock { ms, year: 2024, month: 5, day: 6, hour, minute, second }
}

fn header(hms: &str) -> String {
    format!(
        "================== EchoKey 日志 ==================\n日期：2024-05-06\n创建时间：{}\n==================================================\n\n",
        hms
    )
}

#[test]
fn test_log_directory() {
    let dir = get_log_directory();
    assert!(dir.contains("EchoKey"));
}

#[test]
fn file_names_encode_date_and_segment() {
    let d = LogDate { year: 2024, month: 1, day: 5 };
    assert_eq!(file_name(d, 0).as_str(), "2024-01-05.log");
    assert_eq!(file_name(d, 1).as_str(), "2024-01-05_01.log");
    assert_eq!(file_name(d, 12).as_str(), "2024-01-05_12.log");
    assert_eq!(file_name(d, 123).as_str(), "2024-01-05_123.log");
    let old = LogDate { year: 987, month: 12, day: 31 };
    assert_eq!(file_name(old, 0).as_str(), "0987-12-31.log");
}

#[test]
fn char_to_string_appends_the_character() {
    assert_eq!(char_to_string('A').as_str(), "A");
    assert_eq!(char_to_string('中').as_str(), "中");
    assert_eq!(char_to_string('⌫').as_str(), "⌫");
}

#[test]
fn the_clock_reads_a_sane_time() {
    let c = now_clock();
    assert!((1..=12).contains(&c.month));
    assert!((1..=31).contains(&c.day));
    assert!(c.hour <= 23 && c.minute <= 59 && c.second <= 59);
    assert!(c.year >= 2024);
}

#[test]
fn tray_tooltip_follows_pause_state() {
    assert_eq!(tray_tooltip(false), "EchoKey - 记录中");
    assert_eq!(tray_tooltip(true), "EchoKey - 已暂停");
}

#[test]
fn letter_e_pixels() {
    // On a 32x32 icon the E spans x 11..=21, y 9..=23.
    assert!(is_in_letter_e(11, 9, 32));
    assert!(is_in_letter_e(12, 16, 32));
    assert!(is_in_letter_e(21, 9, 32));
    assert!(is_in_letter_e(21, 23, 32));
    assert!(is_in_letter_e(19, 16, 32));
    assert!(!is_in_letter_e(20, 16, 32));
    assert!(!is_in_letter_e(21, 12, 32));
    assert!(!is_in_letter_e(0, 0, 32));
    assert!(!is_in_letter_e(16, 5, 32));
}

#[test]
fn gui_state_defaults_and_messages() {
    let s = SharedGuiState::default();
    assert!(!s.paused && s.today_chars == 0 && !s.request_new_segment && !s.request_open_log);
    let mut app = EchoKeyApp::new(String::from("/tmp/logs"), true);
    assert_eq!(app.current_page, Page::Status);
    assert!(!app.is_paused);
    assert_eq!(app.today_chars, 0);
    assert_eq!(app.log_directory.as_str(), "/tmp/logs");
    assert!(app.autostart_enabled);
    assert!(app.status_message.is_none());
    app.show_message("saved");
    let (msg, _at) = app.status_message.clone().expect("message set");
    assert_eq!(msg.as_str(), "saved");
}

#[test]
fn clipboard_without_backend_reads_nothing() {
    let mut h = ClipboardHandle::empty();
    assert!(clipboard::get_text(&mut h).is_none());
    assert!(!clipboard::has_text(&mut h));
}

#[test]
fn clipboard_init_reports_availability() {
    // On a desktop this yields a handle; headless it reports the error.
    match clipboard::init() {
        Ok(mut h) => {
            let _ = clipboard::get_text(&mut h);
        },
        Err(e) => {
            assert_eq!(e, clipboard::ClipboardError::Unavailable);
        },
    }
}

#[test]
fn dispatch_writes_characters_and_counts_them() {
    let mut state = AppState::new(Logger::new(Vec::new()));
    let mut gui = SharedGuiState::default();
    let c = clock(1_000_000, 10, 0, 0);
    handle_keyboard_event_at(&mut state, &mut gui, KeyboardEvent::Character('H'), None, &c);
    handle_keyboard_event_at(&mut state, &mut gui, KeyboardEvent::Character('i'), None, &c);
    handle_keyboard_event_at(&mut state, &mut gui, KeyboardEvent::Enter, None, &c);
    handle_keyboard_event_at(
        &mut state,
        &mut gui,
        KeyboardEvent::Paste,
        Some(String::from("hello")),
        &c,
    );
    assert_eq!(state.char_count, 7);
    assert_eq!(gui.today_chars, 7);
    let content = state.logger.file_content(date(), 0).unwrap();
    let expected = format!("{}[10:00:00] Hi\n[10:00:00] [粘贴] hello\n", header("10:00:00"));
    assert_eq!(content.as_str(), expected.as_str());
}

#[test]
fn dispatch_discards_events_while_paused() {
    let mut state = AppState::new(Logger::new(Vec::new()));
    let mut gui = SharedGuiState::default();
    handle_keyboard_event_at(
        &mut state,
        &mut gui,
        KeyboardEvent::TogglePause,
        None,
        &clock(1_000_000, 10, 0, 0),
    );
    assert!(state.paused && gui.paused);
    let len = state.logger.file_content(date(), 0).unwrap().as_bytes().len();
    handle_keyboard_event_at(
        &mut state,
        &mut gui,
        KeyboardEvent::Character('x'),
        None,
        &clock(1_001_000, 10, 0, 1),
    );
    handle_keyboard_event_at(
        &mut state,
        &mut gui,
        KeyboardEvent::Paste,
        Some(String::from("clip")),
        &clock(1_002_000, 10, 0, 2),
    );
    assert_eq!(state.char_count, 0);
    assert_eq!(
        state.logger.file_content(date(), 0).unwrap().as_bytes().len(),
        len
    );
    handle_keyboard_event_at(
        &mut state,
        &mut gui,
        KeyboardEvent::TogglePause,
        None,
        &clock(1_003_000, 10, 0, 3),
    );
    assert!(!state.paused && !gui.paused);
}

#[test]
fn dispatch_writes_backspace_as_placeholder() {
    let mut state = AppState::new(Logger::new(Vec::new()));
    let mut gui = SharedGuiState::default();
    let c = clock(1_000_000, 10, 0, 0);
    handle_keyboard_event_at(&mut state, &mut gui, KeyboardEvent::Backspace, None, &c);
    let content = state.logger.file_content(date(), 0).unwrap();
    assert!(content.ends_with("[10:00:00] ⌫"));
    assert_eq!(state.char_count, 0);
}

#[test]
fn dispatch_skips_empty_clipboard() {
    let mut state = AppState::new(Logger::new(Vec::new()));
    let mut gui = SharedGuiState::default();
    let c = clock(1_000_000, 10, 0, 0);
    handle_keyboard_event_at(&mut state, &mut gui, KeyboardEvent::Paste, None, &c);
    handle_keyboard_event_at(
        &mut state,
        &mut gui,
        KeyboardEvent::Paste,
        Some(String::new()),
        &c,
    );
    handle_keyboard_event_at(
        &mut state,
        &mut gui,
        KeyboardEvent::ManualSave,
        Some(String::new()),
        &c,
    );
    assert!(state.logger.files().is_empty());
    assert_eq!(state.char_count, 0);
}

#[test]
fn dispatch_new_segment_and_manual_save() {
    let mut state = AppState::new(Logger::new(Vec::new()));
    let mut gui = SharedGuiState::default();
    handle_keyboard_event_at(
        &mut state,
        &mut gui,
        KeyboardEvent::Character('a'),
        None,
        &clock(1_000_000, 10, 0, 0),
    );
    handle_keyboard_event_at(
        &mut state,
        &mut gui,
        KeyboardEvent::NewSegment,
        None,
        &clock(1_001_000, 10, 0, 1),
    );
    assert_eq!(state.logger.segment_number(), 1);
    handle_keyboard_event_at(
        &mut state,
        &mut gui,
        KeyboardEvent::ManualSave,
        Some(String::from("note")),
        &clock(1_002_000, 10, 0, 2),
    );
    let content = state.logger.file_content(date(), 1).unwrap();
    assert!(content.ends_with("[10:00:02] [手动保存] note\n"));
    assert_eq!(state.char_count, 1);
}

#[test]
fn gui_pause_flag_is_synced_into_the_logger() {
    let mut state = AppState::new(Logger::new(Vec::new()));
    sync_pause_from_gui_at(&mut state, true, &clock(1_000_000, 10, 0, 0));
    assert!(state.paused);
    assert!(state.logger.is_paused());
    let content = state.logger.file_content(date(), 0).unwrap();
    assert!(content.ends_with("[10:00:00] --- 暂停记录 ---\n"));
    sync_pause_from_gui_at(&mut state, true, &clock(1_001_000, 10, 0, 1));
    sync_pause_from_gui_at(&mut state, false, &clock(1_002_000, 10, 0, 2));
    assert!(!state.paused);
    assert!(!state.logger.is_paused());
    let content = state.logger.file_content(date(), 0).unwrap();
    assert!(content.ends_with("[10:00:02] --- 恢复记录 ---\n"));
}

#[test]
fn tray_commands_drive_the_logger() {
    let mut state = AppState::new(Logger::new(Vec::new()));
    let mut gui = SharedGuiState::default();
    assert_eq!(
        handle_tray_event_at(&mut state, &mut gui, TrayEvent::TogglePause, &clock(1_000_000, 10, 0, 0)),
        TrayDirective::Nothing
    );
    assert!(state.paused && gui.paused);
    assert_eq!(
        handle_tray_event_at(&mut state, &mut gui, TrayEvent::NewSegment, &clock(1_001_000, 10, 0, 1)),
        TrayDirective::Nothing
    );
    assert_eq!(state.logger.segment_number(), 1);
    assert_eq!(
        handle_tray_event_at(&mut state, &mut gui, TrayEvent::ShowWindow, &clock(1_002_000, 10, 0, 2)),
        TrayDirective::ShowWindow
    );
    assert_eq!(
        handle_tray_event_at(&mut state, &mut gui, TrayEvent::OpenLogDir, &clock(1_003_000, 10, 0, 3)),
        TrayDirective::OpenLogDirectory
    );
    assert_eq!(
        handle_tray_event_at(&mut state, &mut gui, TrayEvent::Quit, &clock(1_004_000, 10, 0, 4)),
        TrayDirective::Quit
    );
}

#[test]
fn logger_reports_the_log_directory() {
    let lg = Logger::new(Vec::new());
    let dir = lg.get_log_directory();
    assert!(dir.ends_with("/EchoKey/logs"));
}
