use echokey::keyboard::{
    KeyboardEvent, ModifierKey, ModifierState, RawEventFilter, classify_key, is_control_char,
    VK_BACK, VK_N, VK_P, VK_RETURN, VK_S, VK_V,
};

#[test]
fn duplicate_within_window_is_dropped() {
    let mut f = RawEventFilter::new();
    assert!(f.should_process_key(65, 30, 1_000));
    assert!(!f.should_process_key(65, 30, 1_010));
    assert!(!f.should_process_key(65, 30, 1_029));
}

#[test]
fn duplicate_at_or_past_window_is_accepted() {
    let mut f = RawEventFilter::new();
    assert!(f.should_process_key(65, 30, 1_000));
    assert!(f.should_process_key(65, 30, 1_030));
    let mut g = RawEventFilter::new();
    assert!(g.should_process_key(65, 30, 1_000));
    assert!(g.should_process_key(65, 30, 2_000));
}

#[test]
fn different_key_or_scan_code_is_accepted_at_once() {
    let mut f = RawEventFilter::new();
    assert!(f.should_process_key(65, 30, 1_000));
    assert!(f.should_process_key(66, 30, 1_001));
    assert!(f.should_process_key(66, 31, 1_002));
}

#[test]
fn injected_events_are_never_accepted() {
    let mut f = RawEventFilter::new();
    assert!(!f.filter_raw_event(true, true, 65, 30, 1_000));
    assert!(!f.filter_raw_event(true, true, 65, 30, 2_000));
    assert!(!f.filter_raw_event(true, true, 66, 31, 500_000));
    // The injected notifications also left no trace in the dedup record.
    assert!(f.filter_raw_event(false, true, 65, 30, 500_001));
}

#[test]
fn only_key_down_notifications_are_processed() {
    let mut f = RawEventFilter::new();
    assert!(!f.filter_raw_event(false, false, 65, 30, 1_000));
    assert!(f.filter_raw_event(false, true, 65, 30, 1_001));
}

#[test]
fn classifier_decision_table() {
    assert_eq!(classify_key(VK_RETURN, false, false, None), Some(KeyboardEvent::Enter));
    assert_eq!(classify_key(VK_RETURN, true, false, None), Some(KeyboardEvent::CtrlEnter));
    assert_eq!(classify_key(VK_RETURN, true, true, None), Some(KeyboardEvent::CtrlEnter));
    assert_eq!(classify_key(VK_BACK, false, false, None), Some(KeyboardEvent::Backspace));
    assert_eq!(classify_key(VK_BACK, true, true, None), Some(KeyboardEvent::Backspace));
    assert_eq!(classify_key(VK_V, true, false, None), Some(KeyboardEvent::Paste));
    assert_eq!(classify_key(VK_V, true, true, None), None);
    assert_eq!(classify_key(VK_S, true, true, None), Some(KeyboardEvent::ManualSave));
    assert_eq!(classify_key(VK_S, true, false, None), None);
    assert_eq!(classify_key(VK_P, true, true, None), Some(KeyboardEvent::TogglePause));
    assert_eq!(classify_key(VK_N, true, true, None), Some(KeyboardEvent::NewSegment));
    assert_eq!(classify_key(0x41, true, false, Some('a')), None);
    assert_eq!(
        classify_key(0x41, false, false, Some('a')),
        Some(KeyboardEvent::Character('a'))
    );
    assert_eq!(classify_key(0x41, false, true, Some('A')), Some(KeyboardEvent::Character('A')));
    assert_eq!(classify_key(0x41, false, false, Some('\u{8}')), None);
    assert_eq!(classify_key(0x41, false, false, None), None);
}

#[test]
fn control_characters_are_recognised() {
    assert!(is_control_char('\u{0}'));
    assert!(is_control_char('\u{1f}'));
    assert!(is_control_char('\u{7f}'));
    assert!(is_control_char('\u{9f}'));
    assert!(!is_control_char(' '));
    assert!(!is_control_char('\u{a0}'));
    assert!(!is_control_char('A'));
    assert!(!is_control_char('中'));
}

#[test]
fn modifier_tracker_follows_key_transitions() {
    let mut m = ModifierState::default();
    assert!(!m.ctrl && !m.shift && !m.alt);
    m.on_key(ModifierKey::Ctrl, true);
    assert!(m.ctrl && !m.shift && !m.alt);
    m.on_key(ModifierKey::Shift, true);
    assert!(m.ctrl && m.shift && !m.alt);
    m.on_key(ModifierKey::Ctrl, false);
    assert!(!m.ctrl && m.shift && !m.alt);
    m.on_key(ModifierKey::Alt, true);
    assert!(!m.ctrl && m.shift && m.alt);
    m.on_key(ModifierKey::Alt, false);
    m.on_key(ModifierKey::Shift, false);
    assert!(!m.ctrl && !m.shift && !m.alt);
}
