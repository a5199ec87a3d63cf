use echokey::clock::{Clock, LogDate};
use echokey::logger::{FileId, Logger};

fn date() -> LogDate {
    LogDate { year: 2024, month: 5, day: 6 }
}

fn clock(ms: i64, hour: u8, minute: u8, second: u8) -> Clock {
    Clock { ms, year: 2024, month: 5, day: 6, hour, minute, second }
}

fn header(hms: &str) -> String {
    format!(
        "================== EchoKey 日志 ==================\n日期：2024-05-06\n创建时间：{}\n==================================================\n\n",
        hms
    )
}

#[test]
fn scenario_text_enter_paste() {
    let mut lg = Logger::new(Vec::new());
    let c = clock(1_000_000, 10, 0, 0);
    lg.write_text_at("H", &c);
    lg.write_text_at("i", &c);
    lg.handle_enter_at(&c);
    lg.write_paste_at("hello", &c);
    let content = lg.file_content(date(), 0).expect("file for today");
    let expected = format!("{}[10:00:00] Hi\n[10:00:00] [粘贴] hello\n", header("10:00:00"));
    assert_eq!(content.as_str(), expected.as_str());
}

#[test]
fn paused_writes_leave_files_unchanged() {
    let mut lg = Logger::new(Vec::new());
    let c = clock(1_000_000, 9, 30, 0);
    lg.write_text_at("before", &c);
    lg.pause_at(&clock(1_001_000, 9, 30, 1));
    let len_before = lg.file_content(date(), 0).unwrap().as_bytes().len();
    lg.write_text_at("lost", &clock(1_002_000, 9, 30, 2));
    lg.write_text_at("also lost", &clock(1_003_000, 9, 30, 3));
    lg.handle_enter_at(&clock(1_004_000, 9, 30, 4));
    lg.write_paste_at("lost paste", &clock(1_005_000, 9, 30, 5));
    let len_after = lg.file_content(date(), 0).unwrap().as_bytes().len();
    assert_eq!(len_before, len_after);
    assert!(lg.is_paused());
}

#[test]
fn enter_gives_next_text_a_fresh_timestamp() {
    let mut lg = Logger::new(Vec::new());
    lg.write_text_at("A", &clock(1_000_000, 10, 0, 0));
    lg.handle_enter_at(&clock(1_001_000, 10, 0, 1));
    lg.write_text_at("B", &clock(1_002_000, 10, 0, 2));
    let content = lg.file_content(date(), 0).unwrap();
    let expected = format!("{}[10:00:00] A\n[10:00:02] B", header("10:00:00"));
    assert_eq!(content.as_str(), expected.as_str());
    let body = content.strip_prefix(header("10:00:00").as_str()).unwrap();
    let second_line = body.lines().nth(1).unwrap();
    assert!(second_line.starts_with("[10:00:02] "));
    assert_eq!(second_line, "[10:00:02] B");
}

#[test]
fn ctrl_enter_continues_the_paragraph_without_timestamp() {
    let mut lg = Logger::new(Vec::new());
    lg.write_text_at("x", &clock(1_000_000, 10, 0, 0));
    lg.handle_ctrl_enter_at(&clock(1_001_000, 10, 0, 1));
    lg.write_text_at("y", &clock(1_002_000, 10, 0, 2));
    let content = lg.file_content(date(), 0).unwrap();
    let expected = format!("{}[10:00:00] x\n          y", header("10:00:00"));
    assert_eq!(content.as_str(), expected.as_str());
}

#[test]
fn idle_timeout_inserts_fresh_timestamp() {
    let mut lg = Logger::new(Vec::new());
    lg.write_text_at("A", &clock(1_000_000, 10, 0, 0));
    lg.write_text_at("B", &clock(1_030_000, 10, 0, 30));
    let content = lg.file_content(date(), 0).unwrap();
    let expected = format!("{}[10:00:00] A\n[10:00:30] B", header("10:00:00"));
    assert_eq!(content.as_str(), expected.as_str());
}

#[test]
fn writes_within_timeout_share_one_timestamp() {
    let mut lg = Logger::new(Vec::new());
    lg.write_text_at("A", &clock(1_000_000, 10, 0, 0));
    lg.write_text_at("B", &clock(1_029_999, 10, 0, 29));
    let content = lg.file_content(date(), 0).unwrap();
    let expected = format!("{}[10:00:00] AB", header("10:00:00"));
    assert_eq!(content.as_str(), expected.as_str());
}

#[test]
fn two_new_segments_make_three_headered_files() {
    let mut lg = Logger::new(Vec::new());
    lg.write_text_at("first", &clock(1_000_000, 10, 0, 0));
    lg.new_segment_at(&clock(1_001_000, 10, 0, 1));
    lg.new_segment_at(&clock(1_002_000, 10, 0, 2));
    assert_eq!(lg.segment_number(), 2);
    let files = lg.files();
    assert_eq!(files.len(), 3);
    let seg0 = lg.file_content(date(), 0).unwrap();
    let seg1 = lg.file_content(date(), 1).unwrap();
    let seg2 = lg.file_content(date(), 2).unwrap();
    assert_eq!(
        seg0.as_str(),
        format!("{}[10:00:00] first", header("10:00:00")).as_str()
    );
    assert_eq!(seg1.as_str(), header("10:00:01").as_str());
    assert_eq!(seg2.as_str(), header("10:00:02").as_str());
}

#[test]
fn preexisting_file_gets_no_second_header() {
    let mut lg = Logger::new(vec![FileId { date: date(), segment: 0 }]);
    lg.write_text_at("A", &clock(1_000_000, 10, 0, 0));
    let content = lg.file_content(date(), 0).unwrap();
    assert_eq!(content.as_str(), "[10:00:00] A");
}

#[test]
fn pause_and_resume_write_marker_lines() {
    let mut lg = Logger::new(Vec::new());
    lg.write_text_at("A", &clock(1_000_000, 10, 0, 0));
    lg.pause_at(&clock(1_001_000, 10, 0, 1));
    lg.resume_at(&clock(1_002_000, 10, 0, 2));
    let content = lg.file_content(date(), 0).unwrap();
    let expected = format!(
        "{}[10:00:00] A\n[10:00:01] --- 暂停记录 ---\n[10:00:02] --- 恢复记录 ---\n",
        header("10:00:00")
    );
    assert_eq!(content.as_str(), expected.as_str());
    assert!(!lg.is_paused());
}

#[test]
fn pause_twice_writes_one_marker() {
    let mut lg = Logger::new(Vec::new());
    lg.pause_at(&clock(1_000_000, 10, 0, 0));
    let len = lg.file_content(date(), 0).unwrap().as_bytes().len();
    lg.pause_at(&clock(1_001_000, 10, 0, 1));
    assert_eq!(lg.file_content(date(), 0).unwrap().as_bytes().len(), len);
}

#[test]
fn toggle_pause_flips_state() {
    let mut lg = Logger::new(Vec::new());
    assert!(!lg.is_paused());
    assert!(lg.toggle_pause_at(&clock(1_000_000, 10, 0, 0)));
    assert!(lg.is_paused());
    assert!(!lg.toggle_pause_at(&clock(1_001_000, 10, 0, 1)));
    assert!(!lg.is_paused());
}

#[test]
fn set_paused_to_same_state_writes_nothing() {
    let mut lg = Logger::new(Vec::new());
    lg.set_paused_at(false, &clock(1_000_000, 10, 0, 0));
    assert!(lg.files().is_empty());
    lg.set_paused_at(true, &clock(1_001_000, 10, 0, 1));
    assert!(lg.is_paused());
    let len = lg.file_content(date(), 0).unwrap().as_bytes().len();
    lg.set_paused_at(true, &clock(1_002_000, 10, 0, 2));
    assert_eq!(lg.file_content(date(), 0).unwrap().as_bytes().len(), len);
}

#[test]
fn manual_save_line_has_its_own_tag() {
    let mut lg = Logger::new(Vec::new());
    lg.write_manual_save_at("note", &clock(1_000_000, 10, 0, 0));
    let content = lg.file_content(date(), 0).unwrap();
    let expected = format!("{}[10:00:00] [手动保存] note\n", header("10:00:00"));
    assert_eq!(content.as_str(), expected.as_str());
}

#[test]
fn paste_on_nonempty_line_breaks_first() {
    let mut lg = Logger::new(Vec::new());
    lg.write_text_at("Hi", &clock(1_000_000, 10, 0, 0));
    lg.write_paste_at("clip", &clock(1_001_000, 10, 0, 1));
    let content = lg.file_content(date(), 0).unwrap();
    let expected = format!("{}[10:00:00] Hi\n[10:00:01] [粘贴] clip\n", header("10:00:00"));
    assert_eq!(content.as_str(), expected.as_str());
}

#[test]
fn date_change_opens_new_file_and_resets_segment() {
    let mut lg = Logger::new(Vec::new());
    lg.write_text_at("A", &clock(1_000_000, 23, 59, 59));
    lg.new_segment_at(&clock(1_000_500, 23, 59, 59));
    assert_eq!(lg.segment_number(), 1);
    let next_day = Clock { ms: 2_000_000, year: 2024, month: 5, day: 7, hour: 0, minute: 0, second: 1 };
    lg.write_text_at("B", &next_day);
    assert_eq!(lg.segment_number(), 0);
    let d2 = LogDate { year: 2024, month: 5, day: 7 };
    let content = lg.file_content(d2, 0).unwrap();
    assert!(content.ends_with("[00:00:01] B"));
    assert!(lg.file_content(date(), 0).is_some());
    assert!(lg.file_content(date(), 1).is_some());
}

#[test]
fn logger_writes_with_the_real_clock() {
    let mut lg = Logger::default();
    lg.write_text("A");
    let files = lg.files();
    assert_eq!(files.len(), 1);
    let content = &files[0].content;
    assert!(content.ends_with("] A"));
    assert!(content.starts_with("================== EchoKey 日志 =================="));
    let paused = lg.toggle_pause();
    assert!(paused);
    assert!(lg.is_paused());
}
