//! The logging engine: a state machine that turns semantic events into
//! timestamped, date- and segment-partitioned log content.
//!
//! The logger holds the content of every file it has written during this run
//! in memory, and every mutating method is proved equal to a spec-level
//! transition on that model. The caller mirrors the in-memory appends to
//! disk; files that already held bytes on disk before this run are named at
//! construction, so the header decision matches what a resumed session sees.

use vstd::prelude::*;
use vstd::string::StringExecFns;
use crate::clock::{CLOCK_MS_BOUND, Clock, LogDate, date_of, elapsed_ms, now_clock};
use crate::config::IDLE_TIMEOUT_MS;
use crate::config;
use crate::render::{
    header_chars, header_block, paste_line_chars, paste_line, save_line_chars, save_line,
    pause_line_chars, pause_line, resume_line_chars, resume_line, stamp_chars, push_stamp,
};

verus! {

/// Names one log file: the calendar date it belongs to and the manual
/// segment number within that date.
#[derive(Debug, Clone, Copy, PartialEq, Eq, Structural)]
pub struct FileId {
    pub date: LogDate,
    pub segment: u32,
}

/// One log file written during this run, with the content appended so far.
pub struct LogFile {
    pub date: LogDate,
    pub segment: u32,
    pub content: String,
}

/// A log file as plain values.
#[verifier::ext_equal]
pub ghost struct FileModel {
    pub date: LogDate,
    pub segment: u32,
    pub content: Seq<char>,
}

impl View for LogFile {
    type V = FileModel;

    open spec fn view(&self) -> FileModel {
        FileModel { date: self.date, segment: self.segment, content: self.content@ }
    }
}

/// The logger's whole state as plain values; every mutating method of
/// `Logger` is specified as a transition on this model.
#[verifier::ext_equal]
pub ghost struct LoggerModel {
    /// Content written this run, keyed by (date, segment), at most one entry
    /// per key.
    pub files: Seq<FileModel>,
    /// Files that already held bytes on disk before this run started.
    pub preexisting: Seq<FileId>,
    /// The date of the file currently selected, advanced lazily on writes.
    pub current_date: Option<LogDate>,
    /// Index into `files` of the open file, when one is open.
    pub open_idx: Option<int>,
    /// The manual segment number within the current date.
    pub segment: u32,
    /// When the last text write happened, for the idle timeout.
    pub last_write_ms: Option<i64>,
    /// Whether nothing has been appended since the last line break.
    pub line_empty: bool,
    /// Whether events are currently discarded.
    pub paused: bool,
    /// Whether a run header was emitted into the currently open file.
    pub header_written: bool,
}

pub open spec fn is_id(f: FileModel, d: LogDate, seg: u32) -> bool {
    f.date == d && f.segment == seg
}

/// Index of the first file with the given date and segment, or -1.
pub open spec fn id_index(files: Seq<FileModel>, d: LogDate, seg: u32) -> int
    decreases files.len(),
{
    if files.len() == 0 {
        -1
    } else if is_id(files[0], d, seg) {
        0
    } else {
        let r = id_index(files.drop_first(), d, seg);
        if r == -1 {
            -1
        } else {
            r + 1
        }
    }
}

pub proof fn lemma_id_index(files: Seq<FileModel>, d: LogDate, seg: u32)
    ensures
        id_index(files, d, seg) == -1 ==> forall|i: int|
            0 <= i < files.len() ==> !is_id(#[trigger] files[i], d, seg),
        id_index(files, d, seg) != -1 ==> {
            let r = id_index(files, d, seg);
            &&& 0 <= r < files.len()
            &&& is_id(files[r], d, seg)
            &&& forall|i: int| 0 <= i < r ==> !is_id(#[trigger] files[i], d, seg)
        },
    decreases files.len(),
{
    if files.len() > 0 && !is_id(files[0], d, seg) {
        lemma_id_index(files.drop_first(), d, seg);
        assert(forall|i: int|
            1 <= i < files.len() ==> #[trigger] files[i] == files.drop_first()[i - 1]);
    }
}

/// When the first match sits at `j` (or there is none and `j` is the
/// length), `id_index` returns exactly that.
pub proof fn lemma_id_index_first(files: Seq<FileModel>, d: LogDate, seg: u32, j: int)
    requires
        0 <= j <= files.len(),
        forall|k: int| 0 <= k < j ==> !is_id(#[trigger] files[k], d, seg),
        j < files.len() ==> is_id(files[j], d, seg),
    ensures
        id_index(files, d, seg) == if j == files.len() {
            -1
        } else {
            j
        },
    decreases files.len(),
{
    if files.len() > 0 {
        if j == 0 {
        } else {
            assert(!is_id(files[0], d, seg));
            assert(forall|k: int|
                0 <= k < j - 1 ==> files.drop_first()[k] == #[trigger] files[k + 1]);
            assert(j - 1 < files.drop_first().len() ==> files.drop_first()[j - 1] == files[j]);
            lemma_id_index_first(files.drop_first(), d, seg, j - 1);
        }
    }
}

pub open spec fn model_wf(m: LoggerModel) -> bool {
    &&& (m.open_idx matches Some(i) ==> 0 <= i < m.files.len())
    &&& (forall|i: int, j: int|
        0 <= i < j < m.files.len() ==> !is_id(#[trigger] m.files[i], (#[trigger] m.files[j]).date,
            m.files[j].segment))
    &&& (forall|i: int| 0 <= i < m.files.len() ==> (#[trigger] m.files[i]).date.wf())
    &&& (m.current_date matches Some(d) ==> d.wf())
    &&& (m.last_write_ms matches Some(t) ==> -CLOCK_MS_BOUND <= t <= CLOCK_MS_BOUND)
}

/// Whether the file for (date, segment) would be found on disk with content
/// in it: either it predates this run, or this run has appended to it.
pub open spec fn spec_has_disk_content(m: LoggerModel, d: LogDate, seg: u32) -> bool {
    ||| exists|k: int|
        0 <= k < m.preexisting.len() && m.preexisting[k] == (FileId { date: d, segment: seg })
    ||| {
        let i = id_index(m.files, d, seg);
        i != -1 && m.files[i].content.len() > 0
    }
}

/// The date whose file an open targets: the selected date, or today when
/// none is selected yet.
pub open spec fn spec_open_target(m: LoggerModel, c: Clock) -> LogDate {
    match m.current_date {
        Some(d) => d,
        None => date_of(c),
    }
}

/// Opening the file for (target date, segment): the file is created empty if
/// this run has not touched it, and a run header is written exactly when the
/// file would be empty on disk and no header was written into the current
/// selection yet. The opened file starts on an empty line.
pub open spec fn m_open_or_create(m: LoggerModel, c: Clock) -> LoggerModel {
    let d = spec_open_target(m, c);
    let seg = m.segment;
    let i0 = id_index(m.files, d, seg);
    let files1 = if i0 == -1 {
        m.files.push(FileModel { date: d, segment: seg, content: Seq::empty() })
    } else {
        m.files
    };
    let i = if i0 == -1 {
        m.files.len() as int
    } else {
        i0
    };
    let has_content = spec_has_disk_content(m, d, seg);
    let write_header = !has_content && !m.header_written;
    let files2 = if write_header {
        files1.update(
            i,
            FileModel { content: files1[i].content + header_chars(c), ..files1[i] },
        )
    } else {
        files1
    };
    LoggerModel {
        files: files2,
        open_idx: Some(i),
        line_empty: true,
        header_written: m.header_written || write_header || has_content,
        ..m
    }
}

/// Making sure the right file is open for today: a date change resets the
/// segment to zero and opens a new file; otherwise a file is opened only if
/// none is.
pub open spec fn m_ensure_file(m: LoggerModel, c: Clock) -> LoggerModel {
    let today = date_of(c);
    if m.current_date != Some(today) {
        m_open_or_create(
            LoggerModel {
                current_date: Some(today),
                segment: 0u32,
                header_written: false,
                open_idx: None::<int>,
                ..m
            },
            c,
        )
    } else if m.open_idx is None {
        m_open_or_create(m, c)
    } else {
        m
    }
}

/// Appending text to the open file.
pub open spec fn m_append(m: LoggerModel, t: Seq<char>) -> LoggerModel
    recommends
        m.open_idx matches Some(i) && 0 <= i < m.files.len(),
{
    let i = match m.open_idx {
        Some(i) => i,
        None => 0,
    };
    LoggerModel {
        files: m.files.update(i, FileModel { content: m.files[i].content + t, ..m.files[i] }),
        ..m
    }
}

/// A fresh timestamp is due when the line is empty, or when the idle timeout
/// has passed since the last write.
pub open spec fn m_should_stamp(m: LoggerModel, c: Clock) -> bool {
    ||| m.line_empty
    ||| (match m.last_write_ms {
        Some(t) => elapsed_ms(t, c.ms) >= IDLE_TIMEOUT_MS,
        None => false,
    })
}

/// Writing text: when paused, nothing changes; otherwise the right file is
/// opened, and the text is appended, preceded — when a fresh timestamp is due
/// — by a line break (unless the line is empty) and a timestamp prefix.
pub open spec fn m_write_text(m: LoggerModel, t: Seq<char>, c: Clock) -> LoggerModel {
    if m.paused {
        m
    } else {
        let m1 = m_ensure_file(m, c);
        let stamp = m_should_stamp(m1, c);
        let add = if stamp {
            (if !m1.line_empty {
                "\n"@
            } else {
                Seq::<char>::empty()
            }) + stamp_chars(c) + t
        } else {
            t
        };
        let m2 = m_append(m1, add);
        LoggerModel {
            line_empty: if stamp {
                false
            } else {
                m1.line_empty
            },
            last_write_ms: Some(c.ms),
            ..m2
        }
    }
}

/// The return key: a line break; the next text gets a fresh timestamp.
pub open spec fn m_handle_enter(m: LoggerModel, c: Clock) -> LoggerModel {
    if m.paused {
        m
    } else {
        let m1 = m_ensure_file(m, c);
        let m2 = m_append(m1, "\n"@);
        LoggerModel { line_empty: true, last_write_ms: Some(c.ms), ..m2 }
    }
}

/// Ctrl with the return key: a line break and indentation aligned with the
/// timestamp prefix; the line is deliberately not marked empty, so the next
/// text continues the same logical timestamp context.
pub open spec fn m_handle_ctrl_enter(m: LoggerModel, c: Clock) -> LoggerModel {
    if m.paused {
        m
    } else {
        let m1 = m_ensure_file(m, c);
        let m2 = m_append(m1, "\n          "@);
        LoggerModel { last_write_ms: Some(c.ms), ..m2 }
    }
}

/// Pasted content: always starts on a fresh line, written as one fully
/// timestamped, tagged line.
pub open spec fn m_write_paste(m: LoggerModel, t: Seq<char>, c: Clock) -> LoggerModel {
    if m.paused {
        m
    } else {
        let m1 = m_ensure_file(m, c);
        let add = (if !m1.line_empty {
            "\n"@
        } else {
            Seq::<char>::empty()
        }) + paste_line_chars(c, t);
        let m2 = m_append(m1, add);
        LoggerModel { line_empty: true, last_write_ms: Some(c.ms), ..m2 }
    }
}

/// Manually saved content: like a paste, with its own tag.
pub open spec fn m_write_manual_save(m: LoggerModel, t: Seq<char>, c: Clock) -> LoggerModel {
    if m.paused {
        m
    } else {
        let m1 = m_ensure_file(m, c);
        let add = (if !m1.line_empty {
            "\n"@
        } else {
            Seq::<char>::empty()
        }) + save_line_chars(c, t);
        let m2 = m_append(m1, add);
        LoggerModel { line_empty: true, last_write_ms: Some(c.ms), ..m2 }
    }
}

/// A manual segment: the current file is closed and the next segment's file
/// is opened, with a header of its own if it is new.
pub open spec fn m_new_segment(m: LoggerModel, c: Clock) -> LoggerModel {
    m_open_or_create(
        LoggerModel {
            open_idx: None::<int>,
            segment: (m.segment + 1) as u32,
            header_written: false,
            ..m
        },
        c,
    )
}

/// Pausing: a no-op when already paused; otherwise capture stops and a
/// marker line is written, on a fresh line.
pub open spec fn m_pause(m: LoggerModel, c: Clock) -> LoggerModel {
    if m.paused {
        m
    } else {
        let m1 = m_ensure_file(LoggerModel { paused: true, ..m }, c);
        let add = (if !m1.line_empty {
            "\n"@
        } else {
            Seq::<char>::empty()
        }) + pause_line_chars(c);
        let m2 = m_append(m1, add);
        LoggerModel { line_empty: true, ..m2 }
    }
}

/// Resuming: a no-op when not paused; otherwise capture restarts and a
/// marker line is written.
pub open spec fn m_resume(m: LoggerModel, c: Clock) -> LoggerModel {
    if !m.paused {
        m
    } else {
        let m1 = m_ensure_file(LoggerModel { paused: false, ..m }, c);
        let m2 = m_append(m1, resume_line_chars(c));
        LoggerModel { line_empty: true, ..m2 }
    }
}

pub open spec fn m_toggle_pause(m: LoggerModel, c: Clock) -> LoggerModel {
    if m.paused {
        m_resume(m, c)
    } else {
        m_pause(m, c)
    }
}

pub open spec fn m_set_paused(m: LoggerModel, paused: bool, c: Clock) -> LoggerModel {
    if paused != m.paused {
        if paused {
            m_pause(m, c)
        } else {
            m_resume(m, c)
        }
    } else {
        m
    }
}

/// The state of a logger that has done nothing yet.
pub open spec fn m_initial(preexisting: Seq<FileId>) -> LoggerModel {
    LoggerModel {
        files: Seq::<FileModel>::empty(),
        preexisting: preexisting,
        current_date: None::<LogDate>,
        open_idx: None::<int>,
        segment: 0u32,
        last_write_ms: None::<i64>,
        line_empty: true,
        paused: false,
        header_written: false,
    }
}

/// The log writer. It renders events into in-memory file content; the caller
/// mirrors appends to disk.
pub struct Logger {
    files: Vec<LogFile>,
    preexisting: Vec<FileId>,
    current_date: Option<LogDate>,
    open_idx: Option<usize>,
    segment_number: u32,
    last_write_ms: Option<i64>,
    current_line_empty: bool,
    paused: bool,
    header_written: bool,
}

impl View for Logger {
    type V = LoggerModel;

    closed spec fn view(&self) -> LoggerModel {
        LoggerModel {
            files: Seq::new(self.files@.len(), |i: int| self.files@[i]@),
            preexisting: self.preexisting@,
            current_date: self.current_date,
            open_idx: match self.open_idx {
                Some(i) => Some(i as int),
                None => None,
            },
            segment: self.segment_number,
            last_write_ms: self.last_write_ms,
            line_empty: self.current_line_empty,
            paused: self.paused,
            header_written: self.header_written,
        }
    }
}

fn find_file(files: &Vec<LogFile>, d: LogDate, seg: u32) -> (r: Option<usize>)
    ensures
        match r {
            Some(i) => id_index(Seq::new(files@.len(), |k: int| files@[k]@), d, seg) == i
                && i < files@.len(),
            None => id_index(Seq::new(files@.len(), |k: int| files@[k]@), d, seg) == -1,
        },
{
    let ghost fs = Seq::new(files@.len(), |k: int| files@[k]@);
    let mut j: usize = 0;
    while j < files.len()
        invariant
            j <= files@.len(),
            fs == Seq::new(files@.len(), |k: int| files@[k]@),
            forall|k: int| 0 <= k < j ==> !is_id(#[trigger] fs[k], d, seg),
        decreases files@.len() - j,
    {
        let f = &files[j];
        if f.date == d && f.segment == seg {
            proof {
                lemma_id_index_first(fs, d, seg, j as int);
            }
            return Some(j);
        }
        j = j + 1;
    }
    proof {
        lemma_id_index_first(fs, d, seg, j as int);
    }
    None
}

fn preexisting_contains(pre: &Vec<FileId>, d: LogDate, seg: u32) -> (r: bool)
    ensures
        r == exists|k: int|
            0 <= k < pre@.len() && pre@[k] == (FileId { date: d, segment: seg }),
{
    let mut j: usize = 0;
    while j < pre.len()
        invariant
            j <= pre@.len(),
            forall|k: int| 0 <= k < j ==> pre@[k] != (FileId { date: d, segment: seg }),
        decreases pre@.len() - j,
    {
        let f = &pre[j];
        if f.date == d && f.segment == seg {
            assert(pre@[j as int] == (FileId { date: d, segment: seg }));
            return true;
        }
        j = j + 1;
    }
    false
}

impl Logger {
    /// The logger's internal invariant: the open index is in range, files are
    /// keyed uniquely by (date, segment), and dates and times are
    /// well-formed.
    pub open spec fn inv(&self) -> bool {
        model_wf(self@)
    }

    /// A fresh logger. `preexisting` names the files that already hold bytes
    /// on disk, so that reopening one of them does not write a second header.
    pub fn new(preexisting: Vec<FileId>) -> (l: Logger)
        ensures
            l.inv(),
            l@ == m_initial(preexisting@),
    {
        let l = Logger {
            files: Vec::new(),
            preexisting,
            current_date: None,
            open_idx: None,
            segment_number: 0,
            last_write_ms: None,
            current_line_empty: true,
            paused: false,
            header_written: false,
        };
        proof {
            assert(l@ =~~= m_initial(l.preexisting@));
        }
        l
    }

    fn open_or_create_file(&mut self, c: &Clock)
        requires
            old(self).inv(),
            c.wf(),
        ensures
            final(self).inv(),
            final(self)@ == m_open_or_create(old(self)@, *c),
    {
        let ghost m0 = self@;
        let d = match self.current_date {
            Some(d) => d,
            None => c.date(),
        };
        let seg = self.segment_number;
        proof {
            lemma_id_index(m0.files, d, seg);
        }
        let i: usize = match find_file(&self.files, d, seg) {
            Some(i) => i,
            None => {
                let i = self.files.len();
                self.files.push(LogFile { date: d, segment: seg, content: String::new() });
                i
            },
        };
        proof {
            assert(Seq::new(self.files@.len(), |k: int| self.files@[k]@) =~~= (
            if id_index(m0.files, d, seg) == -1 {
                m0.files.push(FileModel { date: d, segment: seg, content: Seq::empty() })
            } else {
                m0.files
            }));
        }
        let has_content = preexisting_contains(&self.preexisting, d, seg) || !self.files[
            i
        ].content.as_str().is_empty();
        assert(has_content == spec_has_disk_content(m0, d, seg));
        if !has_content && !self.header_written {
            let h = header_block(c);
            let f = &mut self.files[i];
            f.content.append(h.as_str());
            self.header_written = true;
        } else if has_content {
            self.header_written = true;
        }
        self.open_idx = Some(i);
        self.current_line_empty = true;
        proof {
            assert(self@ =~~= m_open_or_create(m0, *c));
        }
    }

    fn ensure_file(&mut self, c: &Clock)
        requires
            old(self).inv(),
            c.wf(),
        ensures
            final(self).inv(),
            final(self)@ == m_ensure_file(old(self)@, *c),
    {
        let today = c.date();
        let same = match self.current_date {
            Some(d) => d == today,
            None => false,
        };
        if !same {
            self.current_date = Some(today);
            self.segment_number = 0;
            self.header_written = false;
            self.open_idx = None;
            self.open_or_create_file(c);
        } else if self.open_idx.is_none() {
            self.open_or_create_file(c);
        }
    }

    fn append_current(&mut self, t: &str)
        requires
            old(self).inv(),
            old(self)@.open_idx is Some,
        ensures
            final(self).inv(),
            final(self)@ == m_append(old(self)@, t@),
    {
        let i = self.open_idx.unwrap();
        let f = &mut self.files[i];
        f.content.append(t);
        proof {
            assert(self@ =~~= m_append(old(self)@, t@));
        }
    }

    fn should_add_timestamp(&self, c: &Clock) -> (r: bool)
        requires
            self.inv(),
            c.wf(),
        ensures
            r == m_should_stamp(self@, *c),
    {
        if self.current_line_empty {
            return true;
        }
        match self.last_write_ms {
            Some(t) => {
                let elapsed: i64 = if c.ms >= t {
                    c.ms - t
                } else {
                    0
                };
                elapsed >= IDLE_TIMEOUT_MS as i64
            },
            None => false,
        }
    }

    /// Writes text for a given clock reading, exactly as `m_write_text`
    /// describes: nothing while paused; otherwise the text goes to today's
    /// file, preceded by a line break and a fresh `[HH:MM:SS] ` prefix when
    /// one is due.
    pub fn write_text_at(&mut self, text: &str, c: &Clock)
        requires
            old(self).inv(),
            c.wf(),
        ensures
            final(self).inv(),
            final(self)@ == m_write_text(old(self)@, text@, *c),
    {
        if self.paused {
            return;
        }
        self.ensure_file(c);
        let ghost m1 = self@;
        let stamp = self.should_add_timestamp(c);
        if stamp {
            if !self.current_line_empty {
                self.append_current("\n");
            }
            let mut pre = String::new();
            push_stamp(&mut pre, c);
            self.append_current(pre.as_str());
            self.current_line_empty = false;
        }
        self.append_current(text);
        self.last_write_ms = Some(c.ms);
        proof {
            assert(final(self)@ =~~= m_write_text(old(self)@, text@, *c));
        }
    }

    /// Handles the return key for a given clock reading, as `m_handle_enter`
    /// describes: a line break; the next text gets a fresh timestamp.
    pub fn handle_enter_at(&mut self, c: &Clock)
        requires
            old(self).inv(),
            c.wf(),
        ensures
            final(self).inv(),
            final(self)@ == m_handle_enter(old(self)@, *c),
    {
        if self.paused {
            return;
        }
        self.ensure_file(c);
        self.append_current("\n");
        self.current_line_empty = true;
        self.last_write_ms = Some(c.ms);
        proof {
            assert(final(self)@ =~~= m_handle_enter(old(self)@, *c));
        }
    }

    /// Handles Ctrl+Return for a given clock reading, as
    /// `m_handle_ctrl_enter` describes: a line break and indentation, with no
    /// fresh timestamp on the next text.
    pub fn handle_ctrl_enter_at(&mut self, c: &Clock)
        requires
            old(self).inv(),
            c.wf(),
        ensures
            final(self).inv(),
            final(self)@ == m_handle_ctrl_enter(old(self)@, *c),
    {
        if self.paused {
            return;
        }
        self.ensure_file(c);
        self.append_current("\n          ");
        self.last_write_ms = Some(c.ms);
        proof {
            assert(final(self)@ =~~= m_handle_ctrl_enter(old(self)@, *c));
        }
    }

    /// Writes pasted content for a given clock reading, as `m_write_paste`
    /// describes: one fully timestamped, tagged line, on a fresh line.
    pub fn write_paste_at(&mut self, content: &str, c: &Clock)
        requires
            old(self).inv(),
            c.wf(),
        ensures
            final(self).inv(),
            final(self)@ == m_write_paste(old(self)@, content@, *c),
    {
        if self.paused {
            return;
        }
        self.ensure_file(c);
        if !self.current_line_empty {
            self.append_current("\n");
        }
        let line = paste_line(c, content);
        self.append_current(line.as_str());
        self.current_line_empty = true;
        self.last_write_ms = Some(c.ms);
        proof {
            assert(final(self)@ =~~= m_write_paste(old(self)@, content@, *c));
        }
    }

    /// Writes manually saved content for a given clock reading, as
    /// `m_write_manual_save` describes.
    pub fn write_manual_save_at(&mut self, content: &str, c: &Clock)
        requires
            old(self).inv(),
            c.wf(),
        ensures
            final(self).inv(),
            final(self)@ == m_write_manual_save(old(self)@, content@, *c),
    {
        if self.paused {
            return;
        }
        self.ensure_file(c);
        if !self.current_line_empty {
            self.append_current("\n");
        }
        let line = save_line(c, content);
        self.append_current(line.as_str());
        self.current_line_empty = true;
        self.last_write_ms = Some(c.ms);
        proof {
            assert(final(self)@ =~~= m_write_manual_save(old(self)@, content@, *c));
        }
    }

    /// Starts a new segment for a given clock reading, as `m_new_segment`
    /// describes: the current file is closed, the segment number steps up,
    /// and the next segment's file is opened.
    pub fn new_segment_at(&mut self, c: &Clock)
        requires
            old(self).inv(),
            c.wf(),
            old(self)@.segment < u32::MAX,
        ensures
            final(self).inv(),
            final(self)@ == m_new_segment(old(self)@, *c),
    {
        self.open_idx = None;
        self.segment_number = self.segment_number + 1;
        self.header_written = false;
        self.open_or_create_file(c);
        proof {
            assert(final(self)@ =~~= m_new_segment(old(self)@, *c));
        }
    }

    /// Pauses capture for a given clock reading, as `m_pause` describes: a
    /// no-op when already paused, otherwise a marker line is written.
    pub fn pause_at(&mut self, c: &Clock)
        requires
            old(self).inv(),
            c.wf(),
        ensures
            final(self).inv(),
            final(self)@ == m_pause(old(self)@, *c),
    {
        if !self.paused {
            self.paused = true;
            self.ensure_file(c);
            if !self.current_line_empty {
                self.append_current("\n");
            }
            let line = pause_line(c);
            self.append_current(line.as_str());
            self.current_line_empty = true;
            proof {
                assert(final(self)@ =~~= m_pause(old(self)@, *c));
            }
        }
    }

    /// Resumes capture for a given clock reading, as `m_resume` describes: a
    /// no-op when not paused, otherwise a marker line is written.
    pub fn resume_at(&mut self, c: &Clock)
        requires
            old(self).inv(),
            c.wf(),
        ensures
            final(self).inv(),
            final(self)@ == m_resume(old(self)@, *c),
    {
        if self.paused {
            self.paused = false;
            self.ensure_file(c);
            let line = resume_line(c);
            self.append_current(line.as_str());
            self.current_line_empty = true;
            proof {
                assert(final(self)@ =~~= m_resume(old(self)@, *c));
            }
        }
    }

    /// Flips between paused and running for a given clock reading and
    /// reports the new state.
    pub fn toggle_pause_at(&mut self, c: &Clock) -> (paused: bool)
        requires
            old(self).inv(),
            c.wf(),
        ensures
            final(self).inv(),
            final(self)@ == m_toggle_pause(old(self)@, *c),
            paused == !old(self)@.paused,
    {
        if self.paused {
            self.resume_at(c);
        } else {
            self.pause_at(c);
        }
        self.paused
    }

    /// Moves to the given paused state for a given clock reading, writing
    /// the matching marker only on an actual change.
    pub fn set_paused_at(&mut self, paused: bool, c: &Clock)
        requires
            old(self).inv(),
            c.wf(),
        ensures
            final(self).inv(),
            final(self)@ == m_set_paused(old(self)@, paused, *c),
    {
        if paused != self.paused {
            if paused {
                self.pause_at(c);
            } else {
                self.resume_at(c);
            }
        }
    }

    /// Whether capture is paused.
    pub fn is_paused(&self) -> (r: bool)
        ensures
            r == self@.paused,
    {
        self.paused
    }

    /// The current manual segment number.
    pub fn segment_number(&self) -> (r: u32)
        ensures
            r == self@.segment,
    {
        self.segment_number
    }

    /// The files written during this run.
    pub fn files(&self) -> (r: &Vec<LogFile>)
        ensures
            r@.len() == self@.files.len(),
            forall|i: int| 0 <= i < r@.len() ==> (#[trigger] r@[i])@ == self@.files[i],
    {
        &self.files
    }

    /// The content written this run to the file for (date, segment), if this
    /// run has touched it.
    pub fn file_content(&self, d: LogDate, seg: u32) -> (r: Option<&String>)
        ensures
            match r {
                Some(s) => {
                    let i = id_index(self@.files, d, seg);
                    i != -1 && s@ == self@.files[i].content
                },
                None => id_index(self@.files, d, seg) == -1,
            },
    {
        match find_file(&self.files, d, seg) {
            Some(i) => Some(&self.files[i].content),
            None => None,
        }
    }

    /// The directory all log files go under.
    pub fn get_log_directory(&self) -> (r: String)
        ensures
            r@.len() >= "/EchoKey/logs"@.len(),
            r@.subrange(r@.len() - "/EchoKey/logs"@.len(), r@.len() as int) == "/EchoKey/logs"@,
    {
        config::get_log_directory()
    }

    /// Writes text at the wall clock's current reading.
    pub fn write_text(&mut self, text: &str)
        requires
            old(self).inv(),
        ensures
            final(self).inv(),
            exists|c: Clock| c.wf() && final(self)@ == #[trigger] m_write_text(
                old(self)@,
                text@,
                c,
            ),
    {
        let c = now_clock();
        self.write_text_at(text, &c);
        proof {
            assert(c.wf() && final(self)@ == m_write_text(old(self)@, text@, c));
        }
    }

    /// Handles the return key at the wall clock's current reading.
    pub fn handle_enter(&mut self)
        requires
            old(self).inv(),
        ensures
            final(self).inv(),
            exists|c: Clock| c.wf() && final(self)@ == #[trigger] m_handle_enter(old(self)@, c),
    {
        let c = now_clock();
        self.handle_enter_at(&c);
        proof {
            assert(c.wf() && final(self)@ == m_handle_enter(old(self)@, c));
        }
    }

    /// Handles Ctrl+Return at the wall clock's current reading.
    pub fn handle_ctrl_enter(&mut self)
        requires
            old(self).inv(),
        ensures
            final(self).inv(),
            exists|c: Clock| c.wf() && final(self)@ == #[trigger] m_handle_ctrl_enter(
                old(self)@,
                c,
            ),
    {
        let c = now_clock();
        self.handle_ctrl_enter_at(&c);
        proof {
            assert(c.wf() && final(self)@ == m_handle_ctrl_enter(old(self)@, c));
        }
    }

    /// Writes pasted content at the wall clock's current reading.
    pub fn write_paste(&mut self, content: &str)
        requires
            old(self).inv(),
        ensures
            final(self).inv(),
            exists|c: Clock| c.wf() && final(self)@ == #[trigger] m_write_paste(
                old(self)@,
                content@,
                c,
            ),
    {
        let c = now_clock();
        self.write_paste_at(content, &c);
        proof {
            assert(c.wf() && final(self)@ == m_write_paste(old(self)@, content@, c));
        }
    }

    /// Writes manually saved content at the wall clock's current reading.
    pub fn write_manual_save(&mut self, content: &str)
        requires
            old(self).inv(),
        ensures
            final(self).inv(),
            exists|c: Clock| c.wf() && final(self)@ == #[trigger] m_write_manual_save(
                old(self)@,
                content@,
                c,
            ),
    {
        let c = now_clock();
        self.write_manual_save_at(content, &c);
        proof {
            assert(c.wf() && final(self)@ == m_write_manual_save(old(self)@, content@, c));
        }
    }

    /// Starts a new segment at the wall clock's current reading.
    pub fn new_segment(&mut self)
        requires
            old(self).inv(),
            old(self)@.segment < u32::MAX,
        ensures
            final(self).inv(),
            exists|c: Clock| c.wf() && final(self)@ == #[trigger] m_new_segment(old(self)@, c),
    {
        let c = now_clock();
        self.new_segment_at(&c);
        proof {
            assert(c.wf() && final(self)@ == m_new_segment(old(self)@, c));
        }
    }

    /// Pauses capture at the wall clock's current reading.
    pub fn pause(&mut self)
        requires
            old(self).inv(),
        ensures
            final(self).inv(),
            exists|c: Clock| c.wf() && final(self)@ == #[trigger] m_pause(old(self)@, c),
    {
        let c = now_clock();
        self.pause_at(&c);
        proof {
            assert(c.wf() && final(self)@ == m_pause(old(self)@, c));
        }
    }

    /// Resumes capture at the wall clock's current reading.
    pub fn resume(&mut self)
        requires
            old(self).inv(),
        ensures
            final(self).inv(),
            exists|c: Clock| c.wf() && final(self)@ == #[trigger] m_resume(old(self)@, c),
    {
        let c = now_clock();
        self.resume_at(&c);
        proof {
            assert(c.wf() && final(self)@ == m_resume(old(self)@, c));
        }
    }

    /// Flips between paused and running at the wall clock's current reading
    /// and reports the new state.
    pub fn toggle_pause(&mut self) -> (paused: bool)
        requires
            old(self).inv(),
        ensures
            final(self).inv(),
            exists|c: Clock| c.wf() && final(self)@ == #[trigger] m_toggle_pause(old(self)@, c),
            paused == !old(self)@.paused,
    {
        let c = now_clock();
        let r = self.toggle_pause_at(&c);
        proof {
            assert(c.wf() && final(self)@ == m_toggle_pause(old(self)@, c));
        }
        r
    }

    /// Moves to the given paused state at the wall clock's current reading.
    pub fn set_paused(&mut self, paused: bool)
        requires
            old(self).inv(),
        ensures
            final(self).inv(),
            exists|c: Clock| c.wf() && final(self)@ == #[trigger] m_set_paused(
                old(self)@,
                paused,
                c,
            ),
    {
        let c = now_clock();
        self.set_paused_at(paused, &c);
        proof {
            assert(c.wf() && final(self)@ == m_set_paused(old(self)@, paused, c));
        }
    }
}

impl Default for Logger {
    /// A fresh logger that treats every file as new.
    fn default() -> (l: Logger)
        ensures
            l.inv(),
            l@ == m_initial(Seq::<FileId>::empty()),
    {
        let l = Logger::new(Vec::new());
        proof {
            assert(l@ =~~= m_initial(Seq::<FileId>::empty()));
        }
        l
    }
}

} // verus!
