//! Properties of the logging engine, proved over the spec-level model that
//! every `Logger` method is specified against.

use vstd::prelude::*;
use crate::clock::{Clock, LogDate, date_of, elapsed_ms};
use crate::config::IDLE_TIMEOUT_MS;
use crate::logger::{
    FileId, FileModel, LoggerModel, id_index, is_id, lemma_id_index, lemma_id_index_first,
    m_ensure_file, m_handle_ctrl_enter, m_handle_enter, m_new_segment, m_open_or_create, m_pause,
    m_resume, m_set_paused, m_toggle_pause, m_write_manual_save, m_write_paste, m_write_text,
    model_wf,
};
use crate::render::{header_chars, stamp_chars};

verus! {

/// A sequence of text writes, one clock reading each.
pub open spec fn m_write_texts(m: LoggerModel, texts: Seq<Seq<char>>, clocks: Seq<Clock>) -> LoggerModel
    recommends
        texts.len() == clocks.len(),
    decreases texts.len(),
{
    if texts.len() == 0 {
        m
    } else {
        m_write_texts(m_write_text(m, texts[0], clocks[0]), texts.drop_first(), clocks.drop_first())
    }
}

/// While capture is paused, writing any sequence of texts changes nothing:
/// every file keeps its content, so in particular its length.
pub proof fn lemma_paused_writes_change_nothing(
    m: LoggerModel,
    texts: Seq<Seq<char>>,
    clocks: Seq<Clock>,
)
    requires
        m.paused,
        texts.len() == clocks.len(),
    ensures
        m_write_texts(m, texts, clocks) == m,
    decreases texts.len(),
{
    if texts.len() > 0 {
        lemma_paused_writes_change_nothing(m, texts.drop_first(), clocks.drop_first());
    }
}

/// Writing a text, the return key, then a second text — all on one date, each
/// step within the idle timeout — gives the first text a fresh timestamp and
/// the second its own fresh timestamp at the start of a new line.
pub proof fn lemma_enter_round_trip(
    m: LoggerModel,
    i: int,
    t1: Seq<char>,
    t2: Seq<char>,
    c1: Clock,
    c2: Clock,
    c3: Clock,
)
    requires
        model_wf(m),
        !m.paused,
        m.line_empty,
        m.open_idx == Some(i),
        m.current_date == Some(date_of(c1)),
        date_of(c2) == date_of(c1),
        date_of(c3) == date_of(c1),
        elapsed_ms(c1.ms, c2.ms) < IDLE_TIMEOUT_MS,
        elapsed_ms(c2.ms, c3.ms) < IDLE_TIMEOUT_MS,
    ensures
        ({
            let m3 = m_write_text(m_handle_enter(m_write_text(m, t1, c1), c2), t2, c3);
            &&& m3.files[i].content =~= m.files[i].content + stamp_chars(c1) + t1 + "\n"@
                + stamp_chars(c3) + t2
            &&& !m3.line_empty
        }),
{
}

/// Ctrl with the return key followed by a text within the idle timeout makes
/// one logical paragraph: a line break, the indentation, then the text, with
/// no new timestamp in between.
pub proof fn lemma_ctrl_enter_paragraph(m: LoggerModel, i: int, t: Seq<char>, c1: Clock, c2: Clock)
    requires
        model_wf(m),
        !m.paused,
        !m.line_empty,
        m.open_idx == Some(i),
        m.current_date == Some(date_of(c1)),
        date_of(c2) == date_of(c1),
        elapsed_ms(c1.ms, c2.ms) < IDLE_TIMEOUT_MS,
    ensures
        ({
            let m2 = m_write_text(m_handle_ctrl_enter(m, c1), t, c2);
            m2.files[i].content =~= m.files[i].content + "\n          "@ + t
        }),
{
}

/// Two texts written at least the idle timeout apart each get their own
/// timestamp prefix, with no return key in between.
pub proof fn lemma_idle_timeout_fresh_stamp(
    m: LoggerModel,
    i: int,
    t1: Seq<char>,
    t2: Seq<char>,
    c1: Clock,
    c2: Clock,
)
    requires
        model_wf(m),
        !m.paused,
        m.line_empty,
        m.open_idx == Some(i),
        m.current_date == Some(date_of(c1)),
        date_of(c2) == date_of(c1),
        elapsed_ms(c1.ms, c2.ms) >= IDLE_TIMEOUT_MS,
    ensures
        ({
            let m2 = m_write_text(m_write_text(m, t1, c1), t2, c2);
            m2.files[i].content =~= m.files[i].content + stamp_chars(c1) + t1 + "\n"@
                + stamp_chars(c2) + t2
        }),
{
}

/// Appending a file moves no existing key and makes the new one findable.
pub proof fn lemma_id_index_push(files: Seq<FileModel>, f: FileModel, d: LogDate, seg: u32)
    ensures
        id_index(files.push(f), d, seg) == (if id_index(files, d, seg) != -1 {
            id_index(files, d, seg)
        } else if is_id(f, d, seg) {
            files.len() as int
        } else {
            -1
        }),
{
    let fp = files.push(f);
    lemma_id_index(files, d, seg);
    let r0 = id_index(files, d, seg);
    if r0 != -1 {
        lemma_id_index_first(fp, d, seg, r0);
    } else if is_id(f, d, seg) {
        lemma_id_index_first(fp, d, seg, files.len() as int);
    } else {
        lemma_id_index_first(fp, d, seg, fp.len() as int);
    }
}

/// Replacing a file's content, keeping its key, moves no lookup.
pub proof fn lemma_id_index_update_same_id(
    files: Seq<FileModel>,
    i: int,
    g: FileModel,
    d: LogDate,
    seg: u32,
)
    requires
        0 <= i < files.len(),
        g.date == files[i].date,
        g.segment == files[i].segment,
    ensures
        id_index(files.update(i, g), d, seg) == id_index(files, d, seg),
{
    let fu = files.update(i, g);
    lemma_id_index(files, d, seg);
    assert(forall|k: int|
        0 <= k < files.len() ==> is_id(#[trigger] fu[k], d, seg) == is_id(files[k], d, seg));
    let r0 = id_index(files, d, seg);
    if r0 != -1 {
        lemma_id_index_first(fu, d, seg, r0);
    } else {
        lemma_id_index_first(fu, d, seg, fu.len() as int);
    }
}

/// Starting a new segment twice on one date leaves three files, for segments
/// 0, 1 and 2, at three distinct positions; each of the two new files, being
/// empty at creation and not on disk before the run, holds exactly its own
/// run header.
pub proof fn lemma_two_new_segments(m: LoggerModel, d: LogDate, c1: Clock, c2: Clock)
    requires
        model_wf(m),
        m.current_date == Some(d),
        date_of(c1) == d,
        date_of(c2) == d,
        m.segment == 0,
        id_index(m.files, d, 0) != -1,
        id_index(m.files, d, 1) == -1,
        id_index(m.files, d, 2) == -1,
        forall|k: int| 0 <= k < m.preexisting.len() ==> m.preexisting[k] != (FileId {
            date: d,
            segment: 1u32,
        }),
        forall|k: int| 0 <= k < m.preexisting.len() ==> m.preexisting[k] != (FileId {
            date: d,
            segment: 2u32,
        }),
    ensures
        ({
            let m1 = m_new_segment(m, c1);
            let m2 = m_new_segment(m1, c2);
            let i0 = id_index(m.files, d, 0);
            let i1 = id_index(m2.files, d, 1);
            let i2 = id_index(m2.files, d, 2);
            &&& m2.segment == 2
            &&& id_index(m2.files, d, 0) == i0
            &&& i1 != -1
            &&& i2 != -1
            &&& i0 != i1 && i0 != i2 && i1 != i2
            &&& m2.files[i0].content == m.files[i0].content
            &&& m2.files[i1].content =~= header_chars(c1)
            &&& m2.files[i2].content =~= header_chars(c2)
        }),
{
    let i0 = id_index(m.files, d, 0);
    lemma_id_index(m.files, d, 0);
    let f1 = FileModel { date: d, segment: 1u32, content: Seq::empty() };
    let fs_a = m.files.push(f1);
    lemma_id_index_push(m.files, f1, d, 1);
    lemma_id_index_push(m.files, f1, d, 0);
    lemma_id_index_push(m.files, f1, d, 2);
    let g1 = FileModel { date: d, segment: 1u32, content: Seq::empty() + header_chars(c1) };
    let fs_b = fs_a.update(m.files.len() as int, g1);
    lemma_id_index_update_same_id(fs_a, m.files.len() as int, g1, d, 0);
    lemma_id_index_update_same_id(fs_a, m.files.len() as int, g1, d, 1);
    lemma_id_index_update_same_id(fs_a, m.files.len() as int, g1, d, 2);
    let m1 = m_new_segment(m, c1);
    assert(m1.files =~= fs_b);
    let f2 = FileModel { date: d, segment: 2u32, content: Seq::empty() };
    let fs_c = fs_b.push(f2);
    lemma_id_index_push(fs_b, f2, d, 0);
    lemma_id_index_push(fs_b, f2, d, 1);
    lemma_id_index_push(fs_b, f2, d, 2);
    let g2 = FileModel { date: d, segment: 2u32, content: Seq::empty() + header_chars(c2) };
    let fs_d = fs_c.update(fs_b.len() as int, g2);
    lemma_id_index_update_same_id(fs_c, fs_b.len() as int, g2, d, 0);
    lemma_id_index_update_same_id(fs_c, fs_b.len() as int, g2, d, 1);
    lemma_id_index_update_same_id(fs_c, fs_b.len() as int, g2, d, 2);
    let m2 = m_new_segment(m1, c2);
    assert(m2.files =~= fs_d);
    assert(m2.files[id_index(m2.files, d, 1)].content =~= header_chars(c1));
    assert(m2.files[id_index(m2.files, d, 2)].content =~= header_chars(c2));
}

/// One set of files extends another: no file is lost, none changes its key,
/// and what was written into each stays as a prefix of its new content.
pub open spec fn files_extend(a: Seq<FileModel>, b: Seq<FileModel>) -> bool {
    &&& a.len() <= b.len()
    &&& forall|i: int|
        0 <= i < a.len() ==> {
            &&& (#[trigger] b[i]).date == a[i].date
            &&& b[i].segment == a[i].segment
            &&& a[i].content.is_prefix_of(b[i].content)
        }
}

/// Extension is transitive.
pub proof fn lemma_files_extend_trans(a: Seq<FileModel>, b: Seq<FileModel>, c: Seq<FileModel>)
    requires
        files_extend(a, b),
        files_extend(b, c),
    ensures
        files_extend(a, c),
{
    assert forall|i: int| 0 <= i < a.len() implies {
        &&& (#[trigger] c[i]).date == a[i].date
        &&& c[i].segment == a[i].segment
        &&& a[i].content.is_prefix_of(c[i].content)
    } by {
        assert(a[i].content.is_prefix_of(b[i].content));
        assert(b[i].content.is_prefix_of(c[i].content));
        assert(a[i].content =~= c[i].content.subrange(0, a[i].content.len() as int));
    }
}

/// Opening a file only appends: a fresh file, and possibly a header.
pub proof fn lemma_open_extends(m: LoggerModel, c: Clock)
    requires
        model_wf(m),
    ensures
        files_extend(m.files, m_open_or_create(m, c).files),
        m_open_or_create(m, c).open_idx matches Some(i) && 0 <= i < m_open_or_create(
            m,
            c,
        ).files.len(),
{
    let d = match m.current_date {
        Some(d0) => d0,
        None => date_of(c),
    };
    lemma_id_index(m.files, d, m.segment);
}

/// Selecting today's file only appends, and leaves a file open.
pub proof fn lemma_ensure_extends(m: LoggerModel, c: Clock)
    requires
        model_wf(m),
        c.wf(),
    ensures
        files_extend(m.files, m_ensure_file(m, c).files),
        m_ensure_file(m, c).open_idx matches Some(i) && 0 <= i < m_ensure_file(m, c).files.len(),
{
    let today = date_of(c);
    if m.current_date != Some(today) {
        lemma_open_extends(
            LoggerModel {
                current_date: Some(today),
                segment: 0u32,
                header_written: false,
                open_idx: None::<int>,
                ..m
            },
            c,
        );
    } else if m.open_idx is None {
        lemma_open_extends(m, c);
    }
}

/// Bytes already written are never rewritten or truncated: whatever the
/// event, every file written so far keeps its content as a prefix of the new
/// content.
#[verifier::rlimit(100)]
pub proof fn lemma_events_append_only(m: LoggerModel, t: Seq<char>, p: bool, c: Clock)
    requires
        model_wf(m),
        c.wf(),
    ensures
        files_extend(m.files, m_write_text(m, t, c).files),
        files_extend(m.files, m_handle_enter(m, c).files),
        files_extend(m.files, m_handle_ctrl_enter(m, c).files),
        files_extend(m.files, m_write_paste(m, t, c).files),
        files_extend(m.files, m_write_manual_save(m, t, c).files),
        files_extend(m.files, m_new_segment(m, c).files),
        files_extend(m.files, m_pause(m, c).files),
        files_extend(m.files, m_resume(m, c).files),
        files_extend(m.files, m_toggle_pause(m, c).files),
        files_extend(m.files, m_set_paused(m, p, c).files),
{
    lemma_ensure_extends(m, c);
    lemma_ensure_extends(LoggerModel { paused: true, ..m }, c);
    lemma_ensure_extends(LoggerModel { paused: false, ..m }, c);
    lemma_open_extends(
        LoggerModel {
            open_idx: None::<int>,
            segment: (m.segment + 1) as u32,
            header_written: false,
            ..m
        },
        c,
    );
}

/// One new segment whose file already holds bytes on disk from before the
/// run: the file is reopened without a header, and its in-run content stays
/// empty.
pub proof fn lemma_new_segment_preexisting_no_header(m: LoggerModel, d: LogDate, c: Clock, k: int)
    requires
        model_wf(m),
        m.current_date == Some(d),
        date_of(c) == d,
        m.segment < u32::MAX,
        id_index(m.files, d, (m.segment + 1) as u32) == -1,
        0 <= k < m.preexisting.len(),
        m.preexisting[k] == (FileId { date: d, segment: (m.segment + 1) as u32 }),
    ensures
        ({
            let m1 = m_new_segment(m, c);
            let i1 = id_index(m1.files, d, (m.segment + 1) as u32);
            &&& i1 != -1
            &&& m1.files[i1].content =~= Seq::<char>::empty()
            &&& m1.header_written
        }),
{
    let seg1 = (m.segment + 1) as u32;
    let f1 = FileModel { date: d, segment: seg1, content: Seq::empty() };
    lemma_id_index_push(m.files, f1, d, seg1);
}

} // verus!
