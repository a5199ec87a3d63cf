//! Rendering of log text: decimal numbers, timestamps, file names, and the
//! fixed lines of the log format.
//!
//! Every executable function here is proved to append exactly the character
//! sequence its spec function describes, so the logger's contracts can state
//! file content to the character.

use vstd::prelude::*;
use vstd::string::StringExecFns;
use crate::clock::{Clock, LogDate, date_of};

verus! {

/// Relies on String::push: appends the given character to the end of the
/// string.
#[verifier::external_body]
fn push_char(s: &mut String, c: char)
    ensures
        final(s)@ == old(s)@ + seq![c],
{
    s.push(c);
}

/// A single character as an owned string.
pub fn char_to_string(c: char) -> (r: String)
    ensures
        r@ == seq![c],
{
    let mut s = String::new();
    push_char(&mut s, c);
    proof {
        assert(s@ =~= seq![c]);
    }
    s
}

pub open spec fn digit_char(d: nat) -> char {
    if d == 0 {
        '0'
    } else if d == 1 {
        '1'
    } else if d == 2 {
        '2'
    } else if d == 3 {
        '3'
    } else if d == 4 {
        '4'
    } else if d == 5 {
        '5'
    } else if d == 6 {
        '6'
    } else if d == 7 {
        '7'
    } else if d == 8 {
        '8'
    } else {
        '9'
    }
}

/// Decimal digits of `n`, most significant first, no padding.
pub open spec fn dec_chars(n: nat) -> Seq<char>
    decreases n,
{
    if n < 10 {
        seq![digit_char(n)]
    } else {
        dec_chars(n / 10).push(digit_char(n % 10))
    }
}

/// `n` zero-padded to two digits; for `n < 100` only.
pub open spec fn dec2_chars(n: nat) -> Seq<char> {
    seq![digit_char(n / 10), digit_char(n % 10)]
}

/// `n` zero-padded to four digits; for `n < 10000` only.
pub open spec fn dec4_chars(n: nat) -> Seq<char> {
    seq![
        digit_char(n / 1000),
        digit_char(n / 100 % 10),
        digit_char(n / 10 % 10),
        digit_char(n % 10),
    ]
}

/// A year as the log format writes it: zero-padded to four digits in the
/// common range, plain decimal with a sign otherwise.
pub open spec fn year_chars(y: int) -> Seq<char> {
    if 0 <= y <= 9999 {
        dec4_chars(y as nat)
    } else if y < 0 {
        seq!['-'] + dec_chars((-y) as nat)
    } else {
        dec_chars(y as nat)
    }
}

/// A date as `YYYY-MM-DD`.
pub open spec fn date_chars(d: LogDate) -> Seq<char> {
    year_chars(d.year as int) + seq!['-'] + dec2_chars(d.month as nat) + seq!['-'] + dec2_chars(
        d.day as nat,
    )
}

/// A time of day as `HH:MM:SS`.
pub open spec fn hms_chars(c: Clock) -> Seq<char> {
    dec2_chars(c.hour as nat) + seq![':'] + dec2_chars(c.minute as nat) + seq![':'] + dec2_chars(
        c.second as nat,
    )
}

/// The timestamp prefix of a text line: `[HH:MM:SS] `.
pub open spec fn stamp_chars(c: Clock) -> Seq<char> {
    seq!['['] + hms_chars(c) + "] "@
}

/// A segment number as the file name writes it: zero-padded to two digits,
/// longer only when it outgrows them.
pub open spec fn seg_chars(seg: u32) -> Seq<char> {
    if seg < 100 {
        dec2_chars(seg as nat)
    } else {
        dec_chars(seg as nat)
    }
}

/// The name of a log file: the date, a segment suffix only for segments past
/// the first, and the `.log` extension.
pub open spec fn file_name_chars(d: LogDate, seg: u32) -> Seq<char> {
    date_chars(d) + (if seg == 0 {
        Seq::<char>::empty()
    } else {
        seq!['_'] + seg_chars(seg)
    }) + ".log"@
}

fn push_digit(s: &mut String, d: u8)
    requires
        d < 10,
    ensures
        final(s)@ == old(s)@ + seq![digit_char(d as nat)],
{
    if d == 0 {
        push_char(s, '0');
    } else if d == 1 {
        push_char(s, '1');
    } else if d == 2 {
        push_char(s, '2');
    } else if d == 3 {
        push_char(s, '3');
    } else if d == 4 {
        push_char(s, '4');
    } else if d == 5 {
        push_char(s, '5');
    } else if d == 6 {
        push_char(s, '6');
    } else if d == 7 {
        push_char(s, '7');
    } else if d == 8 {
        push_char(s, '8');
    } else {
        push_char(s, '9');
    }
}

fn push_two_digits(s: &mut String, n: u8)
    requires
        n < 100,
    ensures
        final(s)@ == old(s)@ + dec2_chars(n as nat),
{
    let ghost s0 = s@;
    push_digit(s, n / 10);
    push_digit(s, n % 10);
    proof {
        assert(s@ =~= s0 + dec2_chars(n as nat));
    }
}

fn push_decimal(s: &mut String, n: u64)
    ensures
        final(s)@ == old(s)@ + dec_chars(n as nat),
    decreases n,
{
    let ghost s0 = s@;
    if n < 10 {
        push_digit(s, n as u8);
    } else {
        push_decimal(s, n / 10);
        push_digit(s, (n % 10) as u8);
        proof {
            assert(s@ =~= s0 + dec_chars(n as nat));
        }
    }
}

fn push_year(s: &mut String, y: i32)
    ensures
        final(s)@ == old(s)@ + year_chars(y as int),
{
    let ghost s0 = s@;
    if 0 <= y && y <= 9999 {
        let n = y as u16;
        push_digit(s, (n / 1000) as u8);
        push_digit(s, (n / 100 % 10) as u8);
        push_digit(s, (n / 10 % 10) as u8);
        push_digit(s, (n % 10) as u8);
        proof {
            assert(s@ =~= s0 + year_chars(y as int));
        }
    } else if y < 0 {
        push_char(s, '-');
        push_decimal(s, (-(y as i64)) as u64);
        proof {
            assert(s@ =~= s0 + year_chars(y as int));
        }
    } else {
        push_decimal(s, y as u64);
    }
}

pub fn push_date(s: &mut String, d: LogDate)
    requires
        d.wf(),
    ensures
        final(s)@ == old(s)@ + date_chars(d),
{
    let ghost s0 = s@;
    push_year(s, d.year);
    push_char(s, '-');
    push_two_digits(s, d.month);
    push_char(s, '-');
    push_two_digits(s, d.day);
    proof {
        assert(s@ =~= s0 + date_chars(d));
    }
}

pub fn push_hms(s: &mut String, c: &Clock)
    requires
        c.wf(),
    ensures
        final(s)@ == old(s)@ + hms_chars(*c),
{
    let ghost s0 = s@;
    push_two_digits(s, c.hour);
    push_char(s, ':');
    push_two_digits(s, c.minute);
    push_char(s, ':');
    push_two_digits(s, c.second);
    proof {
        assert(s@ =~= s0 + hms_chars(*c));
    }
}

pub fn push_stamp(s: &mut String, c: &Clock)
    requires
        c.wf(),
    ensures
        final(s)@ == old(s)@ + stamp_chars(*c),
{
    let ghost s0 = s@;
    push_char(s, '[');
    push_hms(s, c);
    push_char(s, ']');
    push_char(s, ' ');
    proof {
        reveal_strlit("] ");
        assert(seq![']'] + seq![' '] =~= "] "@);
        assert(s@ =~= s0 + stamp_chars(*c));
    }
}

/// The file a (date, segment) pair is stored under.
pub fn file_name(d: LogDate, seg: u32) -> (r: String)
    requires
        d.wf(),
    ensures
        r@ == file_name_chars(d, seg),
{
    let mut s = String::new();
    push_date(&mut s, d);
    if seg > 0 {
        push_char(&mut s, '_');
        if seg < 100 {
            push_two_digits(&mut s, seg as u8);
        } else {
            push_decimal(&mut s, seg as u64);
        }
    }
    push_char(&mut s, '.');
    push_char(&mut s, 'l');
    push_char(&mut s, 'o');
    push_char(&mut s, 'g');
    proof {
        reveal_strlit(".log");
        assert(seq!['.'] + seq!['l'] + seq!['o'] + seq!['g'] =~= ".log"@);
        assert(s@ =~= file_name_chars(d, seg));
    }
    s
}

/// The run header written into a file that is created empty: a banner, the
/// date, the creation time, a closing banner and a blank line.
pub open spec fn header_chars(c: Clock) -> Seq<char> {
    "================== EchoKey 日志 ==================\n"@ + "日期："@ + date_chars(date_of(c))
        + "\n创建时间："@ + hms_chars(c) + "\n==================================================\n\n"@
}

/// A pasted-content line: timestamp, the paste tag, the clipboard text, a
/// line break.
pub open spec fn paste_line_chars(c: Clock, t: Seq<char>) -> Seq<char> {
    "["@ + hms_chars(c) + "] [粘贴] "@ + t + "\n"@
}

/// A manually-saved-content line: timestamp, the manual-save tag, the
/// clipboard text, a line break.
pub open spec fn save_line_chars(c: Clock, t: Seq<char>) -> Seq<char> {
    "["@ + hms_chars(c) + "] [手动保存] "@ + t + "\n"@
}

/// The in-band marker line recording that capture was paused.
pub open spec fn pause_line_chars(c: Clock) -> Seq<char> {
    "["@ + hms_chars(c) + "] --- 暂停记录 ---\n"@
}

/// The in-band marker line recording that capture resumed.
pub open spec fn resume_line_chars(c: Clock) -> Seq<char> {
    "["@ + hms_chars(c) + "] --- 恢复记录 ---\n"@
}

pub fn header_block(c: &Clock) -> (r: String)
    requires
        c.wf(),
    ensures
        r@ == header_chars(*c),
{
    let mut s = String::new();
    s.append("================== EchoKey 日志 ==================\n");
    s.append("日期：");
    push_date(&mut s, c.date());
    s.append("\n创建时间：");
    push_hms(&mut s, c);
    s.append("\n==================================================\n\n");
    proof {
        assert(s@ =~= header_chars(*c));
    }
    s
}

pub fn paste_line(c: &Clock, t: &str) -> (r: String)
    requires
        c.wf(),
    ensures
        r@ == paste_line_chars(*c, t@),
{
    let mut s = String::new();
    s.append("[");
    push_hms(&mut s, c);
    s.append("] [粘贴] ");
    s.append(t);
    s.append("\n");
    proof {
        assert(s@ =~= paste_line_chars(*c, t@));
    }
    s
}

pub fn save_line(c: &Clock, t: &str) -> (r: String)
    requires
        c.wf(),
    ensures
        r@ == save_line_chars(*c, t@),
{
    let mut s = String::new();
    s.append("[");
    push_hms(&mut s, c);
    s.append("] [手动保存] ");
    s.append(t);
    s.append("\n");
    proof {
        assert(s@ =~= save_line_chars(*c, t@));
    }
    s
}

pub fn pause_line(c: &Clock) -> (r: String)
    requires
        c.wf(),
    ensures
        r@ == pause_line_chars(*c),
{
    let mut s = String::new();
    s.append("[");
    push_hms(&mut s, c);
    s.append("] --- 暂停记录 ---\n");
    proof {
        assert(s@ =~= pause_line_chars(*c));
    }
    s
}

pub fn resume_line(c: &Clock) -> (r: String)
    requires
        c.wf(),
    ensures
        r@ == resume_line_chars(*c),
{
    let mut s = String::new();
    s.append("[");
    push_hms(&mut s, c);
    s.append("] --- 恢复记录 ---\n");
    proof {
        assert(s@ =~= resume_line_chars(*c));
    }
    s
}

} // verus!
