//! A bounded log kept for the strip under the map.
use vstd::prelude::*;
use vstd::string::StrSliceExecFns;
use std::collections::VecDeque;
use std::time::Instant;
use crate::display::Color;
use crate::paint::{PaintOp, push_text, text_ops};
use crate::game_state::string_is;
use crate::renderer::sat_sub;

verus! {

#[verifier::external_type_specification]
#[verifier::external_body]
pub struct ExInstant(Instant);

/// Relies on std::time::Instant::now: reads the monotonic clock; nothing is
/// promised of the value.
#[verifier::external_body]
fn now() -> (r: Instant) {
    Instant::now()
}

/// One log entry.
#[derive(Debug)]
pub struct LogEntry {
    /// Severity: "ERROR", "WARN", "INFO", "DEBUG", or another tag.
    pub level: String,
    pub message: String,
    pub timestamp: Instant,
}

impl LogEntry {
    /// Level and message of the entry.
    pub open spec fn view_of(self) -> (Seq<char>, Seq<char>) {
        (self.level@, self.message@)
    }

    /// A copy of the entry.
    pub fn duplicate(&self) -> (r: LogEntry)
        ensures
            r.view_of() == self.view_of(),
    {
        LogEntry { level: self.level.clone(), message: self.message.clone(), timestamp: self.timestamp }
    }
}

/// The last `n` items of `s`, or all of them where there are fewer.
pub open spec fn last_n<T>(s: Seq<T>, n: int) -> Seq<T> {
    if s.len() > n {
        s.subrange(s.len() - n, s.len() as int)
    } else {
        s
    }
}

/// The colour of a severity tag.
pub open spec fn level_color(level: Seq<char>) -> Color {
    if level == "ERROR"@ {
        Color::Red
    } else if level == "WARN"@ {
        Color::Yellow
    } else if level == "INFO"@ {
        Color::Green
    } else if level == "DEBUG"@ {
        Color::Blue
    } else {
        Color::White
    }
}

/// Whether a message is too long for a line `width` cells wide, next to
/// its severity tag.
pub open spec fn overflows(msg: Seq<char>, width: int) -> bool {
    msg.len() > sat_sub(width, 8)
}

/// The commands that print a message on a line `width` cells wide: the
/// whole message if it fits in the room left by the severity tag, else as
/// much as leaves room for a closing "...", then "...".
pub open spec fn message_ops(msg: Seq<char>, width: int) -> Seq<PaintOp> {
    if overflows(msg, width) {
        text_ops(msg.take(sat_sub(sat_sub(width, 8), 3))) + text_ops("..."@)
    } else {
        text_ops(msg)
    }
}

/// Painting one entry on row `row`: the tag in its colour, then the
/// message in white.
pub open spec fn entry_ops(e: (Seq<char>, Seq<char>), row: int, width: int) -> Seq<PaintOp> {
    seq![PaintOp::MoveTo(0, row as u16), PaintOp::SetColor(level_color(e.0))]
        + text_ops("["@) + text_ops(e.0) + text_ops("]"@)
        + seq![PaintOp::SetColor(Color::White)]
        + text_ops(" "@) + message_ops(e.1, width)
}

/// Clearing `n` lines from row `start` down.
pub open spec fn clear_ops(start: int, n: int) -> Seq<PaintOp>
    decreases n,
{
    if n <= 0 {
        seq![]
    } else {
        clear_ops(start, n - 1) + seq![PaintOp::MoveTo(0, (start + n - 1) as u16), PaintOp::ClearLine]
    }
}

/// Painting `es` one per row from row `start` down.
pub open spec fn entries_ops(es: Seq<(Seq<char>, Seq<char>)>, start: int, width: int) -> Seq<PaintOp>
    decreases es.len(),
{
    if es.len() == 0 {
        seq![]
    } else {
        entries_ops(es.drop_last(), start, width) + entry_ops(es.last(), start + es.len() - 1, width)
    }
}

/// Painting the log strip: the bottom `lines` rows of a screen `height`
/// rows tall are cleared, then the latest `lines` entries are painted
/// there, oldest on top.
pub open spec fn log_strip_ops(es: Seq<(Seq<char>, Seq<char>)>, width: int, height: int, lines: int) -> Seq<PaintOp> {
    let start = sat_sub(height, lines);
    clear_ops(start, lines) + entries_ops(last_n(es, lines), start, width) + seq![PaintOp::ResetColor]
}

/// The log: at most `max_entries` entries, oldest first.
pub struct TerminalLogger {
    entries: VecDeque<LogEntry>,
    max_entries: usize,
}

impl TerminalLogger {
    /// Level and message of each entry, oldest first.
    pub closed spec fn entries_view(&self) -> Seq<(Seq<char>, Seq<char>)> {
        self.entries@.map_values(|e: LogEntry| e.view_of())
    }

    pub closed spec fn capacity(&self) -> nat {
        self.max_entries as nat
    }

    pub closed spec fn wf(&self) -> bool {
        self.entries@.len() <= self.max_entries
    }

    /// An empty log that keeps the last `max_entries` entries.
    pub fn new(max_entries: usize) -> (r: TerminalLogger)
        ensures
            r.wf(),
            r.entries_view() == Seq::<(Seq<char>, Seq<char>)>::empty(),
            r.capacity() == max_entries,
    {
        let r = TerminalLogger { entries: VecDeque::new(), max_entries };
        assert(r.entries_view() =~= Seq::<(Seq<char>, Seq<char>)>::empty());
        r
    }

    /// Appends an entry, dropping the oldest ones beyond the capacity.
    pub fn log(&mut self, level: &str, message: String)
        requires
            old(self).wf(),
        ensures
            final(self).wf(),
            final(self).capacity() == old(self).capacity(),
            final(self).entries_view() == last_n(
                old(self).entries_view().push((level@, message@)),
                old(self).capacity() as int,
            ),
    {
        let ghost target = last_n(self.entries_view().push((level@, message@)), self.max_entries as int);
        let ghost full = self.entries_view().push((level@, message@));
        self.entries.push_back(LogEntry { level: level.to_string(), message, timestamp: now() });
        assert(self.entries_view() =~= full);
        while self.entries.len() > self.max_entries
            invariant
                self.max_entries == old(self).max_entries,
                self.entries@.len() <= full.len(),
                self.entries@.len() == full.len() || self.entries@.len() >= self.max_entries,
                self.entries_view() =~= full.subrange(full.len() - self.entries@.len(), full.len() as int),
            decreases self.entries@.len(),
        {
            let ghost before = self.entries_view();
            self.entries.pop_front();
            assert(self.entries_view() =~= before.subrange(1, before.len() as int));
        }
        assert(self.entries_view() =~= target);
    }

    /// Copies of the last `count` entries, oldest first.
    pub fn get_recent_logs(&self, count: usize) -> (r: Vec<LogEntry>)
        ensures
            r@.map_values(|e: LogEntry| e.view_of()) == last_n(self.entries_view(), count as int),
    {
        let n = self.entries.len();
        let start: usize = if n > count { n - count } else { 0 };
        let mut out: Vec<LogEntry> = Vec::new();
        let mut i: usize = start;
        while i < n
            invariant
                start <= i <= n,
                n == self.entries@.len(),
                out@.map_values(|e: LogEntry| e.view_of()) =~= self.entries_view().subrange(start as int, i as int),
            decreases n - i,
        {
            let e = self.entries[i].duplicate();
            let ghost before = out@;
            out.push(e);
            assert(out@ == before.push(e));
            assert(self.entries_view()[i as int] == self.entries@[i as int].view_of());
            assert(out@.map_values(|e: LogEntry| e.view_of()) =~= before.map_values(|e: LogEntry| e.view_of()).push(
                e.view_of(),
            ));
            i = i + 1;
        }
        assert(self.entries_view().subrange(start as int, n as int) =~= last_n(self.entries_view(), count as int));
        out
    }

    fn level_color_of(level: &String) -> (r: Color)
        ensures
            r == level_color(level@),
    {
        if string_is(level, "ERROR") {
            Color::Red
        } else if string_is(level, "WARN") {
            Color::Yellow
        } else if string_is(level, "INFO") {
            Color::Green
        } else if string_is(level, "DEBUG") {
            Color::Blue
        } else {
            Color::White
        }
    }

    fn push_entry(ops: &mut Vec<PaintOp>, e: &LogEntry, row: u16, width: u16)
        ensures
            final(ops)@ == old(ops)@ + entry_ops(e.view_of(), row as int, width as int),
    {
        let ghost start = ops@;
        ops.push(PaintOp::MoveTo(0, row));
        ops.push(PaintOp::SetColor(Self::level_color_of(&e.level)));
        push_text(ops, "[");
        push_text(ops, e.level.as_str());
        push_text(ops, "]");
        ops.push(PaintOp::SetColor(Color::White));
        push_text(ops, " ");
        let w = width as usize;
        let room: usize = if w >= 8 { w - 8 } else { 0 };
        let len = e.message.as_str().unicode_len();
        if len > room {
            let keep: usize = if room >= 3 { room - 3 } else { 0 };
            push_text(ops, e.message.as_str().substring_char(0, keep));
            push_text(ops, "...");
        } else {
            push_text(ops, e.message.as_str());
        }
        assert(ops@ =~= start + entry_ops(e.view_of(), row as int, width as int));
    }

    /// The commands that paint the log strip in the bottom `log_lines` rows
    /// of a `terminal_width` x `terminal_height` screen.
    pub fn render_logs(&self, terminal_width: u16, terminal_height: u16, log_lines: usize) -> (r: Vec<PaintOp>)
        requires
            log_lines <= 0xffff,
        ensures
            r@ == log_strip_ops(self.entries_view(), terminal_width as int, terminal_height as int, log_lines as int),
    {
        let logs = self.get_recent_logs(log_lines);
        let ghost es = last_n(self.entries_view(), log_lines as int);
        let h = terminal_height as usize;
        let start: usize = if h >= log_lines { h - log_lines } else { 0 };
        let mut ops: Vec<PaintOp> = Vec::new();
        let mut i: usize = 0;
        while i < log_lines
            invariant
                i <= log_lines,
                log_lines <= 0xffff,
                start == sat_sub(terminal_height as int, log_lines as int),
                start + log_lines <= 0x10000,
                ops@ == clear_ops(start as int, i as int),
            decreases log_lines - i,
        {
            ops.push(PaintOp::MoveTo(0, (start + i) as u16));
            ops.push(PaintOp::ClearLine);
            assert(ops@ =~= clear_ops(start as int, i + 1));
            i = i + 1;
        }
        let ghost head = ops@;
        let n = logs.len();
        assert(n == es.len()) by {
            assert(logs@.map_values(|e: LogEntry| e.view_of()).len() == logs@.len());
        }
        let mut j: usize = 0;
        assert(es.take(0) =~= Seq::<(Seq<char>, Seq<char>)>::empty());
        while j < n
            invariant
                j <= n,
                n == logs@.len(),
                n == es.len(),
                n <= log_lines,
                log_lines <= 0xffff,
                start + log_lines <= 0x10000,
                logs@.map_values(|e: LogEntry| e.view_of()) == es,
                ops@ == head + entries_ops(es.take(j as int), start as int, terminal_width as int),
            decreases n - j,
        {
            assert(es[j as int] == logs@[j as int].view_of());
            Self::push_entry(&mut ops, &logs[j], (start + j) as u16, terminal_width);
            assert(es.take(j + 1).drop_last() =~= es.take(j as int));
            assert(es.take(j + 1).last() == es[j as int]);
            assert(ops@ =~= head + entries_ops(es.take(j + 1), start as int, terminal_width as int));
            j = j + 1;
        }
        assert(es.take(n as int) =~= es);
        ops.push(PaintOp::ResetColor);
        ops
    }

    /// Removes every entry.
    pub fn clear(&mut self)
        ensures
            final(self).wf(),
            final(self).capacity() == old(self).capacity(),
            final(self).entries_view() == Seq::<(Seq<char>, Seq<char>)>::empty(),
    {
        self.entries.clear();
        assert(self.entries_view() =~= Seq::<(Seq<char>, Seq<char>)>::empty());
    }
}

/// Whether `pat` occurs in `s` at index `i`.
pub open spec fn occurs_at(s: Seq<char>, pat: Seq<char>, i: int) -> bool {
    0 <= i && i + pat.len() <= s.len() && s.subrange(i, i + pat.len()) == pat
}

/// Whether `pat` occurs in `s`.
pub open spec fn contains(s: Seq<char>, pat: Seq<char>) -> bool {
    exists|i: int| occurs_at(s, pat, i)
}

/// The severity of a formatted log line: the first of ERROR, WARN, INFO and
/// DEBUG whose bracketed tag it holds, INFO when it holds none.
pub open spec fn line_level(s: Seq<char>) -> Seq<char> {
    if contains(s, "[ERROR]"@) {
        "ERROR"@
    } else if contains(s, "[WARN]"@) {
        "WARN"@
    } else if contains(s, "[INFO]"@) {
        "INFO"@
    } else if contains(s, "[DEBUG]"@) {
        "DEBUG"@
    } else {
        "INFO"@
    }
}

/// The message of a formatted log line: what follows the last "] ", or
/// the whole line when there is none.
pub open spec fn line_message(s: Seq<char>) -> Seq<char> {
    if exists|i: int| occurs_at(s, "] "@, i) {
        let i = choose|i: int| occurs_at(s, "] "@, i) && forall|j: int| i < j ==> !occurs_at(s, "] "@, j);
        s.subrange(i + 2, s.len() as int)
    } else {
        s
    }
}

/// What trimming whitespace from both ends of a text leaves.
pub uninterp spec fn trimmed(s: Seq<char>) -> Seq<char>;

/// Relies on str::trim: the text without leading and trailing whitespace.
#[verifier::external_body]
fn trim_str(s: &str) -> (r: &str)
    ensures
        r@ == trimmed(s@),
{
    s.trim()
}

/// Whether two texts are equal.
fn str_eq(a: &str, b: &str) -> (r: bool)
    ensures
        r == (a@ == b@),
{
    a.to_string() == b.to_string()
}

/// Whether `pat` occurs in `s`.
fn find_in(s: &str, pat: &str) -> (r: bool)
    ensures
        r == contains(s@, pat@),
{
    let n = s.unicode_len();
    let m = pat.unicode_len();
    if m > n {
        return false;
    }
    if m == 0 {
        assert(s@.subrange(0, 0) =~= pat@);
        assert(occurs_at(s@, pat@, 0));
        return true;
    }
    let mut i: usize = 0;
    while i <= n - m
        invariant
            n == s@.len(),
            m == pat@.len(),
            1 <= m <= n,
            i <= n - m + 1,
            forall|k: int| 0 <= k < i ==> !occurs_at(s@, pat@, k),
        decreases n - m + 1 - i,
    {
        if str_eq(s.substring_char(i, i + m), pat) {
            assert(occurs_at(s@, pat@, i as int));
            return true;
        }
        i = i + 1;
    }
    false
}

/// Sends formatted log lines to a [`TerminalLogger`].
pub struct TerminalLogWriter;

impl TerminalLogWriter {
    /// Splits an already trimmed, non-empty formatted log line into its
    /// severity and its message.
    pub fn classify_line(line: &str) -> (r: (String, String))
        ensures
            r.0@ == line_level(line@),
            r.1@ == line_message(line@),
    {
        let level = if find_in(line, "[ERROR]") {
            "ERROR"
        } else if find_in(line, "[WARN]") {
            "WARN"
        } else if find_in(line, "[INFO]") {
            "INFO"
        } else if find_in(line, "[DEBUG]") {
            "DEBUG"
        } else {
            "INFO"
        };
        let n = line.unicode_len();
        let mut i: usize = n;
        let ghost sep = "] "@;
        proof {
            reveal_strlit("] ");
        }
        while i >= 2
            invariant
                n == line@.len(),
                i <= n,
                sep == "] "@,
                sep.len() == 2,
                level@ == line_level(line@),
                forall|j: int| i - 1 <= j ==> !occurs_at(line@, sep, j),
            decreases i,
        {
            if str_eq(line.substring_char(i - 2, i), "] ") {
                let ghost k = i - 2;
                proof {
                    assert(occurs_at(line@, sep, k));
                    assert forall|j: int| k < j implies !occurs_at(line@, sep, j) by {
                        if j == i - 1 {
                        }
                    }
                    let c = choose|c: int| occurs_at(line@, sep, c) && forall|j: int| c < j ==> !occurs_at(line@, sep, j);
                    if c < k {
                    } else if c > k {
                    }
                    assert(c == k);
                }
                let msg = line.substring_char(i, n);
                return (level.to_string(), msg.to_string());
            }
            i = i - 1;
        }
        assert forall|j: int| !occurs_at(line@, sep, j) by {
            if 0 <= j && j + 2 <= line@.len() && j < i - 1 {
            }
        }
        (level.to_string(), line.to_string())
    }

    /// Turns one formatted log line into a log entry of `logger`; a line of
    /// whitespace alone adds nothing.
    pub fn write_line(&self, logger: &mut TerminalLogger, text: &str)
        requires
            old(logger).wf(),
        ensures
            final(logger).wf(),
            final(logger).capacity() == old(logger).capacity(),
            trimmed(text@).len() == 0 ==> final(logger).entries_view() == old(logger).entries_view(),
            trimmed(text@).len() > 0 ==> final(logger).entries_view() == last_n(
                old(logger).entries_view().push((line_level(trimmed(text@)), line_message(trimmed(text@)))),
                old(logger).capacity() as int,
            ),
    {
        let t = trim_str(text);
        if t.unicode_len() == 0 {
            return;
        }
        let (level, message) = Self::classify_line(t);
        logger.log(level.as_str(), message);
    }
}

} // verus!
