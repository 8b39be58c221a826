//! The text block printed for one event.
use crate::level::{level_name, Level};
use vstd::prelude::*;

verus! {

/// One event as the backend receives it. The message is already
/// interpolated; the source location fields are optional.
pub struct LogRecord {
    pub level: Level,
    pub target: String,
    pub message: String,
    pub module: Option<String>,
    pub file: Option<String>,
    pub line: Option<u32>,
}

/// What a `LogRecord` holds, as text.
pub struct RecordView {
    pub level: Level,
    pub target: Seq<char>,
    pub message: Seq<char>,
    pub module: Option<Seq<char>>,
    pub file: Option<Seq<char>>,
    pub line: Option<u32>,
}

/// The text of an optional string.
pub open spec fn opt_text(o: Option<String>) -> Option<Seq<char>> {
    match o {
        Some(s) => Some(s@),
        None => None,
    }
}

impl View for LogRecord {
    type V = RecordView;

    open spec fn view(&self) -> RecordView {
        RecordView {
            level: self.level,
            target: self.target@,
            message: self.message@,
            module: opt_text(self.module),
            file: opt_text(self.file),
            line: self.line,
        }
    }
}

/// The character of one decimal digit.
pub open spec fn digit_char(d: nat) -> char
    recommends
        d < 10,
{
    if d == 0 { '0' }
    else if d == 1 { '1' }
    else if d == 2 { '2' }
    else if d == 3 { '3' }
    else if d == 4 { '4' }
    else if d == 5 { '5' }
    else if d == 6 { '6' }
    else if d == 7 { '7' }
    else if d == 8 { '8' }
    else { '9' }
}

/// The decimal notation of `n`, without leading zeros.
pub open spec fn decimal(n: nat) -> Seq<char>
    decreases n,
{
    if n < 10 {
        seq![digit_char(n)]
    } else {
        decimal(n / 10).push(digit_char(n % 10))
    }
}

fn digit_str(d: u32) -> (r: &'static str)
    requires
        d < 10,
    ensures
        r@ == seq![digit_char(d as nat)],
{
    proof {
        reveal_strlit("0");
        reveal_strlit("1");
        reveal_strlit("2");
        reveal_strlit("3");
        reveal_strlit("4");
        reveal_strlit("5");
        reveal_strlit("6");
        reveal_strlit("7");
        reveal_strlit("8");
        reveal_strlit("9");
    }
    if d == 0 { "0" }
    else if d == 1 { "1" }
    else if d == 2 { "2" }
    else if d == 3 { "3" }
    else if d == 4 { "4" }
    else if d == 5 { "5" }
    else if d == 6 { "6" }
    else if d == 7 { "7" }
    else if d == 8 { "8" }
    else { "9" }
}

/// Writes `n` in decimal.
pub fn decimal_string(n: u32) -> (r: String)
    ensures
        r@ == decimal(n as nat),
    decreases n,
{
    if n < 10 {
        String::from_str(digit_str(n))
    } else {
        let mut s = decimal_string(n / 10);
        s.append(digit_str(n % 10));
        s
    }
}

/// The text of an optional field, or `fallback` where it is absent.
pub open spec fn text_or(o: Option<Seq<char>>, fallback: Seq<char>) -> Seq<char> {
    match o {
        Some(s) => s,
        None => fallback,
    }
}

/// The line number as printed: `0` where it is absent.
pub open spec fn line_text(o: Option<u32>) -> Seq<char> {
    match o {
        Some(n) => decimal(n as nat),
        None => decimal(0),
    }
}

/// The block printed for `rec` at time `ts`:
/// `\n[<ts>] [<LEVEL>] <target>\n<message>\n<module path> (<file>:<line>)\n`.
pub open spec fn record_block(ts: Seq<char>, rec: RecordView) -> Seq<char> {
    "\n["@ + ts + "] ["@ + level_name(rec.level) + "] "@ + rec.target + "\n"@
        + rec.message + "\n"@ + text_or(rec.module, "Unknown module"@) + " ("@
        + text_or(rec.file, "Unknown file"@) + ":"@ + line_text(rec.line) + ")\n"@
}

fn field_or<'a>(o: &'a Option<String>, fallback: &'a str) -> (r: &'a str)
    ensures
        r@ == text_or(opt_text(*o), fallback@),
{
    match o {
        Some(s) => s.as_str(),
        None => fallback,
    }
}

/// Renders `rec` with the given timestamp text.
pub fn format_record(timestamp: &str, rec: &LogRecord) -> (r: String)
    ensures
        r@ == record_block(timestamp@, rec@),
{
    let line = match rec.line {
        Some(n) => decimal_string(n),
        None => decimal_string(0),
    };
    let mut out = String::from_str("\n[");
    out.append(timestamp);
    out.append("] [");
    out.append(rec.level.as_str());
    out.append("] ");
    out.append(rec.target.as_str());
    out.append("\n");
    out.append(rec.message.as_str());
    out.append("\n");
    out.append(field_or(&rec.module, "Unknown module"));
    out.append(" (");
    out.append(field_or(&rec.file, "Unknown file"));
    out.append(":");
    out.append(line.as_str());
    out.append(")\n");
    out
}

/// Relies on chrono's `Local::now` and its `%F %T` format: the local time
/// now as `YYYY-MM-DD HH:MM:SS`. It depends on the clock, so nothing is
/// promised of the text.
#[verifier::external_body]
fn local_timestamp() -> (r: String) {
    chrono::Local::now().format("%F %T").to_string()
}

/// Renders `rec` stamped with the local time now.
pub fn render(rec: &LogRecord) -> (r: String)
    ensures
        exists|ts: Seq<char>| r@ == record_block(ts, rec@),
{
    let ts = local_timestamp();
    format_record(ts.as_str(), rec)
}

} // verus!
