//! The two deterministic renderers.
//!
//! The human form wraps the target in a severity color plus bold, then the
//! message verbatim, then one indented line per key/value pair, and ends with
//! a newline. The machine form is one line shaped like a flat object with
//! fixed field order: `level` (fixed numeric code), `time` (milliseconds,
//! injected by the caller), `msg`, then each pair as `,"key":value`. Neither
//! form escapes anything inside messages or values.

use vstd::prelude::*;
use vstd::string::StringExecFns;

use crate::level::Level;
use crate::record::{kv_views, Record, RecordView};

verus! {

/// ANSI reset code.
pub open spec fn reset_seq() -> Seq<char> {
    "\x1b[0m"@
}

/// ANSI bold code.
pub open spec fn bold_seq() -> Seq<char> {
    "\x1b[1m"@
}

/// ANSI red color code.
pub open spec fn red_seq() -> Seq<char> {
    "\x1b[31m"@
}

/// ANSI green color code.
pub open spec fn green_seq() -> Seq<char> {
    "\x1b[32m"@
}

/// ANSI yellow color code.
pub open spec fn yellow_seq() -> Seq<char> {
    "\x1b[33m"@
}

/// Color selected by severity: green below `Warn`, yellow for `Warn`,
/// red for `Error`.
pub open spec fn color_seq(l: Level) -> Seq<char> {
    match l {
        Level::Trace => green_seq(),
        Level::Debug => green_seq(),
        Level::Info => green_seq(),
        Level::Warn => yellow_seq(),
        Level::Error => red_seq(),
    }
}

/// Fixed numeric severity code of the machine form.
pub open spec fn level_code(l: Level) -> nat {
    match l {
        Level::Trace => 10,
        Level::Debug => 20,
        Level::Info => 30,
        Level::Warn => 40,
        Level::Error => 50,
    }
}

/// Fixed numeric severity code, executable form.
pub fn get_level(l: Level) -> (c: u8)
    ensures
        c as nat == level_code(l),
{
    match l {
        Level::Trace => 10,
        Level::Debug => 20,
        Level::Info => 30,
        Level::Warn => 40,
        Level::Error => 50,
    }
}

/// The character for one decimal digit.
pub open spec fn digit_char(d: nat) -> char {
    if d == 0 {
        '0'
    } else if d == 1 {
        '1'
    } else if d == 2 {
        '2'
    } else if d == 3 {
        '3'
    } else if d == 4 {
        '4'
    } else if d == 5 {
        '5'
    } else if d == 6 {
        '6'
    } else if d == 7 {
        '7'
    } else if d == 8 {
        '8'
    } else {
        '9'
    }
}

/// Decimal notation of `n`, without sign or leading zeros.
pub open spec fn dec_str(n: nat) -> Seq<char>
    decreases n,
{
    if n < 10 {
        seq![digit_char(n)]
    } else {
        dec_str(n / 10).push(digit_char(n % 10))
    }
}

/// One decimal digit as a string slice.
fn digit_str(d: u64) -> (s: &'static str)
    requires
        d < 10,
    ensures
        s@ == seq![digit_char(d as nat)],
{
    if d == 0 {
        proof {
            reveal_strlit("0");
            assert("0"@ =~= seq!['0']);
        }
        "0"
    } else if d == 1 {
        proof {
            reveal_strlit("1");
            assert("1"@ =~= seq!['1']);
        }
        "1"
    } else if d == 2 {
        proof {
            reveal_strlit("2");
            assert("2"@ =~= seq!['2']);
        }
        "2"
    } else if d == 3 {
        proof {
            reveal_strlit("3");
            assert("3"@ =~= seq!['3']);
        }
        "3"
    } else if d == 4 {
        proof {
            reveal_strlit("4");
            assert("4"@ =~= seq!['4']);
        }
        "4"
    } else if d == 5 {
        proof {
            reveal_strlit("5");
            assert("5"@ =~= seq!['5']);
        }
        "5"
    } else if d == 6 {
        proof {
            reveal_strlit("6");
            assert("6"@ =~= seq!['6']);
        }
        "6"
    } else if d == 7 {
        proof {
            reveal_strlit("7");
            assert("7"@ =~= seq!['7']);
        }
        "7"
    } else if d == 8 {
        proof {
            reveal_strlit("8");
            assert("8"@ =~= seq!['8']);
        }
        "8"
    } else {
        proof {
            reveal_strlit("9");
            assert("9"@ =~= seq!['9']);
        }
        "9"
    }
}

/// Appends the decimal notation of `n` to `out`.
pub fn push_u64_dec(out: &mut String, n: u64)
    ensures
        final(out)@ == old(out)@ + dec_str(n as nat),
    decreases n,
{
    if n < 10 {
        out.append(digit_str(n));
        assert(out@ =~= old(out)@ + dec_str(n as nat));
    } else {
        push_u64_dec(out, n / 10);
        out.append(digit_str(n % 10));
        assert(out@ =~= old(out)@ + dec_str(n as nat));
    }
}

/// One key/value pair of the human form: line break, four-space indent,
/// the key in bold, a space, the value.
pub open spec fn kv_entry_pretty(k: Seq<char>, v: Seq<char>) -> Seq<char> {
    "\n    "@ + bold_seq() + k + reset_seq() + " "@ + v
}

/// All key/value pairs of the human form, in order.
pub open spec fn kv_pretty(kvs: Seq<(Seq<char>, Seq<char>)>) -> Seq<char>
    decreases kvs.len(),
{
    if kvs.len() == 0 {
        Seq::empty()
    } else {
        kv_pretty(kvs.drop_last()) + kv_entry_pretty(kvs.last().0, kvs.last().1)
    }
}

/// One key/value pair of the machine form: `,"key":value`.
pub open spec fn kv_entry_machine(k: Seq<char>, v: Seq<char>) -> Seq<char> {
    ",\""@ + k + "\":"@ + v
}

/// All key/value pairs of the machine form, in order.
pub open spec fn kv_machine(kvs: Seq<(Seq<char>, Seq<char>)>) -> Seq<char>
    decreases kvs.len(),
{
    if kvs.len() == 0 {
        Seq::empty()
    } else {
        kv_machine(kvs.drop_last()) + kv_entry_machine(kvs.last().0, kvs.last().1)
    }
}

/// The whole human form of one record.
pub open spec fn human_line(r: RecordView) -> Seq<char> {
    color_seq(r.level) + bold_seq() + r.target + reset_seq() + " "@ + r.message + kv_pretty(
        r.key_values,
    ) + "\n"@
}

/// The whole machine form of one record, with the given timestamp.
pub open spec fn machine_line(r: RecordView, now_ms: u64) -> Seq<char> {
    "{\"level\":"@ + dec_str(level_code(r.level)) + ",\"time\":"@ + dec_str(now_ms as nat)
        + ",\"msg\":\""@ + r.message + "\""@ + kv_machine(r.key_values) + "}\n"@
}

/// Appends every key/value pair in the human form, in the record's order.
pub fn format_kv_pairs(out: &mut String, key_values: &Vec<(String, String)>)
    ensures
        final(out)@ == old(out)@ + kv_pretty(kv_views(key_values@)),
{
    let ghost kvv = kv_views(key_values@);
    let n = key_values.len();
    assert(out@ =~= old(out)@ + kv_pretty(kvv.take(0)));
    let mut i: usize = 0;
    while i < n
        invariant
            i <= n,
            n == key_values.len(),
            kvv == kv_views(key_values@),
            out@ == old(out)@ + kv_pretty(kvv.take(i as int)),
        decreases n - i,
    {
        out.append("\n    ");
        out.append("\x1b[1m");
        out.append(key_values[i].0.as_str());
        out.append("\x1b[0m");
        out.append(" ");
        out.append(key_values[i].1.as_str());
        proof {
            assert(kvv.take(i + 1).drop_last() =~= kvv.take(i as int));
            assert(kvv[i as int] == (key_values@[i as int].0@, key_values@[i as int].1@));
            assert(out@ =~= old(out)@ + kv_pretty(kvv.take(i + 1)));
        }
        i += 1;
    }
    assert(kvv.take(n as int) =~= kvv);
}

/// Appends every key/value pair in the machine form, in the record's order.
pub fn format_kv_fields(out: &mut String, key_values: &Vec<(String, String)>)
    ensures
        final(out)@ == old(out)@ + kv_machine(kv_views(key_values@)),
{
    let ghost kvv = kv_views(key_values@);
    let n = key_values.len();
    assert(out@ =~= old(out)@ + kv_machine(kvv.take(0)));
    let mut i: usize = 0;
    while i < n
        invariant
            i <= n,
            n == key_values.len(),
            kvv == kv_views(key_values@),
            out@ == old(out)@ + kv_machine(kvv.take(i as int)),
        decreases n - i,
    {
        out.append(",\"");
        out.append(key_values[i].0.as_str());
        out.append("\":");
        out.append(key_values[i].1.as_str());
        proof {
            assert(kvv.take(i + 1).drop_last() =~= kvv.take(i as int));
            assert(kvv[i as int] == (key_values@[i as int].0@, key_values@[i as int].1@));
            assert(out@ =~= old(out)@ + kv_machine(kvv.take(i + 1)));
        }
        i += 1;
    }
    assert(kvv.take(n as int) =~= kvv);
}

/// Appends the human form of one record to `out`.
pub fn write_pretty(out: &mut String, record: &Record)
    ensures
        final(out)@ == old(out)@ + human_line(record@),
{
    match record.level {
        Level::Trace => out.append("\x1b[32m"),
        Level::Debug => out.append("\x1b[32m"),
        Level::Info => out.append("\x1b[32m"),
        Level::Warn => out.append("\x1b[33m"),
        Level::Error => out.append("\x1b[31m"),
    }
    out.append("\x1b[1m");
    out.append(record.target.as_str());
    out.append("\x1b[0m");
    out.append(" ");
    out.append(record.message.as_str());
    format_kv_pairs(out, &record.key_values);
    out.append("\n");
    assert(out@ =~= old(out)@ + human_line(record@));
}

/// Appends the machine form of one record to `out`, stamped with `now_ms`.
pub fn write_ndjson(out: &mut String, record: &Record, now_ms: u64)
    ensures
        final(out)@ == old(out)@ + machine_line(record@, now_ms),
{
    out.append("{\"level\":");
    push_u64_dec(out, get_level(record.level) as u64);
    out.append(",\"time\":");
    push_u64_dec(out, now_ms);
    out.append(",\"msg\":\"");
    out.append(record.message.as_str());
    out.append("\"");
    format_kv_fields(out, &record.key_values);
    out.append("}\n");
    assert(out@ =~= old(out)@ + machine_line(record@, now_ms));
}

} // verus!
