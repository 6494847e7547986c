//! The record formatter: turns one record and a preformatted timestamp into
//! the single JSON line the facade writes. The message part is spliced in
//! verbatim, exactly as the call site built it; nothing is re-escaped.

use vstd::prelude::*;
use crate::digits::{dec_str, dec_string};
use crate::level::Level;
use crate::record::LogRecord;

verus! {

/// The file path rendered in a line: the record's path, or empty when unknown.
pub open spec fn spec_file_part(file: Option<String>) -> Seq<char> {
    match file {
        Some(f) => f@,
        None => Seq::<char>::empty(),
    }
}

/// The line number rendered in a line: the record's number, or 0 when unknown.
pub open spec fn spec_line_number(line: Option<u32>) -> nat {
    match line {
        Some(n) => n as nat,
        None => 0,
    }
}

/// The whole formatted line:
/// `{"ts": "<timestamp>", "level": "<LEVEL>", "file": "<file-or-empty>", "line": <line-or-0>, <message>}`.
pub open spec fn spec_line(rec: LogRecord, ts: Seq<char>) -> Seq<char> {
    "{\"ts\": \""@ + ts + "\", "@ + "\"level\": \""@ + rec.level.spec_name() + "\""@ + ", "@
        + "\"file\": \""@ + spec_file_part(rec.file) + "\""@ + ", "@ + "\"line\": "@ + dec_str(
        spec_line_number(rec.line),
    ) + ", "@ + rec.message@ + "}"@
}

/// Formats one record with the given timestamp. Pure: the result depends on
/// the record and the timestamp alone, so equal inputs give identical lines.
pub fn format_record(record: &LogRecord, timestamp: &str) -> (r: String)
    ensures
        r@ == spec_line(*record, timestamp@),
{
    let line_no: u32 = match record.line {
        Some(n) => n,
        None => 0,
    };
    let file_str: &str = match &record.file {
        Some(f) => f.as_str(),
        None => "",
    };
    let mut out = String::from_str("{\"ts\": \"");
    out.append(timestamp);
    out.append("\", ");
    out.append("\"level\": \"");
    out.append(record.level.name());
    out.append("\"");
    out.append(", ");
    out.append("\"file\": \"");
    out.append(file_str);
    out.append("\"");
    out.append(", ");
    out.append("\"line\": ");
    out.append(dec_string(line_no).as_str());
    out.append(", ");
    out.append(record.message.as_str());
    out.append("}");
    proof {
        if record.file is None {
            reveal_strlit("");
            assert(""@ =~= spec_file_part(record.file));
        }
        assert(out@ =~= spec_line(*record, timestamp@));
    }
    out
}

/// Holds when `needle` occurs contiguously somewhere in `hay`.
pub open spec fn contains_seq(hay: Seq<char>, needle: Seq<char>) -> bool {
    exists|k: int|
        0 <= k && k + needle.len() <= hay.len() && #[trigger] hay.subrange(k, k + needle.len())
            == needle
}

/// A sequence contains the middle part of any three-way split of itself.
pub proof fn lemma_concat_contains(pre: Seq<char>, mid: Seq<char>, post: Seq<char>, whole: Seq<
    char,
>)
    requires
        whole == pre + mid + post,
    ensures
        contains_seq(whole, mid),
{
    let k = pre.len() as int;
    assert(whole.subrange(k, k + mid.len()) =~= mid);
}

/// Every formatted line carries the record's severity as its canonical
/// uppercase name, inside a `"level": "<LEVEL>"` field.
pub proof fn lemma_line_shows_level(rec: LogRecord, ts: Seq<char>)
    ensures
        contains_seq(spec_line(rec, ts), "\"level\": \""@ + rec.level.spec_name() + "\""@),
{
    let pre = "{\"ts\": \""@ + ts + "\", "@;
    let mid = "\"level\": \""@ + rec.level.spec_name() + "\""@;
    let post = ", "@ + "\"file\": \""@ + spec_file_part(rec.file) + "\""@ + ", "@ + "\"line\": "@
        + dec_str(spec_line_number(rec.line)) + ", "@ + rec.message@ + "}"@;
    assert(spec_line(rec, ts) =~= pre + mid + post);
    lemma_concat_contains(pre, mid, post, spec_line(rec, ts));
}

/// A record with unknown file and line is rendered with an empty path and
/// line number 0: the line carries `"file": "", "line": 0, ` verbatim.
pub proof fn lemma_unknown_source_defaults(rec: LogRecord, ts: Seq<char>)
    requires
        rec.file is None,
        rec.line is None,
    ensures
        contains_seq(spec_line(rec, ts), "\"file\": \"\", \"line\": 0, "@),
{
    let pre = "{\"ts\": \""@ + ts + "\", "@ + "\"level\": \""@ + rec.level.spec_name() + "\""@
        + ", "@;
    let mid = "\"file\": \""@ + spec_file_part(rec.file) + "\""@ + ", "@ + "\"line\": "@ + dec_str(
        spec_line_number(rec.line),
    ) + ", "@;
    let post = rec.message@ + "}"@;
    assert(spec_line(rec, ts) =~= pre + mid + post);
    reveal_strlit("\"file\": \"");
    reveal_strlit("\"");
    reveal_strlit(", ");
    reveal_strlit("\"line\": ");
    reveal_strlit("\"file\": \"\", \"line\": 0, ");
    assert(dec_str(spec_line_number(rec.line)) =~= seq!['0']);
    assert(mid =~= "\"file\": \"\", \"line\": 0, "@);
    lemma_concat_contains(pre, mid, post, spec_line(rec, ts));
}

/// Formatting is pure: two records that are equal, formatted with equal
/// timestamps, give byte-identical lines.
pub proof fn lemma_format_pure(rec_a: LogRecord, rec_b: LogRecord, ts_a: Seq<char>, ts_b: Seq<
    char,
>)
    requires
        rec_a == rec_b,
        ts_a == ts_b,
    ensures
        spec_line(rec_a, ts_a) == spec_line(rec_b, ts_b),
{
}

} // verus!
