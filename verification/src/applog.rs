//! Application log lines: what is written and what is redacted.

use vstd::prelude::*;
use vstd::string::StringExecFns;
use crate::text::{contains, dec_nat, lines_spec, lowercase_of, push_u64, seq_contains, split_lines, string_views, to_lowercase};

verus! {

/// A message that mentions a PIN, hash, secret, password or token (in any
/// case) is never logged.
pub open spec fn looks_sensitive(msg: Seq<char>) -> bool {
    let l = lowercase_of(msg);
    seq_contains(l, "pin"@) || seq_contains(l, "hash"@) || seq_contains(l, "secret"@)
        || seq_contains(l, "password"@) || seq_contains(l, "token"@)
}

pub open spec fn sanitize_spec(msg: Seq<char>) -> Seq<char> {
    if looks_sensitive(msg) { "[redacted: potential sensitive content]"@ } else { msg }
}

/// The text logged for `msg`.
pub fn sanitize(msg: &str) -> (r: String)
    ensures
        r@ == sanitize_spec(msg@),
{
    let lower = to_lowercase(msg);
    let l = lower.as_str();
    if contains(l, "pin") || contains(l, "hash") || contains(l, "secret") || contains(l, "password") || contains(l, "token") {
        return String::from_str("[redacted: potential sensitive content]");
    }
    String::from_str(msg)
}

/// The log is rotated (to a single previous generation) once it grows past
/// this many bytes.
pub const MAX_LOG_BYTES: u64 = 524288;

/// Whether a log of `size` bytes is rotated before the next line is written.
pub fn log_needs_rotation(size: u64) -> (r: bool)
    ensures
        r == (size > MAX_LOG_BYTES),
{
    size > MAX_LOG_BYTES
}

/// The timestamp written on each line: "t=<seconds since the epoch>".
pub fn timestamp(secs: u64) -> (r: String)
    ensures
        r@ == "t="@ + dec_nat(secs as nat),
{
    let mut s = String::from_str("t=");
    push_u64(&mut s, secs);
    s
}

/// One log line: "<timestamp> [<level>] <sanitized message>".
pub fn log_line(ts: &str, level: &str, msg: &str) -> (r: String)
    ensures
        r@ == ts@ + " ["@ + level@ + "] "@ + sanitize_spec(msg@),
{
    let mut s = String::from_str(ts);
    s.append(" [");
    s.append(level);
    s.append("] ");
    let m = sanitize(msg);
    s.append(m.as_str());
    s
}

/// The last `max_lines` lines of the log text, oldest first.
pub fn tail_lines(text: &str, max_lines: usize) -> (r: Vec<String>)
    ensures
        ({
            let ls = lines_spec(text@);
            let start = if ls.len() > max_lines { ls.len() - max_lines } else { 0 };
            string_views(r@) == ls.subrange(start as int, ls.len() as int)
        }),
{
    let lines = split_lines(text);
    let n = lines.len();
    let start = n.saturating_sub(max_lines);
    let mut out: Vec<String> = Vec::new();
    let mut i = start;
    while i < n
        invariant
            start <= i <= n,
            n == lines.len(),
            string_views(out@) == string_views(lines@).subrange(start as int, i as int),
        decreases n - i,
    {
        let ghost before = out@;
        let l = lines[i].clone();
        out.push(l);
        assert(string_views(out@) =~= string_views(before).push(lines@[i as int]@));
        i = i + 1;
        assert(string_views(out@) =~= string_views(lines@).subrange(start as int, i as int));
    }
    out
}

} // verus!
