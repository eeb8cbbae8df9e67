//! Port discovery: scanning the browser's diagnostic log for the line that
//! announces the control listener, extracting the assigned port, and
//! composing the diagnostic failure when the wait times out.

use vstd::prelude::*;
use crate::error::Error;
use crate::text::{
    all_digits, chars_of, copy_range, digit_val, digits_val, find_char, find_char_from, find_pat,
    find_pat_from, match_at,
};

verus! {

/// Fixed interval between polls of the diagnostic log, in milliseconds.
pub const POLL_INTERVAL_MS: u64 = 100;

/// Number of polls before discovery gives up: thirty seconds in all.
pub const DISCOVERY_MAX_POLLS: u64 = 300;

/// The marker of the line that announces the control listener.
pub open spec fn listening_marker() -> Seq<char> {
    "DevTools listening on"@
}

/// The host prefix the port token follows.
pub open spec fn host_prefix() -> Seq<char> {
    "127.0.0.1:"@
}

/// The port value of a token: defined when the token is a nonempty digit run
/// whose value fits a port number.
pub open spec fn port_token_value(tok: Seq<char>) -> Option<u16> {
    if tok.len() > 0 && all_digits(tok) && digits_val(tok) <= 65535 {
        Some(digits_val(tok) as u16)
    } else {
        None
    }
}

/// The port a single log line announces: the line must contain the marker,
/// and the digits after the first host prefix and before the next path
/// separator (or the end of the line) must form a valid port.
pub open spec fn line_port(line: Seq<char>) -> Option<u16> {
    if find_pat_from(line, listening_marker(), 0) is None {
        None
    } else {
        match find_pat_from(line, host_prefix(), 0) {
            None => None,
            Some(h) => {
                let start = h + host_prefix().len();
                let end = match find_char_from(line, '/', start) {
                    Some(e) => e,
                    None => line.len() as int,
                };
                port_token_value(line.subrange(start, end))
            },
        }
    }
}

/// The port announced by the first line, at or after `pos`, that yields one.
/// Lines end at a newline; a carriage return before the newline is not part
/// of the line.
pub open spec fn log_port_at(s: Seq<char>, pos: int) -> Option<u16>
    decreases s.len() - pos,
    when 0 <= pos <= s.len()
{
    if pos >= s.len() {
        None
    } else {
        let found = match find_char_from(s, '\n', pos) {
            Some(i) => i,
            None => s.len() as int,
        };
        let raw_end = if pos <= found <= s.len() {
            found
        } else {
            s.len() as int
        };
        let line_end = if raw_end > pos && s[raw_end - 1] == '\r' {
            raw_end - 1
        } else {
            raw_end
        };
        let next = if raw_end < s.len() {
            raw_end + 1
        } else {
            s.len() as int
        };
        match line_port(s.subrange(pos, line_end)) {
            Some(p) => Some(p),
            None => log_port_at(s, next),
        }
    }
}

/// The port the whole diagnostic log announces, if any.
pub open spec fn log_port(s: Seq<char>) -> Option<u16> {
    log_port_at(s, 0)
}

/// Where `find_char_from` points: at the first occurrence, within bounds.
pub proof fn lemma_find_char_props(s: Seq<char>, c: char, from: int)
    requires
        0 <= from,
    ensures
        match find_char_from(s, c, from) {
            Some(i) => from <= i < s.len() && s[i] == c,
            None => true,
        },
    decreases s.len() - from,
{
    if from >= s.len() {
    } else if s[from] == c {
    } else {
        lemma_find_char_props(s, c, from + 1);
    }
}

/// Where `find_pat_from` points: at a full match, within bounds.
pub proof fn lemma_find_pat_props(hay: Seq<char>, pat: Seq<char>, from: int)
    requires
        0 <= from,
    ensures
        match find_pat_from(hay, pat, from) {
            Some(i) => from <= i && match_at(hay, pat, i),
            None => true,
        },
    decreases hay.len() - from,
{
    if from + pat.len() > hay.len() {
    } else if match_at(hay, pat, from) {
    } else {
        lemma_find_pat_props(hay, pat, from + 1);
    }
}

/// A prefix of a digit string never exceeds the whole string's value.
proof fn lemma_digits_val_prefix(s: Seq<char>, j: int)
    requires
        0 <= j <= s.len(),
    ensures
        digits_val(s.take(j)) <= digits_val(s),
    decreases s.len(),
{
    if j == s.len() {
        assert(s.take(j) =~= s);
    } else {
        assert(s.take(j) =~= s.drop_last().take(j));
        lemma_digits_val_prefix(s.drop_last(), j);
    }
}

/// Parse the digit run `v[lo..hi]` as a port number.
fn parse_port(v: &Vec<char>, lo: usize, hi: usize) -> (r: Option<u16>)
    requires
        lo <= hi <= v@.len(),
    ensures
        r == port_token_value(v@.subrange(lo as int, hi as int)),
{
    let ghost tok = v@.subrange(lo as int, hi as int);
    if lo == hi {
        return None;
    }
    let mut acc: u32 = 0;
    let mut i: usize = lo;
    while i < hi
        invariant
            lo <= i <= hi <= v@.len(),
            tok == v@.subrange(lo as int, hi as int),
            all_digits(tok.take(i - lo)),
            acc == digits_val(tok.take(i - lo)),
            acc <= 65535,
        decreases hi - i,
    {
        let c = v[i];
        proof {
            assert(tok[i - lo] == v@[i as int]);
        }
        if !(c >= '0' && c <= '9') {
            proof {
                assert(!all_digits(tok));
            }
            return None;
        }
        let d: u32 = (c as u32) - ('0' as u32);
        let newacc: u32 = acc * 10 + d;
        proof {
            assert(tok.take(i - lo + 1).drop_last() =~= tok.take(i - lo));
            assert(tok.take(i - lo + 1).last() == tok[i - lo]);
            assert(d == digit_val(tok[i - lo]));
            assert(digits_val(tok.take(i - lo + 1)) == acc * 10 + d);
        }
        if newacc > 65535 {
            proof {
                lemma_digits_val_prefix(tok, i - lo + 1);
                assert(digits_val(tok) > 65535);
            }
            return None;
        }
        acc = newacc;
        i += 1;
    }
    proof {
        assert(tok.take(hi - lo) =~= tok);
        assert(all_digits(tok));
        assert(acc == digits_val(tok));
    }
    Some(acc as u16)
}

/// Extract the announced port from one log line, if the line announces one.
pub fn extract_port_from_line(line: &Vec<char>) -> (r: Option<u16>)
    ensures
        r == line_port(line@),
{
    let marker = chars_of("DevTools listening on");
    if find_pat(line, &marker, 0).is_none() {
        return None;
    }
    let host = chars_of("127.0.0.1:");
    let h = match find_pat(line, &host, 0) {
        Some(h) => h,
        None => {
            return None;
        },
    };
    let line_len = line.len();
    let host_len = host.len();
    proof {
        lemma_find_pat_props(line@, host_prefix(), 0);
        assert(h + host_len <= line_len);
    }
    let start = h + host_len;
    let end = match find_char(line, '/', start) {
        Some(e) => e,
        None => line.len(),
    };
    proof {
        lemma_find_char_props(line@, '/', start as int);
    }
    parse_port(line, start, end)
}

/// Scan the whole diagnostic log for the first line that announces the
/// control listener with a valid port.
pub fn discover_port_in_log(content: &str) -> (r: Option<u16>)
    ensures
        r == log_port(content@),
{
    let v = chars_of(content);
    let n = v.len();
    let mut pos: usize = 0;
    while pos < n
        invariant
            n == v@.len(),
            v@ == content@,
            pos <= n,
            log_port(content@) == log_port_at(v@, pos as int),
        decreases n - pos,
    {
        let raw_end = match find_char(&v, '\n', pos) {
            Some(i) => i,
            None => n,
        };
        proof {
            lemma_find_char_props(v@, '\n', pos as int);
        }
        let line_end = if raw_end > pos && v[raw_end - 1] == '\r' {
            raw_end - 1
        } else {
            raw_end
        };
        let line = copy_range(&v, pos, line_end);
        let next = if raw_end < n {
            raw_end + 1
        } else {
            n
        };
        match extract_port_from_line(&line) {
            Some(p) => {
                proof {
                    assert(log_port_at(v@, pos as int) == Some(p));
                }
                return Some(p);
            },
            None => {
                proof {
                    assert(log_port_at(v@, pos as int) == log_port_at(v@, next as int));
                }
                pos = next;
            },
        }
    }
    None
}

/// What the launcher knows of the child process when discovery gives up.
#[derive(Debug, PartialEq)]
pub enum ProcessState {
    /// The process already exited, with its rendered exit status.
    ExitedEarly(String),
    /// The process is still running but never announced a port.
    StillRunning,
}

/// The captured diagnostic log, or a placeholder when it cannot be read.
pub open spec fn stderr_or_placeholder(o: Option<Seq<char>>) -> Seq<char> {
    match o {
        Some(s) => s,
        None => "(unreadable)"@,
    }
}

/// The view of an optional borrowed string.
pub open spec fn opt_str_view(o: Option<&str>) -> Option<Seq<char>> {
    match o {
        Some(s) => Some(s@),
        None => None,
    }
}

/// The context common to both discovery failures: platform, executable,
/// profile directory, and the captured diagnostic log.
pub open spec fn discovery_failure_head(
    os: Seq<char>,
    exe: Seq<char>,
    dir: Seq<char>,
    stderr: Option<Seq<char>>,
) -> Seq<char> {
    "=== Chrome Browser Launch Failure ===\nOS: "@ + os + "\nChrome Executable: \""@ + exe
        + "\"\nUser Data Dir: \""@ + dir + "\"\n=== Chrome stderr ===\n"@
        + stderr_or_placeholder(stderr) + "\n=== End of stderr ==="@
}

/// The full discovery-failure message: the common context, then either the
/// early-exit report with the child's status, or the live-but-unbound report.
pub open spec fn discovery_failure_message(
    os: Seq<char>,
    exe: Seq<char>,
    dir: Seq<char>,
    stderr: Option<Seq<char>>,
    state: ProcessState,
) -> Seq<char> {
    discovery_failure_head(os, exe, dir, stderr) + match state {
        ProcessState::ExitedEarly(st) => "\n\nChrome process exited early with status: "@ + st@,
        ProcessState::StillRunning =>
            "\n\nChrome process is still running but debugging port was not found after 30 seconds.\n\nTroubleshooting:\n- If running in CI, ensure Chrome/Chromium is installed\n- Try setting CHROME_BIN environment variable\n- For Linux CI, add --no-sandbox flag"@,
    }
}

/// Compose the diagnostic error for a discovery timeout. The message says
/// whether the child exited early (and with what status) or is still running
/// with no port found.
pub fn discovery_failure(
    os_info: &str,
    executable: &str,
    profile_dir: &str,
    stderr_log: Option<&str>,
    state: &ProcessState,
) -> (r: Error)
    ensures
        r matches Error::Browser(m) && m@ == discovery_failure_message(
            os_info@,
            executable@,
            profile_dir@,
            opt_str_view(stderr_log),
            *state,
        ),
{
    let mut m = String::new();
    m.append("=== Chrome Browser Launch Failure ===\nOS: ");
    m.append(os_info);
    m.append("\nChrome Executable: \"");
    m.append(executable);
    m.append("\"\nUser Data Dir: \"");
    m.append(profile_dir);
    m.append("\"\n=== Chrome stderr ===\n");
    match stderr_log {
        Some(s) => m.append(s),
        None => m.append("(unreadable)"),
    }
    m.append("\n=== End of stderr ===");
    proof {
        assert(m@ =~= discovery_failure_head(
            os_info@,
            executable@,
            profile_dir@,
            opt_str_view(stderr_log),
        ));
    }
    match state {
        ProcessState::ExitedEarly(st) => {
            m.append("\n\nChrome process exited early with status: ");
            m.append(st.as_str());
        },
        ProcessState::StillRunning => {
            m.append(
                "\n\nChrome process is still running but debugging port was not found after 30 seconds.\n\nTroubleshooting:\n- If running in CI, ensure Chrome/Chromium is installed\n- Try setting CHROME_BIN environment variable\n- For Linux CI, add --no-sandbox flag",
            );
        },
    }
    proof {
        assert(m@ =~= discovery_failure_message(
            os_info@,
            executable@,
            profile_dir@,
            opt_str_view(stderr_log),
            *state,
        ));
    }
    Error::Browser(m)
}

/// The two discovery-failure reports can never be confused: for any context,
/// the early-exit message differs from the live-but-unbound message.
pub proof fn lemma_discovery_failure_distinguishes(
    os: Seq<char>,
    exe: Seq<char>,
    dir: Seq<char>,
    stderr: Option<Seq<char>>,
    a: ProcessState,
    b: ProcessState,
)
    requires
        a is ExitedEarly,
        b is StillRunning,
    ensures
        discovery_failure_message(os, exe, dir, stderr, a) != discovery_failure_message(
            os,
            exe,
            dir,
            stderr,
            b,
        ),
{
    reveal_strlit("\n\nChrome process exited early with status: ");
    reveal_strlit(
        "\n\nChrome process is still running but debugging port was not found after 30 seconds.\n\nTroubleshooting:\n- If running in CI, ensure Chrome/Chromium is installed\n- Try setting CHROME_BIN environment variable\n- For Linux CI, add --no-sandbox flag",
    );
    let head = discovery_failure_head(os, exe, dir, stderr);
    let ma = discovery_failure_message(os, exe, dir, stderr, a);
    let mb = discovery_failure_message(os, exe, dir, stderr, b);
    let i = head.len() + 17;
    assert(ma[i as int] == 'e');
    assert(mb[i as int] == 'i');
}

} // verus!
