//! Process launch planning: executable resolution, the flag set the browser
//! is started with, and the per-launch profile directory name.

use vstd::prelude::*;

verus! {

/// The platform the launcher runs on; decides the default executable.
#[derive(Clone, Copy, Debug, PartialEq, Eq, Structural)]
pub enum OsKind {
    Windows,
    MacOs,
    Linux,
    Other,
}

/// The platform's default browser executable path.
pub open spec fn default_executable_spec(os: OsKind) -> Seq<char> {
    match os {
        OsKind::Windows => "C:\\Program Files\\Google\\Chrome\\Application\\chrome.exe"@,
        OsKind::MacOs => "/Applications/Google Chrome.app/Contents/MacOS/Google Chrome"@,
        OsKind::Linux => "/usr/bin/google-chrome"@,
        OsKind::Other => "chrome"@,
    }
}

/// The executable the launcher uses: the explicit path if given, else the
/// environment override if set, else the platform default.
pub open spec fn resolved_executable_spec(
    explicit: Option<Seq<char>>,
    env_override: Option<Seq<char>>,
    os: OsKind,
) -> Seq<char> {
    match explicit {
        Some(p) => p,
        None => match env_override {
            Some(p) => p,
            None => default_executable_spec(os),
        },
    }
}

/// The platform's default browser executable path.
pub fn default_executable(os: OsKind) -> (r: String)
    ensures
        r@ == default_executable_spec(os),
{
    match os {
        OsKind::Windows => String::from_str(
            "C:\\Program Files\\Google\\Chrome\\Application\\chrome.exe",
        ),
        OsKind::MacOs => String::from_str(
            "/Applications/Google Chrome.app/Contents/MacOS/Google Chrome",
        ),
        OsKind::Linux => String::from_str("/usr/bin/google-chrome"),
        OsKind::Other => String::from_str("chrome"),
    }
}

/// Resolve the executable path: explicit argument first, then the
/// environment override, then the platform default.
pub fn resolve_executable(explicit: Option<String>, env_override: Option<String>, os: OsKind) -> (r:
    String)
    ensures
        r@ == resolved_executable_spec(
            match explicit {
                Some(p) => Some(p@),
                None => None,
            },
            match env_override {
                Some(p) => Some(p@),
                None => None,
            },
            os,
        ),
{
    match explicit {
        Some(p) => p,
        None => match env_override {
            Some(p) => p,
            None => default_executable(os),
        },
    }
}

/// The name of the disposable per-launch profile directory, from a token
/// unique to this launch.
pub fn profile_dir_name(token: &str) -> (r: String)
    ensures
        r@ == "chrome-"@ + token@,
{
    let mut s = String::new();
    s.append("chrome-");
    s.append(token);
    proof {
        assert(s@ =~~= "chrome-"@ + token@);
    }
    s
}

/// Relies on uuid::Uuid::new_v4 and its hyphenated lowercase rendering: a
/// fresh random identifier; nothing is promised of its value beyond the
/// rendered length of thirty-six characters.
#[verifier::external_body]
pub fn fresh_launch_token() -> (r: String)
    ensures
        r@.len() == 36,
{
    uuid::Uuid::new_v4().to_string()
}

/// The platform description embedded in diagnostic failures: name,
/// architecture, and family.
pub fn os_info_string(os: &str, arch: &str, family: &str) -> (r: String)
    ensures
        r@ == os@ + " "@ + arch@ + " ("@ + family@ + ")"@,
{
    let mut s = String::new();
    s.append(os);
    s.append(" ");
    s.append(arch);
    s.append(" (");
    s.append(family);
    s.append(")");
    proof {
        assert(s@ =~= os@ + " "@ + arch@ + " ("@ + family@ + ")"@);
    }
    s
}

/// The flags every launch passes, in order: an OS-assigned debug port, the
/// isolated profile, no credential-store prompts, no first-run UI, headless
/// when asked, then the caller's extra flags, which by coming last can
/// override the defaults.
pub open spec fn launch_args_spec(
    profile_dir: Seq<char>,
    headless: bool,
    extra: Seq<Seq<char>>,
) -> Seq<Seq<char>> {
    seq!["--remote-debugging-port=0"@, "--user-data-dir="@ + profile_dir, "--password-store=basic"@, "--no-first-run"@]
        + (if headless {
        seq!["--headless"@]
    } else {
        Seq::empty()
    }) + extra
}

/// Assemble the launch flag set.
pub fn launch_args(profile_dir: &str, headless: bool, extra: &Vec<String>) -> (r: Vec<String>)
    ensures
        r.deep_view() == launch_args_spec(profile_dir@, headless, extra.deep_view()),
{
    let mut args: Vec<String> = Vec::new();
    args.push(String::from_str("--remote-debugging-port=0"));
    let mut dir_flag = String::new();
    dir_flag.append("--user-data-dir=");
    dir_flag.append(profile_dir);
    args.push(dir_flag);
    args.push(String::from_str("--password-store=basic"));
    args.push(String::from_str("--no-first-run"));
    if headless {
        args.push(String::from_str("--headless"));
    }
    let ghost full = launch_args_spec(profile_dir@, headless, extra.deep_view());
    let base = args.len();
    proof {
        assert(base + extra@.len() == full.len());
        assert(forall|j: int| 0 <= j < base ==> args@[j]@ == full[j]);
    }
    let n = extra.len();
    let mut i: usize = 0;
    while i < n
        invariant
            n == extra@.len(),
            i <= n,
            args@.len() == base + i,
            base + n == full.len(),
            full == launch_args_spec(profile_dir@, headless, extra.deep_view()),
            forall|j: int| 0 <= j < args@.len() ==> #[trigger] args@[j]@ == full[j],
            forall|j: int| 0 <= j < n ==> full[base + j] == #[trigger] extra@[j]@,
        decreases n - i,
    {
        args.push(extra[i].clone());
        i += 1;
    }
    proof {
        assert(args.deep_view() =~~= full);
    }
    args
}

/// The flags the session manager asks a launch for, in order: automation
/// control hidden, then the sandbox-relaxing flags continuous-integration
/// environments need, then the session's own extra flags.
pub open spec fn session_args_spec(ci: bool, custom: Seq<Seq<char>>) -> Seq<Seq<char>> {
    seq!["--disable-blink-features=AutomationControlled"@] + (if ci {
        seq!["--disable-gpu"@, "--no-sandbox"@, "--disable-setuid-sandbox"@]
    } else {
        Seq::empty()
    }) + custom
}

/// Assemble the session manager's flag set.
pub fn session_args(ci: bool, custom: &Vec<String>) -> (r: Vec<String>)
    ensures
        r.deep_view() == session_args_spec(ci, custom.deep_view()),
{
    let mut args: Vec<String> = Vec::new();
    args.push(String::from_str("--disable-blink-features=AutomationControlled"));
    if ci {
        args.push(String::from_str("--disable-gpu"));
        args.push(String::from_str("--no-sandbox"));
        args.push(String::from_str("--disable-setuid-sandbox"));
    }
    let ghost full = session_args_spec(ci, custom.deep_view());
    let base = args.len();
    proof {
        assert(base + custom@.len() == full.len());
        assert(forall|j: int| 0 <= j < base ==> args@[j]@ == full[j]);
    }
    let n = custom.len();
    let mut i: usize = 0;
    while i < n
        invariant
            n == custom@.len(),
            i <= n,
            args@.len() == base + i,
            base + n == full.len(),
            full == session_args_spec(ci, custom.deep_view()),
            forall|j: int| 0 <= j < args@.len() ==> #[trigger] args@[j]@ == full[j],
            forall|j: int| 0 <= j < n ==> full[base + j] == #[trigger] custom@[j]@,
        decreases n - i,
    {
        args.push(custom[i].clone());
        i += 1;
    }
    proof {
        assert(args.deep_view() =~~= full);
    }
    args
}

} // verus!
