//! Small commands around an update: filing the tracking bug, editing the
//! commit stack, pushing a try run, forwarding a build command.

use vstd::prelude::*;
use vstd::string::StrSliceExecFns;
use vstd::string::StringExecFns;
use crate::config::{vcs_of_config, vcs_of_spec, Config, Vcs};
use crate::shell_cmd::CmdSpec;
use crate::strutil::{clone_strings, dec_str, u64_to_dec_string};

verus! {

/// Arguments for filing the tracking bug.
#[derive(Clone, Debug)]
pub struct BugzillaArgs {
    pub message: Option<String>,
    /// Open the resulting URL in a browser.
    pub open: bool,
}

/// Arguments forwarded verbatim to the build driver.
#[derive(Clone, Debug)]
pub struct MachArgs {
    pub command: Vec<String>,
}

/// How one character of a bug summary is escaped in the URL.
pub open spec fn escape_char(c: char) -> Seq<char> {
    if c == ' ' {
        "%20"@
    } else if c == '(' {
        "%28"@
    } else if c == ')' {
        "%29"@
    } else if c == '/' {
        "%2F"@
    } else if c == ':' {
        "%3A"@
    } else if c == '[' {
        "%5B"@
    } else if c == ']' {
        "%5D"@
    } else if c == '|' {
        "%7C"@
    } else if c == '~' {
        "%7E"@
    } else if c == '*' {
        "%2A"@
    } else if c == '@' {
        "%40"@
    } else if c == '\'' {
        "%27"@
    } else {
        seq![c]
    }
}

/// The summary escaped from position `i` on.
pub open spec fn escaped_from(s: Seq<char>, i: int) -> Seq<char>
    decreases s.len() - i,
    when 0 <= i <= s.len()
{
    if i >= s.len() {
        Seq::empty()
    } else {
        escape_char(s[i]) + escaped_from(s, i + 1)
    }
}

/// The fixed query parameters of the bug-filing URL.
pub open spec fn bugzilla_base() -> Seq<char> {
    "https://bugzilla.mozilla.org/enter_bug.cgi?&assigned_to=nobody%40mozilla.org&product=Core&component=Graphics%3A%20WebGPU&priority=P3&bug_severity=N%2FA&bug_type=task&bug_status=NEW&blocked=webgpu-update-wgpu"@
}

/// The whole bug-filing URL for an optional summary.
pub open spec fn bugzilla_url(message: Option<Seq<char>>) -> Seq<char> {
    match message {
        Some(m) => bugzilla_base() + "&short_desc="@ + escaped_from(m, 0),
        None => bugzilla_base(),
    }
}

/// Escape a bug summary for use in a URL query.
fn escape_message(s: &str) -> (r: String)
    ensures
        r@ == escaped_from(s@, 0),
{
    let n = s.unicode_len();
    let mut out = String::new();
    let mut i: usize = 0;
    while i < n
        invariant
            i <= n,
            n == s@.len(),
            escaped_from(s@, 0) == out@ + escaped_from(s@, i as int),
        decreases n - i,
    {
        let c = s.get_char(i);
        if c == ' ' {
            out.append("%20");
        } else if c == '(' {
            out.append("%28");
        } else if c == ')' {
            out.append("%29");
        } else if c == '/' {
            out.append("%2F");
        } else if c == ':' {
            out.append("%3A");
        } else if c == '[' {
            out.append("%5B");
        } else if c == ']' {
            out.append("%5D");
        } else if c == '|' {
            out.append("%7C");
        } else if c == '~' {
            out.append("%7E");
        } else if c == '*' {
            out.append("%2A");
        } else if c == '@' {
            out.append("%40");
        } else if c == '\'' {
            out.append("%27");
        } else {
            out.append(s.substring_char(i, i + 1));
            proof {
                assert(s@.subrange(i as int, i + 1) =~= escape_char(s@[i as int]));
            }
        }
        i = i + 1;
    }
    out
}

/// The URL under which the tracking bug for an update is filed, carrying
/// the escaped summary when one was given.
pub fn file_bug_url(args: &BugzillaArgs) -> (r: String)
    ensures
        r@ == bugzilla_url(crate::strutil::opt_str_view(args.message)),
{
    let base =
        "https://bugzilla.mozilla.org/enter_bug.cgi?&assigned_to=nobody%40mozilla.org&product=Core&component=Graphics%3A%20WebGPU&priority=P3&bug_severity=N%2FA&bug_type=task&bug_status=NEW&blocked=webgpu-update-wgpu";
    match &args.message {
        Some(m) => {
            let mut url = String::from_str(base);
            url.append("&short_desc=");
            let esc = escape_message(m.as_str());
            url.append(esc.as_str());
            url
        },
        None => String::from_str(base),
    }
}

/// The command that opens the bug-filing URL in a browser.
pub fn open_bug_command(url: &String) -> (r: CmdSpec)
    ensures
        r@.dir == "."@,
        r@.program == "firefox"@,
        r@.args =~= seq![url@],
{
    let mut args: Vec<String> = Vec::new();
    args.push(url.clone());
    CmdSpec { dir: String::from_str("."), program: String::from_str("firefox"), args: args }
}

/// The history-edit command for the configured version control system.
pub fn hg_histedit(config: &Config) -> (r: CmdSpec)
    requires
        config.gecko.vcs is Some,
    ensures
        r@.dir == config.gecko.path@,
        vcs_of_spec(config.gecko.vcs->0@) is Mercurial ==> r@.program == "hg"@ && r@.args
            =~= seq!["histedit"@],
        vcs_of_spec(config.gecko.vcs->0@) is Git ==> r@.program == "git"@ && r@.args
            =~= seq!["rebase"@, "-i"@, "central"@],
{
    let mut args: Vec<String> = Vec::new();
    match vcs_of_config(config) {
        Vcs::Mercurial => {
            args.push(String::from_str("histedit"));
            CmdSpec {
                dir: config.gecko.path.clone(),
                program: String::from_str("hg"),
                args: args,
            }
        },
        Vcs::Git => {
            args.push(String::from_str("rebase"));
            args.push(String::from_str("-i"));
            args.push(String::from_str("central"));
            CmdSpec {
                dir: config.gecko.path.clone(),
                program: String::from_str("git"),
                args: args,
            }
        },
    }
}

/// The build-driver command forwarding the given arguments unchanged.
pub fn run_mach_command(args: &MachArgs, config: &Config) -> (r: CmdSpec)
    ensures
        r@.dir == config.gecko.path@,
        r@.program == "./mach"@,
        r@.args == args.command.deep_view(),
{
    CmdSpec {
        dir: config.gecko.path.clone(),
        program: String::from_str("./mach"),
        args: clone_strings(&args.command),
    }
}

/// The try-push command: the webgpu preset, with an optional rebuild count.
pub fn push_to_try(rebuild: Option<u8>, config: &Config) -> (r: CmdSpec)
    ensures
        r@.dir == config.gecko.path@,
        r@.program == "./mach"@,
        match rebuild {
            Some(count) => r@.args =~= seq![
                "try"@,
                "--preset"@,
                "webgpu"@,
                "--rebuild"@,
                dec_str(count as int),
            ],
            None => r@.args =~= seq!["try"@, "--preset"@, "webgpu"@],
        },
{
    let mut args: Vec<String> = Vec::new();
    args.push(String::from_str("try"));
    args.push(String::from_str("--preset"));
    args.push(String::from_str("webgpu"));
    match rebuild {
        Some(count) => {
            args.push(String::from_str("--rebuild"));
            args.push(u64_to_dec_string(count as u64));
        },
        None => (),
    }
    CmdSpec {
        dir: config.gecko.path.clone(),
        program: String::from_str("./mach"),
        args: args,
    }
}

} // verus!
