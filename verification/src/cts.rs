//! Conformance-test-suite chores: fetching try-run results, turning them
//! into updated test expectations, running a query locally.

use vstd::prelude::*;
use vstd::string::StrSliceExecFns;
use vstd::string::StringExecFns;
use crate::config::{vcs_of_config, vcs_of_spec, Config, Vcs};
use crate::shell_cmd::{CmdSpec, CmdSpecV};
use crate::strutil::{
    char_len, clone_strings, concat2, concat3, ends_with, find_char, find_char_exec, rfind_char,
    rfind_char_exec, split_raw, split_raw_exec, starts_with, substr_copy,
};

verus! {

/// Arguments of the test-suite subcommands.
#[derive(Clone, Debug)]
pub struct Args {
    pub sub_command: SubCommand,
    pub config: Option<String>,
}

/// The test-suite subcommands.
#[derive(Clone, Debug)]
pub enum SubCommand {
    /// Fetch the provided try revision into a temporary directory.
    Fetch { rev: String },
    /// Delete the temporary directory.
    Cleanup,
    /// Process results in the temporary directory and update expectations.
    Expectations { fetch: Option<String>, cleanup: bool },
    /// Run a test query locally.
    Run { query: String },
}

/// The directory holding fetched results: `tmp-cts` beside the central
/// checkout.
pub open spec fn temp_dir_spec(path: Seq<char>) -> Seq<char> {
    match rfind_char(path, '/', 0, path.len() as int) {
        Some(i) => path.subrange(0, i) + "/tmp-cts"@,
        None => "tmp-cts"@,
    }
}

/// The last path component of the central checkout.
pub open spec fn last_component(path: Seq<char>) -> Seq<char> {
    match rfind_char(path, '/', 0, path.len() as int) {
        Some(i) => path.subrange(i + 1, path.len() as int),
        None => path,
    }
}

/// The temporary directory fetched results land in.
pub fn temp_cts_result_dir(config: &Config) -> (r: String)
    ensures
        r@ == temp_dir_spec(config.gecko.path@),
{
    let p = config.gecko.path.as_str();
    let n = char_len(p);
    match rfind_char_exec(p, '/', 0, n) {
        Some(i) => {
            let head = substr_copy(p, 0, i);
            concat2(head.as_str(), "/tmp-cts")
        },
        None => String::from_str("tmp-cts"),
    }
}

/// The fetch command, run inside the temporary directory.
pub open spec fn fetch_cmd_spec(path: Seq<char>, rev: Seq<char>) -> CmdSpecV {
    CmdSpecV {
        dir: temp_dir_spec(path),
        program: "../"@ + last_component(path) + "/mach"@,
        args: seq!["wpt-fetch-logs"@, "try:"@ + rev],
    }
}

/// The command that pulls a try revision's logs into the temporary
/// directory (which the caller creates first).
pub fn fetch_cts_results_command(config: &Config, rev: &str) -> (r: CmdSpec)
    ensures
        r@ =~= fetch_cmd_spec(config.gecko.path@, rev@),
{
    let p = config.gecko.path.as_str();
    let n = char_len(p);
    let name = match rfind_char_exec(p, '/', 0, n) {
        Some(i) => substr_copy(p, i + 1, n),
        None => String::from_str(p),
    };
    let mut args: Vec<String> = Vec::new();
    args.push(String::from_str("wpt-fetch-logs"));
    args.push(concat2("try:", rev));
    CmdSpec {
        dir: temp_cts_result_dir(config),
        program: concat3("../", name.as_str(), "/mach"),
        args: args,
    }
}

/// The result files among a directory listing, from index `i` on: the
/// names ending in `.json`, in order.
pub open spec fn json_names_from(names: Seq<Seq<char>>, i: int) -> Seq<Seq<char>>
    decreases names.len() - i,
    when 0 <= i <= names.len()
{
    if i >= names.len() {
        Seq::empty()
    } else if (".json"@).is_suffix_of(names[i]) {
        seq![names[i]] + json_names_from(names, i + 1)
    } else {
        json_names_from(names, i + 1)
    }
}

/// The names ending in `.json`, kept in order.
pub fn json_file_names(names: &Vec<String>) -> (r: Vec<String>)
    ensures
        r.deep_view() == json_names_from(names.deep_view(), 0),
{
    let ghost namesv = names.deep_view();
    let mut r: Vec<String> = Vec::new();
    let n = names.len();
    let mut i: usize = 0;
    while i < n
        invariant
            i <= n,
            n == names@.len(),
            namesv == names.deep_view(),
            json_names_from(namesv, 0) =~= r.deep_view() + json_names_from(namesv, i as int),
        decreases n - i,
    {
        proof {
            assert(namesv[i as int] == names@[i as int]@);
        }
        let ghost before = r.deep_view();
        if ends_with(names[i].as_str(), ".json") {
            r.push(names[i].clone());
            proof {
                assert(r.deep_view() =~= before.push(namesv[i as int]));
                assert(before.push(namesv[i as int]) + json_names_from(namesv, i + 1)
                    =~= before + json_names_from(namesv, i as int));
            }
        }
        i = i + 1;
    }
    proof {
        assert(r.deep_view() + json_names_from(namesv, n as int) =~= r.deep_view());
    }
    r
}

/// The expectation-update command over the fetched result files.
pub open spec fn process_reports_spec(path: Seq<char>, files: Seq<Seq<char>>) -> CmdSpecV {
    CmdSpecV {
        dir: path,
        program: "moz-webgpu-cts"@,
        args: seq!["process-reports"@, "--preset=reset-contradictory"@] + files,
    }
}

/// The command that rewrites the test expectations from the fetched
/// result files.
pub fn process_reports_command(config: &Config, json_files: &Vec<String>) -> (r: CmdSpec)
    ensures
        r@ =~= process_reports_spec(config.gecko.path@, json_files.deep_view()),
{
    let mut args: Vec<String> = Vec::new();
    args.push(String::from_str("process-reports"));
    args.push(String::from_str("--preset=reset-contradictory"));
    let mut files = clone_strings(json_files);
    let ghost two = args.deep_view();
    let ghost filesv = files.deep_view();
    args.append(&mut files);
    proof {
        assert(args.deep_view() =~= two + filesv);
        assert(two + filesv =~= seq!["process-reports"@, "--preset=reset-contradictory"@]
            + json_files.deep_view());
    }
    CmdSpec {
        dir: config.gecko.path.clone(),
        program: String::from_str("moz-webgpu-cts"),
        args: args,
    }
}

/// The commit command for the configured version control system.
pub open spec fn commit_cmd_spec(path: Seq<char>, vcs: Vcs, msg: Seq<char>) -> CmdSpecV {
    match vcs {
        Vcs::Mercurial => CmdSpecV {
            dir: path,
            program: "hg"@,
            args: seq!["commit"@, "-m"@, msg],
        },
        Vcs::Git => CmdSpecV { dir: path, program: "git"@, args: seq!["commit"@, "-am"@, msg] },
    }
}

/// The command committing the working tree with the given message.
pub fn commit_command(config: &Config, msg: &str) -> (r: CmdSpec)
    requires
        config.gecko.vcs is Some,
    ensures
        r@ =~= commit_cmd_spec(config.gecko.path@, vcs_of_spec(config.gecko.vcs->0@), msg@),
{
    let mut args: Vec<String> = Vec::new();
    match vcs_of_config(config) {
        Vcs::Mercurial => {
            args.push(String::from_str("commit"));
            args.push(String::from_str("-m"));
            args.push(String::from_str(msg));
            CmdSpec {
                dir: config.gecko.path.clone(),
                program: String::from_str("hg"),
                args: args,
            }
        },
        Vcs::Git => {
            args.push(String::from_str("commit"));
            args.push(String::from_str("-am"));
            args.push(String::from_str(msg));
            CmdSpec {
                dir: config.gecko.path.clone(),
                program: String::from_str("git"),
                args: args,
            }
        },
    }
}

/// The command deleting the temporary directory.
pub open spec fn cleanup_cmd_spec(path: Seq<char>) -> CmdSpecV {
    CmdSpecV { dir: "."@, program: "rm"@, args: seq!["-rf"@, temp_dir_spec(path)] }
}

/// The command that deletes the temporary result directory.
pub fn cleanup_command(config: &Config) -> (r: CmdSpec)
    ensures
        r@ =~= cleanup_cmd_spec(config.gecko.path@),
{
    let mut args: Vec<String> = Vec::new();
    args.push(String::from_str("-rf"));
    args.push(temp_cts_result_dir(config));
    CmdSpec { dir: String::from_str("."), program: String::from_str("rm"), args: args }
}

/// The query's path segments joined, each followed by a slash.
pub open spec fn segs_joined(segs: Seq<Seq<char>>, i: int) -> Seq<char>
    decreases segs.len() - i,
    when 0 <= i <= segs.len()
{
    if i >= segs.len() {
        Seq::empty()
    } else {
        segs[i] + "/"@ + segs_joined(segs, i + 1)
    }
}

/// The query with its optional `q=` and `webgpu:` prefixes removed.
pub open spec fn query_tail(q: Seq<char>) -> Seq<char> {
    let q1 = if ("q="@).is_prefix_of(q) {
        q.skip("q="@.len() as int)
    } else {
        q
    };
    if ("webgpu:"@).is_prefix_of(q1) {
        q1.skip("webgpu:"@.len() as int)
    } else {
        q1
    }
}

/// The web-platform-test path a query runs under: the suite prefix, the
/// query's comma-separated path segments as directories, then the test
/// page with the query itself.
pub open spec fn wpt_path_spec(q: Seq<char>) -> Seq<char> {
    let tail = query_tail(q);
    let path_end = match find_char(tail, ':', 0, tail.len() as int) {
        Some(c) => c,
        None => tail.len() as int,
    };
    let segs = split_raw(tail, ',', 0, path_end);
    "_mozilla/webgpu/cts/webgpu/"@ + segs_joined(segs, 0) + "cts.https.html?q=webgpu:"@ + tail
}

/// Turn a test query into the path handed to the web-platform-test runner.
pub fn cts_test_path(query: &str) -> (r: String)
    ensures
        r@ == wpt_path_spec(query@),
{
    let n = char_len(query);
    let q1 = if starts_with(query, "q=") {
        let pl = char_len("q=");
        substr_copy(query, pl, n)
    } else {
        substr_copy(query, 0, n)
    };
    proof {
        assert(query@.subrange(0, query@.len() as int) =~= query@);
        assert(query@.skip("q="@.len() as int) =~= query@.subrange(
            "q="@.len() as int,
            query@.len() as int,
        ));
    }
    let n1 = char_len(q1.as_str());
    let tail = if starts_with(q1.as_str(), "webgpu:") {
        let pl = char_len("webgpu:");
        substr_copy(q1.as_str(), pl, n1)
    } else {
        substr_copy(q1.as_str(), 0, n1)
    };
    proof {
        assert(q1@.subrange(0, q1@.len() as int) =~= q1@);
        assert(q1@.skip("webgpu:"@.len() as int) =~= q1@.subrange(
            "webgpu:"@.len() as int,
            q1@.len() as int,
        ));
        assert(tail@ == query_tail(query@));
    }
    let tn = char_len(tail.as_str());
    let path_end = match find_char_exec(tail.as_str(), ':', 0, tn) {
        Some(c) => c,
        None => tn,
    };
    let segs = split_raw_exec(tail.as_str(), ',', 0, path_end);
    let ghost segsv = segs.deep_view();
    let mut out = String::from_str("_mozilla/webgpu/cts/webgpu/");
    let sn = segs.len();
    let mut i: usize = 0;
    while i < sn
        invariant
            i <= sn,
            sn == segs@.len(),
            segsv == segs.deep_view(),
            out@ + segs_joined(segsv, i as int) == "_mozilla/webgpu/cts/webgpu/"@ + segs_joined(
                segsv,
                0,
            ),
        decreases sn - i,
    {
        proof {
            assert(segsv[i as int] == segs@[i as int]@);
        }
        out.append(segs[i].as_str());
        out.append("/");
        i = i + 1;
    }
    out.append("cts.https.html?q=webgpu:");
    out.append(tail.as_str());
    out
}

/// The command that runs a query locally through the test runner.
pub open spec fn run_cmd_spec(path: Seq<char>, query: Seq<char>) -> CmdSpecV {
    CmdSpecV { dir: path, program: "./mach"@, args: seq!["wpt"@, wpt_path_spec(query)] }
}

/// The local test-run command for a query.
pub fn run_cts_command(config: &Config, query: &str) -> (r: CmdSpec)
    ensures
        r@ =~= run_cmd_spec(config.gecko.path@, query@),
{
    let mut args: Vec<String> = Vec::new();
    args.push(String::from_str("wpt"));
    args.push(cts_test_path(query));
    CmdSpec {
        dir: config.gecko.path.clone(),
        program: String::from_str("./mach"),
        args: args,
    }
}

/// Everything the shell needs to carry out one subcommand.  The
/// expectation flow needs the fetched file names before its processing
/// step, so that step is built separately by [`process_reports_command`].
pub enum CtsAction {
    /// Create the directory, then run the fetch.
    Fetch { create_dir: String, cmd: CmdSpec },
    /// Delete the temporary directory.
    Cleanup { cmd: CmdSpec },
    /// Optionally fetch first; commit before and after processing; clean
    /// up at the end when asked to.
    Expectations {
        fetch: Option<CmdSpec>,
        fetch_create_dir: Option<String>,
        pre_commit: CmdSpec,
        post_commit: CmdSpec,
        cleanup: Option<CmdSpec>,
    },
    /// Run the query locally.
    Run { cmd: CmdSpec },
}

/// Decide what a subcommand does, as plain commands for the shell.
pub fn command(args: &Args, config: &Config) -> (r: CtsAction)
    requires
        config.gecko.vcs is Some,
    ensures
        ({
            let path = config.gecko.path@;
            let vcs = vcs_of_spec(config.gecko.vcs->0@);
            match args.sub_command {
                SubCommand::Fetch { rev } => (r matches CtsAction::Fetch { create_dir, cmd }
                    && create_dir@ == temp_dir_spec(path) && cmd@ =~= fetch_cmd_spec(path, rev@)),
                SubCommand::Cleanup => (r matches CtsAction::Cleanup { cmd } && cmd@
                    =~= cleanup_cmd_spec(path)),
                SubCommand::Expectations { fetch, cleanup } => (r
                    matches CtsAction::Expectations {
                        fetch: f,
                        fetch_create_dir: fd,
                        pre_commit,
                        post_commit,
                        cleanup: cl,
                    } && (match fetch {
                    Some(rev) => (f matches Some(fc) && fc@ =~= fetch_cmd_spec(path, rev@) && (
                    fd matches Some(d) && d@ == temp_dir_spec(path))),
                    None => f is None && fd is None,
                }) && pre_commit@ =~= commit_cmd_spec(
                    path,
                    vcs,
                    "(Don't land) uncommitted changes before running the command"@,
                ) && post_commit@ =~= commit_cmd_spec(
                    path,
                    vcs,
                    "Update WebGPU CTS test expectations"@,
                ) && (if cleanup {
                    (cl matches Some(c) && c@ =~= cleanup_cmd_spec(path))
                } else {
                    cl is None
                })),
                SubCommand::Run { query } => (r matches CtsAction::Run { cmd } && cmd@
                    =~= run_cmd_spec(path, query@)),
            }
        }),
{
    match &args.sub_command {
        SubCommand::Fetch { rev } => CtsAction::Fetch {
            create_dir: temp_cts_result_dir(config),
            cmd: fetch_cts_results_command(config, rev.as_str()),
        },
        SubCommand::Cleanup => CtsAction::Cleanup { cmd: cleanup_command(config) },
        SubCommand::Expectations { fetch, cleanup } => {
            let (f, fd) = match fetch {
                Some(rev) => (
                    Some(fetch_cts_results_command(config, rev.as_str())),
                    Some(temp_cts_result_dir(config)),
                ),
                None => (None, None),
            };
            CtsAction::Expectations {
                fetch: f,
                fetch_create_dir: fd,
                pre_commit: commit_command(
                    config,
                    "(Don't land) uncommitted changes before running the command",
                ),
                post_commit: commit_command(config, "Update WebGPU CTS test expectations"),
                cleanup: if *cleanup {
                    Some(cleanup_command(config))
                } else {
                    None
                },
            }
        },
        SubCommand::Run { query } => CtsAction::Run { cmd: run_cts_command(config, query.as_str()) },
    }
}

} // verus!
