//! Planning a full wgpu update of the central repository: resolve the
//! parameters, patch the two manifests, refresh the lock file, certify the
//! version deltas and vendor the result — each step as a plain command or
//! patch request for the shell around the library.

use vstd::prelude::*;
use vstd::string::StrSliceExecFns;
use vstd::string::StringExecFns;
use crate::cli::{concat_path, concat_path_spec};
use crate::config::{vcs_of_config, vcs_of_spec, Config, Vcs};
use crate::cts::commit_cmd_spec;
use crate::delta::Delta;
use crate::patcher::{ups_view, Update, UpdateV};
use crate::shell_cmd::{CmdSpec, CmdSpecV};
use crate::strutil::{
    concat3, contains_sub, contains_sub_exec, opt_str_view, split_raw, split_raw_exec, str_eq,
};
use crate::version::{vet_label, Version};

verus! {

/// The wgpu repository updates point at unless the configuration
/// overrides it.
pub fn default_wgpu_repository() -> (r: String)
    ensures
        r@ == "https://github.com/gfx-rs/wgpu"@,
{
    String::from_str("https://github.com/gfx-rs/wgpu")
}

/// Arguments of the wgpu-update command.
#[derive(Clone, Debug)]
pub struct Args {
    /// The new wgpu revision to update to.
    pub git_hash: Option<String>,
    /// The bug number.
    pub bug: Option<String>,
    /// Detect the latest wgpu version from a local checkout.
    pub auto: bool,
    /// Vet from the base revision instead of from commit to commit.
    pub vet_from_base_revision: bool,
    /// Configuration file to use.
    pub config: Option<String>,
    /// Start a build at the end.
    pub build: bool,
    /// The three review-request identifiers, comma separated, when
    /// already-submitted patches are being regenerated.
    pub phab_revisions: Option<String>,
    /// Skip the steps that check the tree starts in a good state.
    pub skip_preamble: bool,
}

/// The merged configuration and arguments a run works from.
#[derive(Clone, Debug)]
pub struct Parameters {
    pub wgpu_rev: String,
    pub bug: Option<String>,
    pub gecko_path: String,
    pub vcs: Vcs,
    pub phab_revisions: Option<Vec<String>>,
    pub repository: String,
    pub preamble: bool,
    pub build: bool,
}

/// The review-request list, when present, names exactly three patches.
pub open spec fn params_wf(p: Parameters) -> bool {
    match p.phab_revisions {
        Some(revs) => revs@.len() == 3,
        None => true,
    }
}

/// Why the parameters could not be assembled.
#[derive(Clone, Copy, Debug, PartialEq, Eq, Structural)]
pub enum ParamError {
    /// Neither an explicit revision nor a detected one was supplied.
    MissingRevision,
    /// The review-request list does not name three patches.
    PhabRevisions,
}

/// Does the argument set carry a usable revision?
pub open spec fn revision_available(args: Args, detected: Option<Version>) -> bool {
    if args.auto {
        detected is Some
    } else {
        args.git_hash is Some
    }
}

/// Does the review-request list, if given, split into at least three?
pub open spec fn phab_ok(args: Args) -> bool {
    match args.phab_revisions {
        Some(s) => split_raw(s@, ',', 0, s@.len() as int).len() >= 3,
        None => true,
    }
}

/// Merge the configuration and arguments into the run's parameters.
///
/// `detected` carries the version read from a local checkout when the
/// arguments ask for automatic detection.  Fails when the review-request
/// list does not split into three, or no revision is available.
pub fn get_parameters(args: &Args, config: &Config, detected: &Option<Version>) -> (r: Result<
    Parameters,
    ParamError,
>)
    requires
        config.gecko.vcs is Some,
    ensures
        r is Ok <==> phab_ok(*args) && revision_available(*args, *detected),
        r is Err ==> ((r->Err_0 is PhabRevisions) <==> !phab_ok(*args)),
        r is Ok ==> ({
            let p = r->Ok_0;
            &&& p.wgpu_rev@ == (if args.auto {
                detected->0@.git_hash
            } else {
                args.git_hash->0@
            })
            &&& opt_str_view(p.bug) == opt_str_view(args.bug)
            &&& p.gecko_path@ == config.gecko.path@
            &&& p.vcs == vcs_of_spec(config.gecko.vcs->0@)
            &&& (match args.phab_revisions {
                Some(s) => (p.phab_revisions matches Some(revs) && revs.deep_view() =~= split_raw(
                    s@,
                    ',',
                    0,
                    s@.len() as int,
                ).take(3)),
                None => p.phab_revisions is None,
            })
            &&& p.repository@ == (match config.wgpu.repository {
                Some(rp) => rp@,
                None => "https://github.com/gfx-rs/wgpu"@,
            })
            &&& p.preamble == !args.skip_preamble
            &&& p.build == args.build
            &&& params_wf(p)
        }),
{
    let phab_revisions: Option<Vec<String>> = match &args.phab_revisions {
        Some(s) => {
            let n = s.as_str().unicode_len();
            let parts = split_raw_exec(s.as_str(), ',', 0, n);
            proof {
                assert(s@.subrange(0, s@.len() as int) =~= s@);
            }
            if parts.len() < 3 {
                return Err(ParamError::PhabRevisions);
            }
            let mut revs: Vec<String> = Vec::new();
            revs.push(parts[0].clone());
            revs.push(parts[1].clone());
            revs.push(parts[2].clone());
            proof {
                assert(revs.deep_view() =~= parts.deep_view().take(3));
            }
            Some(revs)
        },
        None => None,
    };
    let wgpu_rev = if args.auto {
        match detected {
            Some(v) => v.git_hash.clone(),
            None => {
                return Err(ParamError::MissingRevision);
            },
        }
    } else {
        match &args.git_hash {
            Some(h) => h.clone(),
            None => {
                return Err(ParamError::MissingRevision);
            },
        }
    };
    let repository = match &config.wgpu.repository {
        Some(rp) => rp.clone(),
        None => default_wgpu_repository(),
    };
    Ok(
        Parameters {
            wgpu_rev: wgpu_rev,
            bug: args.bug.clone(),
            gecko_path: config.gecko.path.clone(),
            vcs: vcs_of_config(config),
            phab_revisions: phab_revisions,
            repository: repository,
            preamble: !args.skip_preamble,
            build: args.build,
        },
    )
}

/// The message a commit carries: the bug prefix, the body, and the review
/// request the patch regenerates, when one was named.
pub open spec fn commit_msg_spec(
    bug: Option<Seq<char>>,
    msg: Seq<char>,
    phab: Option<Seq<Seq<char>>>,
    idx: Option<int>,
) -> Seq<char> {
    (match bug {
        Some(b) => "Bug "@ + b + " - "@,
        None => Seq::<char>::empty(),
    }) + msg + (match (phab, idx) {
        (Some(revs), Some(i)) => "\n\nDifferential Revision: https://phabricator.services.mozilla.com/"@
            + revs[i],
        _ => Seq::<char>::empty(),
    })
}

/// The view of the optional review-request list.
pub open spec fn phab_view(p: Option<Vec<String>>) -> Option<Seq<Seq<char>>> {
    match p {
        Some(revs) => Some(revs.deep_view()),
        None => None,
    }
}

/// The view of an optional command index.
pub open spec fn opt_idx_view(i: Option<usize>) -> Option<int> {
    match i {
        Some(k) => Some(k as int),
        None => None,
    }
}

/// The commit command of one update step; `commit_idx` names which of the
/// three regenerated patches this commit corresponds to.
pub fn commit_command(params: &Parameters, msg: &str, commit_idx: Option<usize>) -> (r: CmdSpec)
    requires
        params_wf(*params),
        commit_idx matches Some(i) ==> i < 3,
    ensures
        r@ =~~= commit_cmd_spec(
            params.gecko_path@,
            params.vcs,
            commit_msg_spec(
                opt_str_view(params.bug),
                msg@,
                phab_view(params.phab_revisions),
                opt_idx_view(commit_idx),
            ),
        ),
{
    let mut commit_msg = String::new();
    match &params.bug {
        Some(b) => {
            commit_msg.append("Bug ");
            commit_msg.append(b.as_str());
            commit_msg.append(" - ");
        },
        None => (),
    }
    commit_msg.append(msg);
    match (&params.phab_revisions, commit_idx) {
        (Some(revs), Some(idx)) => {
            commit_msg.append("\n\nDifferential Revision: https://phabricator.services.mozilla.com/");
            commit_msg.append(revs[idx].as_str());
            proof {
                assert(revs.deep_view()[idx as int] == revs@[idx as int]@);
            }
        },
        _ => (),
    }
    let mut args: Vec<String> = Vec::new();
    match params.vcs {
        Vcs::Mercurial => {
            args.push(String::from_str("commit"));
            args.push(String::from_str("-m"));
            args.push(commit_msg);
            CmdSpec {
                dir: params.gecko_path.clone(),
                program: String::from_str("hg"),
                args: args,
            }
        },
        Vcs::Git => {
            args.push(String::from_str("commit"));
            args.push(String::from_str("-am"));
            args.push(commit_msg);
            CmdSpec {
                dir: params.gecko_path.clone(),
                program: String::from_str("git"),
                args: args,
            }
        },
    }
}

/// A simple command in the central checkout.
fn gecko_command(params: &Parameters, program: &str, args: Vec<String>) -> (r: CmdSpec)
    ensures
        r@.dir == params.gecko_path@,
        r@.program == program@,
        r@.args == args.deep_view(),
{
    CmdSpec {
        dir: params.gecko_path.clone(),
        program: String::from_str(program),
        args: args,
    }
}

/// The steps that make sure the tree starts in a good state: show the
/// diff, park uncommitted work, re-vendor, park stray vendored changes.
pub fn preamble_commands(params: &Parameters) -> (r: Vec<CmdSpec>)
    requires
        params_wf(*params),
    ensures
        r.deep_view() =~~= seq![
            (CmdSpecV {
                dir: params.gecko_path@,
                program: (if params.vcs is Mercurial {
                    "hg"@
                } else {
                    "git"@
                }),
                args: seq!["diff"@],
            }),
            commit_cmd_spec(
                params.gecko_path@,
                params.vcs,
                commit_msg_spec(
                    opt_str_view(params.bug),
                    "(Don't land) Uncommited changes before the `wgpu` update."@,
                    phab_view(params.phab_revisions),
                    None,
                ),
            ),
            (CmdSpecV {
                dir: params.gecko_path@,
                program: "./mach"@,
                args: seq!["vendor"@, "rust"@],
            }),
            commit_cmd_spec(
                params.gecko_path@,
                params.vcs,
                commit_msg_spec(
                    opt_str_view(params.bug),
                    "(Don't land) Stray unvendored 3rd parties before the `wgpu` update."@,
                    phab_view(params.phab_revisions),
                    None,
                ),
            ),
        ],
{
    let mut diff_args: Vec<String> = Vec::new();
    diff_args.push(String::from_str("diff"));
    let diff = match params.vcs {
        Vcs::Mercurial => gecko_command(params, "hg", diff_args),
        Vcs::Git => gecko_command(params, "git", diff_args),
    };
    let mut vendor_args: Vec<String> = Vec::new();
    vendor_args.push(String::from_str("vendor"));
    vendor_args.push(String::from_str("rust"));
    let mut r: Vec<CmdSpec> = Vec::new();
    r.push(diff);
    r.push(
        commit_command(
            params,
            "(Don't land) Uncommited changes before the `wgpu` update.",
            None,
        ),
    );
    r.push(gecko_command(params, "./mach", vendor_args));
    r.push(
        commit_command(
            params,
            "(Don't land) Stray unvendored 3rd parties before the `wgpu` update.",
            None,
        ),
    );
    r
}

/// Where the patched manifests live, and the temporary files the patched
/// text is written to before it replaces them.
pub struct UpdatePaths {
    pub cargo_toml: String,
    pub tmp_cargo_toml: String,
    pub moz_yaml: String,
    pub tmp_moz_yaml: String,
}

/// The bindings directory of the central checkout.
pub open spec fn bindings_dir_spec(gecko: Seq<char>) -> Seq<char> {
    concat_path_spec(gecko, "gfx/wgpu_bindings/"@)
}

/// The manifest paths an update touches.
pub fn update_paths(params: &Parameters) -> (r: UpdatePaths)
    ensures
        r.cargo_toml@ == concat_path_spec(bindings_dir_spec(params.gecko_path@), "Cargo.toml"@),
        r.tmp_cargo_toml@ == concat_path_spec(
            bindings_dir_spec(params.gecko_path@),
            "tmp.Cargo.toml"@,
        ),
        r.moz_yaml@ == concat_path_spec(bindings_dir_spec(params.gecko_path@), "moz.yaml"@),
        r.tmp_moz_yaml@ == concat_path_spec(
            bindings_dir_spec(params.gecko_path@),
            "tmp.moz.yaml"@,
        ),
{
    let bindings = concat_path(params.gecko_path.as_str(), "gfx/wgpu_bindings/");
    UpdatePaths {
        cargo_toml: concat_path(bindings.as_str(), "Cargo.toml"),
        tmp_cargo_toml: concat_path(bindings.as_str(), "tmp.Cargo.toml"),
        moz_yaml: concat_path(bindings.as_str(), "moz.yaml"),
        tmp_moz_yaml: concat_path(bindings.as_str(), "tmp.moz.yaml"),
    }
}

/// The one update request a wgpu update patches with: the default
/// repository URL identifies the dependency, the new revision replaces
/// the pinned one.
pub fn wgpu_updates(params: &Parameters) -> (r: Vec<Update>)
    ensures
        ups_view(r@) =~~= seq![
            (UpdateV {
                key: "https://github.com/gfx-rs/wgpu"@,
                semver: Seq::<char>::empty(),
                revision: params.wgpu_rev@,
            }),
        ],
{
    let mut r: Vec<Update> = Vec::new();
    r.push(
        Update {
            key: default_wgpu_repository(),
            semver: String::new(),
            revision: params.wgpu_rev.clone(),
        },
    );
    r
}

/// The five crates whose versions an update is expected to move.
pub fn initial_deltas() -> (r: Vec<Delta>)
    ensures
        r@.len() == 5,
        r.deep_view()[0].name == "wgpu-core"@,
        r.deep_view()[1].name == "wgpu-hal"@,
        r.deep_view()[2].name == "wgpu-types"@,
        r.deep_view()[3].name == "naga"@,
        r.deep_view()[4].name == "ash"@,
{
    let mut r: Vec<Delta> = Vec::new();
    r.push(Delta::new("wgpu-core"));
    r.push(Delta::new("wgpu-hal"));
    r.push(Delta::new("wgpu-types"));
    r.push(Delta::new("naga"));
    r.push(Delta::new("ash"));
    r
}

/// The commit recording the patched manifests.
pub fn update_commit_command(params: &Parameters) -> (r: CmdSpec)
    requires
        params_wf(*params),
    ensures
        r@ =~~= commit_cmd_spec(
            params.gecko_path@,
            params.vcs,
            commit_msg_spec(
                opt_str_view(params.bug),
                "Update `wgpu` to revision "@ + params.wgpu_rev@ + "."@,
                phab_view(params.phab_revisions),
                Some(0),
            ),
        ),
{
    let msg = concat3(
        "Update `wgpu` to revision ",
        params.wgpu_rev.as_str(),
        ".",
    );
    commit_command(params, msg.as_str(), Some(0))
}

/// The lock-file refresh: have the package manager pick up the new
/// revision without touching unrelated crates.
pub fn refresh_cargo_lock_command(params: &Parameters) -> (r: CmdSpec)
    ensures
        r@ =~~= (CmdSpecV {
            dir: params.gecko_path@,
            program: "cargo"@,
            args: seq![
                "update"@,
                "--package"@,
                "wgpu-core"@,
                "--precise"@,
                params.wgpu_rev@,
            ],
        }),
{
    let mut args: Vec<String> = Vec::new();
    args.push(String::from_str("update"));
    args.push(String::from_str("--package"));
    args.push(String::from_str("wgpu-core"));
    args.push(String::from_str("--precise"));
    args.push(params.wgpu_rev.clone());
    gecko_command(params, "cargo", args)
}

/// Does the refresh output show the intermittent object-lookup failure
/// that needs the workaround?
pub fn refresh_needs_workaround(stderr: &str) -> (b: bool)
    ensures
        b == contains_sub(stderr@, "object not found - no match for id"@),
{
    contains_sub_exec(stderr, "object not found - no match for id")
}

/// The workaround for the intermittent refresh failure: a check run from
/// inside the bindings directory.
pub fn refresh_workaround_command(params: &Parameters) -> (r: CmdSpec)
    ensures
        r@ =~~= (CmdSpecV {
            dir: bindings_dir_spec(params.gecko_path@),
            program: "cargo"@,
            args: seq!["check"@],
        }),
{
    let mut args: Vec<String> = Vec::new();
    args.push(String::from_str("check"));
    CmdSpec {
        dir: concat_path(params.gecko_path.as_str(), "gfx/wgpu_bindings/"),
        program: String::from_str("cargo"),
        args: args,
    }
}

/// The report command whose output the delta scan reads.
pub fn vet_report_command(params: &Parameters) -> (r: CmdSpec)
    ensures
        r@ =~~= (CmdSpecV {
            dir: params.gecko_path@,
            program: "./mach"@,
            args: seq!["cargo"@, "vet"@],
        }),
{
    let mut args: Vec<String> = Vec::new();
    args.push(String::from_str("cargo"));
    args.push(String::from_str("vet"));
    gecko_command(params, "./mach", args)
}

/// The steps vendoring the update and committing the result.
pub fn vendor_commands(params: &Parameters) -> (r: Vec<CmdSpec>)
    requires
        params_wf(*params),
    ensures
        r.deep_view() =~~= seq![
            (CmdSpecV {
                dir: params.gecko_path@,
                program: "./mach"@,
                args: seq!["vendor"@, "rust"@],
            }),
            commit_cmd_spec(
                params.gecko_path@,
                params.vcs,
                commit_msg_spec(
                    opt_str_view(params.bug),
                    "Vendor `wgpu` changes."@,
                    phab_view(params.phab_revisions),
                    Some(2),
                ),
            ),
        ],
{
    let mut vendor_args: Vec<String> = Vec::new();
    vendor_args.push(String::from_str("vendor"));
    vendor_args.push(String::from_str("rust"));
    let mut r: Vec<CmdSpec> = Vec::new();
    r.push(gecko_command(params, "./mach", vendor_args));
    r.push(commit_command(params, "Vendor `wgpu` changes.", Some(2)));
    r
}

/// The build command of the optional final step.
pub fn build_command(params: &Parameters) -> (r: CmdSpec)
    ensures
        r@ =~~= (CmdSpecV {
            dir: params.gecko_path@,
            program: "./mach"@,
            args: seq!["build"@],
        }),
{
    let mut args: Vec<String> = Vec::new();
    args.push(String::from_str("build"));
    gecko_command(params, "./mach", args)
}

/// The certification command for one crate's move between two version
/// labels.
pub open spec fn certify_cmd_spec(
    path: Seq<char>,
    name: Seq<char>,
    prev: Seq<char>,
    next: Seq<char>,
) -> CmdSpecV {
    CmdSpecV {
        dir: path,
        program: "./mach"@,
        args: seq![
            "cargo"@,
            "vet"@,
            "certify"@,
            name,
            prev,
            next,
            "--criteria"@,
            "safe-to-deploy"@,
            "--accept-all"@,
        ],
    }
}

/// Build one certification command.
fn certify_command(params: &Parameters, name: &str, prev: &str, next: &str) -> (r: CmdSpec)
    ensures
        r@ =~~= certify_cmd_spec(params.gecko_path@, name@, prev@, next@),
{
    let mut args: Vec<String> = Vec::new();
    args.push(String::from_str("cargo"));
    args.push(String::from_str("vet"));
    args.push(String::from_str("certify"));
    args.push(String::from_str(name));
    args.push(String::from_str(prev));
    args.push(String::from_str(next));
    args.push(String::from_str("--criteria"));
    args.push(String::from_str("safe-to-deploy"));
    args.push(String::from_str("--accept-all"));
    gecko_command(params, "./mach", args)
}

/// The certification commands for the deltas whose version label moved,
/// from index `i` on.
pub open spec fn vet_delta_cmds_from(
    path: Seq<char>,
    ds: Seq<crate::delta::DeltaV>,
    i: int,
) -> Seq<CmdSpecV>
    decreases ds.len() - i,
    when 0 <= i <= ds.len()
{
    if i >= ds.len() {
        Seq::empty()
    } else if vet_label(ds[i].prev) == vet_label(ds[i].next) {
        vet_delta_cmds_from(path, ds, i + 1)
    } else {
        seq![certify_cmd_spec(path, ds[i].name, vet_label(ds[i].prev), vet_label(ds[i].next))]
            + vet_delta_cmds_from(path, ds, i + 1)
    }
}

/// The commit-to-commit certification plan: one certify per moved delta,
/// the audit commit, then a final report.
pub fn vet_delta_commands(params: &Parameters, deltas: &Vec<Delta>) -> (r: Vec<CmdSpec>)
    requires
        params_wf(*params),
    ensures
        r.deep_view() =~~= vet_delta_cmds_from(params.gecko_path@, deltas.deep_view(), 0) + seq![
            commit_cmd_spec(
                params.gecko_path@,
                params.vcs,
                commit_msg_spec(
                    opt_str_view(params.bug),
                    "Vet `wgpu` and `naga` commits."@,
                    phab_view(params.phab_revisions),
                    Some(1),
                ),
            ),
            (CmdSpecV {
                dir: params.gecko_path@,
                program: "./mach"@,
                args: seq!["cargo"@, "vet"@],
            }),
        ],
{
    let ghost dsv = deltas.deep_view();
    let mut r: Vec<CmdSpec> = Vec::new();
    let n = deltas.len();
    let mut i: usize = 0;
    while i < n
        invariant
            i <= n,
            n == deltas@.len(),
            dsv == deltas.deep_view(),
            params_wf(*params),
            vet_delta_cmds_from(params.gecko_path@, dsv, 0) =~~= r.deep_view()
                + vet_delta_cmds_from(params.gecko_path@, dsv, i as int),
        decreases n - i,
    {
        proof {
            assert(dsv[i as int] == deltas@[i as int]@);
        }
        let prev = deltas[i].prev.display_cargo_vet();
        let next = deltas[i].next.display_cargo_vet();
        let ghost before = r.deep_view();
        if !str_eq(prev.as_str(), next.as_str()) {
            r.push(
                certify_command(params, deltas[i].name.as_str(), prev.as_str(), next.as_str()),
            );
            proof {
                assert(r.deep_view() =~~= before.push(
                    certify_cmd_spec(
                        params.gecko_path@,
                        dsv[i as int].name,
                        vet_label(dsv[i as int].prev),
                        vet_label(dsv[i as int].next),
                    ),
                ));
            }
        }
        i = i + 1;
    }
    r.push(
        commit_command(params, "Vet `wgpu` and `naga` commits.", Some(1)),
    );
    let mut vet_args: Vec<String> = Vec::new();
    vet_args.push(String::from_str("cargo"));
    vet_args.push(String::from_str("vet"));
    r.push(gecko_command(params, "./mach", vet_args));
    r
}

/// The certification commands one delta contributes when vetting from the
/// base revision: first the semver move when there is one, then the move
/// onto the new revision label.
pub open spec fn vet_base_cmds_for(path: Seq<char>, d: crate::delta::DeltaV) -> Seq<CmdSpecV> {
    if d.prev.semver == d.next.semver && d.prev.git_hash == d.next.git_hash {
        Seq::empty()
    } else {
        (if d.prev.semver != d.next.semver {
            seq![certify_cmd_spec(path, d.name, d.prev.semver, d.next.semver)]
        } else {
            Seq::<CmdSpecV>::empty()
        }) + seq![
            certify_cmd_spec(
                path,
                d.name,
                (if d.prev.semver != d.next.semver {
                    d.next.semver
                } else {
                    d.prev.semver
                }),
                vet_label(d.next),
            ),
        ]
    }
}

/// The base-revision certification commands, from index `i` on.
pub open spec fn vet_base_cmds_from(
    path: Seq<char>,
    ds: Seq<crate::delta::DeltaV>,
    i: int,
) -> Seq<CmdSpecV>
    decreases ds.len() - i,
    when 0 <= i <= ds.len()
{
    if i >= ds.len() {
        Seq::empty()
    } else {
        vet_base_cmds_for(path, ds[i]) + vet_base_cmds_from(path, ds, i + 1)
    }
}

/// The base-revision certification plan: per moved delta the semver move
/// and the move onto the new revision, the audit commit, then a final
/// report.
pub fn vet_from_base_commands(params: &Parameters, deltas: &Vec<Delta>) -> (r: Vec<CmdSpec>)
    requires
        params_wf(*params),
    ensures
        r.deep_view() =~~= vet_base_cmds_from(params.gecko_path@, deltas.deep_view(), 0) + seq![
            commit_cmd_spec(
                params.gecko_path@,
                params.vcs,
                commit_msg_spec(
                    opt_str_view(params.bug),
                    "Vet `wgpu` and `naga` commits."@,
                    phab_view(params.phab_revisions),
                    Some(1),
                ),
            ),
            (CmdSpecV {
                dir: params.gecko_path@,
                program: "./mach"@,
                args: seq!["cargo"@, "vet"@],
            }),
        ],
{
    let ghost dsv = deltas.deep_view();
    let mut r: Vec<CmdSpec> = Vec::new();
    let n = deltas.len();
    let mut i: usize = 0;
    while i < n
        invariant
            i <= n,
            n == deltas@.len(),
            dsv == deltas.deep_view(),
            params_wf(*params),
            vet_base_cmds_from(params.gecko_path@, dsv, 0) =~~= r.deep_view()
                + vet_base_cmds_from(params.gecko_path@, dsv, i as int),
        decreases n - i,
    {
        proof {
            assert(dsv[i as int] == deltas@[i as int]@);
        }
        let d = &deltas[i];
        let semver_same = str_eq(d.prev.semver.as_str(), d.next.semver.as_str());
        let hash_same = str_eq(d.prev.git_hash.as_str(), d.next.git_hash.as_str());
        let ghost before = r.deep_view();
        if !(semver_same && hash_same) {
            if !semver_same {
                r.push(
                    certify_command(
                        params,
                        d.name.as_str(),
                        d.prev.semver.as_str(),
                        d.next.semver.as_str(),
                    ),
                );
            }
            let next_label = d.next.display_cargo_vet();
            let prev_label = if !semver_same {
                d.next.semver.clone()
            } else {
                d.prev.semver.clone()
            };
            r.push(
                certify_command(params, d.name.as_str(), prev_label.as_str(), next_label.as_str()),
            );
            proof {
                assert(r.deep_view() =~~= before + vet_base_cmds_for(
                    params.gecko_path@,
                    dsv[i as int],
                ));
            }
        }
        i = i + 1;
    }
    r.push(
        commit_command(params, "Vet `wgpu` and `naga` commits.", Some(1)),
    );
    let mut vet_args: Vec<String> = Vec::new();
    vet_args.push(String::from_str("cargo"));
    vet_args.push(String::from_str("vet"));
    r.push(gecko_command(params, "./mach", vet_args));
    r
}

} // verus!
