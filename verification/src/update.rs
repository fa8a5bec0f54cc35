//! The earlier, plainer update planner: no repository override, no
//! automatic version detection, certification without auto-acceptance.

use vstd::prelude::*;
use vstd::string::StringExecFns;
use vstd::string::StrSliceExecFns;
use crate::config::{vcs_of_config, vcs_of_spec, Config, Vcs};
use crate::cts::commit_cmd_spec;
use crate::delta::Delta;
use crate::patcher::{ups_view, Update, UpdateV};
use crate::shell_cmd::{CmdSpec, CmdSpecV};
use crate::strutil::{opt_str_view, split_raw, split_raw_exec, str_eq};
use crate::version::vet_label;
use crate::wgpu_update::{commit_msg_spec, opt_idx_view, phab_view, ParamError};

verus! {

/// Arguments of the plain update command.
#[derive(Clone, Debug)]
pub struct UpdateArgs {
    /// The new wgpu revision to update to.
    pub wgpu_rev: String,
    /// The bug number.
    pub bug: Option<String>,
    /// Configuration file to use.
    pub config: Option<String>,
    /// Start a build at the end.
    pub build: bool,
    /// The three review-request identifiers, comma separated.
    pub phab_revisions: Option<String>,
    /// Skip the steps that check the tree starts in a good state.
    pub skip_preamble: bool,
}

/// The merged configuration and arguments of a plain update.
#[derive(Clone, Debug)]
pub struct Parameters {
    pub wgpu_rev: String,
    pub bug: Option<String>,
    pub mozilla_central: String,
    pub vcs: Vcs,
    pub phab_revisions: Option<Vec<String>>,
    pub preamble: bool,
    pub build: bool,
}

/// The review-request list, when present, names exactly three patches.
pub open spec fn params_wf(p: Parameters) -> bool {
    match p.phab_revisions {
        Some(revs) => revs@.len() == 3,
        None => true,
    }
}

/// Does the review-request list, if given, split into at least three?
pub open spec fn phab_ok(args: UpdateArgs) -> bool {
    match args.phab_revisions {
        Some(s) => split_raw(s@, ',', 0, s@.len() as int).len() >= 3,
        None => true,
    }
}

/// Merge the configuration and arguments into the run's parameters.
pub fn get_parameters(args: &UpdateArgs, config: &Config) -> (r: Result<Parameters, ParamError>)
    requires
        config.gecko.vcs is Some,
    ensures
        r is Ok <==> phab_ok(*args),
        r is Ok ==> ({
            let p = r->Ok_0;
            &&& p.wgpu_rev@ == args.wgpu_rev@
            &&& opt_str_view(p.bug) == opt_str_view(args.bug)
            &&& p.mozilla_central@ == config.gecko.path@
            &&& p.vcs == vcs_of_spec(config.gecko.vcs->0@)
            &&& (match args.phab_revisions {
                Some(s) => (p.phab_revisions matches Some(revs) && revs.deep_view() =~= split_raw(
                    s@,
                    ',',
                    0,
                    s@.len() as int,
                ).take(3)),
                None => p.phab_revisions is None,
            })
            &&& p.preamble == !args.skip_preamble
            &&& p.build == args.build
            &&& params_wf(p)
        }),
{
    let phab_revisions: Option<Vec<String>> = match &args.phab_revisions {
        Some(s) => {
            let n = s.as_str().unicode_len();
            let parts = split_raw_exec(s.as_str(), ',', 0, n);
            proof {
                assert(s@.subrange(0, s@.len() as int) =~= s@);
            }
            if parts.len() < 3 {
                return Err(ParamError::PhabRevisions);
            }
            let mut revs: Vec<String> = Vec::new();
            revs.push(parts[0].clone());
            revs.push(parts[1].clone());
            revs.push(parts[2].clone());
            proof {
                assert(revs.deep_view() =~= parts.deep_view().take(3));
            }
            Some(revs)
        },
        None => None,
    };
    Ok(
        Parameters {
            wgpu_rev: args.wgpu_rev.clone(),
            bug: args.bug.clone(),
            mozilla_central: config.gecko.path.clone(),
            vcs: vcs_of_config(config),
            phab_revisions: phab_revisions,
            preamble: !args.skip_preamble,
            build: args.build,
        },
    )
}

/// The commit command of one step of the plain update.
pub fn commit_command(params: &Parameters, msg: &str, commit_idx: Option<usize>) -> (r: CmdSpec)
    requires
        params_wf(*params),
        commit_idx matches Some(i) ==> i < 3,
    ensures
        r@ =~~= commit_cmd_spec(
            params.mozilla_central@,
            params.vcs,
            commit_msg_spec(
                opt_str_view(params.bug),
                msg@,
                phab_view(params.phab_revisions),
                opt_idx_view(commit_idx),
            ),
        ),
{
    let mut commit_msg = String::new();
    match &params.bug {
        Some(b) => {
            commit_msg.append("Bug ");
            commit_msg.append(b.as_str());
            commit_msg.append(" - ");
        },
        None => (),
    }
    commit_msg.append(msg);
    match (&params.phab_revisions, commit_idx) {
        (Some(revs), Some(idx)) => {
            commit_msg.append("\n\nDifferential Revision: https://phabricator.services.mozilla.com/");
            commit_msg.append(revs[idx].as_str());
            proof {
                assert(revs.deep_view()[idx as int] == revs@[idx as int]@);
            }
        },
        _ => (),
    }
    let mut args: Vec<String> = Vec::new();
    match params.vcs {
        Vcs::Mercurial => {
            args.push(String::from_str("commit"));
            args.push(String::from_str("-m"));
            args.push(commit_msg);
            CmdSpec {
                dir: params.mozilla_central.clone(),
                program: String::from_str("hg"),
                args: args,
            }
        },
        Vcs::Git => {
            args.push(String::from_str("commit"));
            args.push(String::from_str("-am"));
            args.push(commit_msg);
            CmdSpec {
                dir: params.mozilla_central.clone(),
                program: String::from_str("git"),
                args: args,
            }
        },
    }
}

/// The steps that make sure the tree starts in a good state; this older
/// flow always drives Mercurial for the diff.
pub fn preamble_commands(params: &Parameters) -> (r: Vec<CmdSpec>)
    requires
        params_wf(*params),
    ensures
        r.deep_view() =~~= seq![
            (CmdSpecV {
                dir: params.mozilla_central@,
                program: "hg"@,
                args: seq!["diff"@],
            }),
            commit_cmd_spec(
                params.mozilla_central@,
                params.vcs,
                commit_msg_spec(
                    opt_str_view(params.bug),
                    "(Don't land) Uncommited changes before the wgpu update."@,
                    phab_view(params.phab_revisions),
                    None,
                ),
            ),
            (CmdSpecV {
                dir: params.mozilla_central@,
                program: "./mach"@,
                args: seq!["vendor"@, "rust"@],
            }),
            commit_cmd_spec(
                params.mozilla_central@,
                params.vcs,
                commit_msg_spec(
                    opt_str_view(params.bug),
                    "(Don't land) Stray unvendored 3rd parties before the wgpu update."@,
                    phab_view(params.phab_revisions),
                    None,
                ),
            ),
        ],
{
    let mut diff_args: Vec<String> = Vec::new();
    diff_args.push(String::from_str("diff"));
    let mut vendor_args: Vec<String> = Vec::new();
    vendor_args.push(String::from_str("vendor"));
    vendor_args.push(String::from_str("rust"));
    let mut r: Vec<CmdSpec> = Vec::new();
    r.push(
        CmdSpec {
            dir: params.mozilla_central.clone(),
            program: String::from_str("hg"),
            args: diff_args,
        },
    );
    r.push(
        commit_command(params, "(Don't land) Uncommited changes before the wgpu update.", None),
    );
    r.push(
        CmdSpec {
            dir: params.mozilla_central.clone(),
            program: String::from_str("./mach"),
            args: vendor_args,
        },
    );
    r.push(
        commit_command(
            params,
            "(Don't land) Stray unvendored 3rd parties before the wgpu update.",
            None,
        ),
    );
    r
}

/// The one update request: the repository URL identifies the dependency,
/// the new revision replaces the pinned one.
pub fn update_requests(params: &Parameters) -> (r: Vec<Update>)
    ensures
        ups_view(r@) =~~= seq![
            (UpdateV {
                key: "https://github.com/gfx-rs/wgpu"@,
                semver: Seq::<char>::empty(),
                revision: params.wgpu_rev@,
            }),
        ],
{
    let mut r: Vec<Update> = Vec::new();
    r.push(
        Update {
            key: String::from_str("https://github.com/gfx-rs/wgpu"),
            semver: String::new(),
            revision: params.wgpu_rev.clone(),
        },
    );
    r
}

/// The six crates whose versions this older flow tracks.
pub fn initial_deltas() -> (r: Vec<Delta>)
    ensures
        r@.len() == 6,
        r.deep_view()[0].name == "wgpu-core"@,
        r.deep_view()[1].name == "wgpu-hal"@,
        r.deep_view()[2].name == "wgpu-types"@,
        r.deep_view()[3].name == "naga"@,
        r.deep_view()[4].name == "d3d12"@,
        r.deep_view()[5].name == "ash"@,
{
    let mut r: Vec<Delta> = Vec::new();
    r.push(Delta::new("wgpu-core"));
    r.push(Delta::new("wgpu-hal"));
    r.push(Delta::new("wgpu-types"));
    r.push(Delta::new("naga"));
    r.push(Delta::new("d3d12"));
    r.push(Delta::new("ash"));
    r
}

/// The certification command of this flow: no automatic acceptance.
pub open spec fn certify_plain_spec(
    path: Seq<char>,
    name: Seq<char>,
    prev: Seq<char>,
    next: Seq<char>,
) -> CmdSpecV {
    CmdSpecV {
        dir: path,
        program: "./mach"@,
        args: seq![
            "cargo"@,
            "vet"@,
            "certify"@,
            name,
            prev,
            next,
            "--criteria"@,
            "safe-to-deploy"@,
        ],
    }
}

/// The certification commands for the deltas whose label moved, from `i`.
pub open spec fn vet_changes_from(
    path: Seq<char>,
    ds: Seq<crate::delta::DeltaV>,
    i: int,
) -> Seq<CmdSpecV>
    decreases ds.len() - i,
    when 0 <= i <= ds.len()
{
    if i >= ds.len() {
        Seq::empty()
    } else if vet_label(ds[i].prev) == vet_label(ds[i].next) {
        vet_changes_from(path, ds, i + 1)
    } else {
        seq![certify_plain_spec(path, ds[i].name, vet_label(ds[i].prev), vet_label(ds[i].next))]
            + vet_changes_from(path, ds, i + 1)
    }
}

/// The certification plan: one certify per moved delta, the audit commit,
/// then a final report.
pub fn vet_changes_commands(params: &Parameters, deltas: &Vec<Delta>) -> (r: Vec<CmdSpec>)
    requires
        params_wf(*params),
    ensures
        r.deep_view() =~~= vet_changes_from(params.mozilla_central@, deltas.deep_view(), 0)
            + seq![
            commit_cmd_spec(
                params.mozilla_central@,
                params.vcs,
                commit_msg_spec(
                    opt_str_view(params.bug),
                    "Vet wgpu and naga commits."@,
                    phab_view(params.phab_revisions),
                    Some(1),
                ),
            ),
            (CmdSpecV {
                dir: params.mozilla_central@,
                program: "./mach"@,
                args: seq!["cargo"@, "vet"@],
            }),
        ],
{
    let ghost dsv = deltas.deep_view();
    let mut r: Vec<CmdSpec> = Vec::new();
    let n = deltas.len();
    let mut i: usize = 0;
    while i < n
        invariant
            i <= n,
            n == deltas@.len(),
            dsv == deltas.deep_view(),
            params_wf(*params),
            vet_changes_from(params.mozilla_central@, dsv, 0) =~~= r.deep_view()
                + vet_changes_from(params.mozilla_central@, dsv, i as int),
        decreases n - i,
    {
        proof {
            assert(dsv[i as int] == deltas@[i as int]@);
        }
        let prev = deltas[i].prev.to_string();
        let next = deltas[i].next.to_string();
        let ghost before = r.deep_view();
        if !str_eq(prev.as_str(), next.as_str()) {
            let mut args: Vec<String> = Vec::new();
            args.push(String::from_str("cargo"));
            args.push(String::from_str("vet"));
            args.push(String::from_str("certify"));
            args.push(deltas[i].name.clone());
            args.push(prev);
            args.push(next);
            args.push(String::from_str("--criteria"));
            args.push(String::from_str("safe-to-deploy"));
            r.push(
                CmdSpec {
                    dir: params.mozilla_central.clone(),
                    program: String::from_str("./mach"),
                    args: args,
                },
            );
            proof {
                assert(r.deep_view() =~~= before.push(
                    certify_plain_spec(
                        params.mozilla_central@,
                        dsv[i as int].name,
                        vet_label(dsv[i as int].prev),
                        vet_label(dsv[i as int].next),
                    ),
                ));
            }
        }
        i = i + 1;
    }
    r.push(
        commit_command(params, "Vet wgpu and naga commits.", Some(1)),
    );
    let mut vet_args: Vec<String> = Vec::new();
    vet_args.push(String::from_str("cargo"));
    vet_args.push(String::from_str("vet"));
    r.push(
        CmdSpec {
            dir: params.mozilla_central.clone(),
            program: String::from_str("./mach"),
            args: vet_args,
        },
    );
    r
}

/// The steps vendoring the update and committing the result.
pub fn vendor_commands(params: &Parameters) -> (r: Vec<CmdSpec>)
    requires
        params_wf(*params),
    ensures
        r.deep_view() =~~= seq![
            (CmdSpecV {
                dir: params.mozilla_central@,
                program: "./mach"@,
                args: seq!["vendor"@, "rust"@],
            }),
            commit_cmd_spec(
                params.mozilla_central@,
                params.vcs,
                commit_msg_spec(
                    opt_str_view(params.bug),
                    "Vendor wgpu changes."@,
                    phab_view(params.phab_revisions),
                    Some(2),
                ),
            ),
        ],
{
    let mut vendor_args: Vec<String> = Vec::new();
    vendor_args.push(String::from_str("vendor"));
    vendor_args.push(String::from_str("rust"));
    let mut r: Vec<CmdSpec> = Vec::new();
    r.push(
        CmdSpec {
            dir: params.mozilla_central.clone(),
            program: String::from_str("./mach"),
            args: vendor_args,
        },
    );
    r.push(commit_command(params, "Vendor wgpu changes.", Some(2)));
    r
}

/// The build command of the optional final step.
pub fn build_command(params: &Parameters) -> (r: CmdSpec)
    ensures
        r@ =~~= (CmdSpecV {
            dir: params.mozilla_central@,
            program: "./mach"@,
            args: seq!["build"@],
        }),
{
    let mut args: Vec<String> = Vec::new();
    args.push(String::from_str("build"));
    CmdSpec {
        dir: params.mozilla_central.clone(),
        program: String::from_str("./mach"),
        args: args,
    }
}

} // verus!
