//! Assembling the audit trail of upstream commits: who wrote, reviewed and
//! merged each one, which of those people are trusted, and the report rows
//! written out for them.

use vstd::prelude::*;
use vstd::string::StrSliceExecFns;
use vstd::string::StringExecFns;
use crate::shell_cmd::CmdSpec;
use crate::strutil::{
    char_len, clone_strings, concat3, dec_str, opt_str_view, str_eq, u64_to_dec_string,
};

verus! {

/// Arguments of the audit subcommand.
#[derive(Clone, Debug)]
pub struct AuditArgs {
    pub project: String,
    pub config: Option<String>,
    /// Start of the commit range; read from the latest-commit file when
    /// not given.
    pub from: Option<String>,
    /// End of the commit range; the checkout's head when not given.
    pub to: Option<String>,
    /// Write the resulting rows into this file instead of the screen.
    pub output: Option<String>,
    /// Pull changes and check out the main branch first.
    pub pull: bool,
}

/// Everything the audit records about one upstream commit.
#[derive(Clone, Debug)]
pub struct Commit {
    pub pull_request: Option<u64>,
    pub hash: String,
    pub author: String,
    pub reviewers: Vec<String>,
    pub merger: Option<String>,
    pub vetted_by: Vec<String>,
}

/// Mathematical image of a [`Commit`].
#[verifier::ext_equal]
pub struct CommitV {
    pub pull_request: Option<u64>,
    pub hash: Seq<char>,
    pub author: Seq<char>,
    pub reviewers: Seq<Seq<char>>,
    pub merger: Option<Seq<char>>,
    pub vetted_by: Seq<Seq<char>>,
}

impl View for Commit {
    type V = CommitV;

    open spec fn view(&self) -> CommitV {
        CommitV {
            pull_request: self.pull_request,
            hash: self.hash@,
            author: self.author@,
            reviewers: self.reviewers.deep_view(),
            merger: opt_str_view(self.merger),
            vetted_by: self.vetted_by.deep_view(),
        }
    }
}

/// The items joined by single commas, from index `i` on.
pub open spec fn comma_join_from(items: Seq<Seq<char>>, i: int) -> Seq<char>
    decreases items.len() - i,
    when 0 <= i <= items.len()
{
    if i >= items.len() {
        Seq::empty()
    } else if i + 1 == items.len() {
        items[i]
    } else {
        items[i] + ","@ + comma_join_from(items, i + 1)
    }
}

/// Join non-empty items with commas, no trailing separator.
pub fn comma_separated_string(items: &Vec<String>) -> (r: String)
    requires
        forall|j: int| 0 <= j < items@.len() ==> (#[trigger] items.deep_view()[j]).len() > 0,
    ensures
        r@ == comma_join_from(items.deep_view(), 0),
{
    let ghost itemsv = items.deep_view();
    let mut out = String::new();
    let n = items.len();
    let mut i: usize = 0;
    while i < n
        invariant
            i <= n,
            n == items@.len(),
            itemsv == items.deep_view(),
            comma_join_from(itemsv, 0) == out@ + comma_join_from(itemsv, i as int),
        decreases n - i,
    {
        proof {
            assert(itemsv[i as int] == items@[i as int]@);
        }
        out.append(items[i].as_str());
        if i + 1 != n {
            out.append(",");
        }
        i = i + 1;
    }
    out
}

/// Add one candidate to the vetting list: kept only if trusted and not
/// already there.
pub open spec fn add_vetter(
    acc: Seq<Seq<char>>,
    trusted: Seq<Seq<char>>,
    name: Seq<char>,
) -> Seq<Seq<char>> {
    if trusted.contains(name) && !acc.contains(name) {
        acc.push(name)
    } else {
        acc
    }
}

/// All candidates from index `i` on added in order.
pub open spec fn add_vetters_from(
    acc: Seq<Seq<char>>,
    trusted: Seq<Seq<char>>,
    names: Seq<Seq<char>>,
    i: int,
) -> Seq<Seq<char>>
    decreases names.len() - i,
    when 0 <= i <= names.len()
{
    if i >= names.len() {
        acc
    } else {
        add_vetters_from(add_vetter(acc, trusted, names[i]), trusted, names, i + 1)
    }
}

/// Who vouches for a commit: the author, those who approved, then the
/// merger — those of them that are trusted, once each, in that order.
pub open spec fn vetted_by_spec(
    trusted: Seq<Seq<char>>,
    author: Seq<char>,
    reviewers: Seq<Seq<char>>,
    merger: Option<Seq<char>>,
) -> Seq<Seq<char>> {
    let cands = seq![author] + reviewers + (match merger {
        Some(m) => seq![m],
        None => Seq::<Seq<char>>::empty(),
    });
    add_vetters_from(Seq::empty(), trusted, cands, 0)
}

/// Is `s` among the strings of `v`?
fn contains_str(v: &Vec<String>, s: &str) -> (b: bool)
    ensures
        b == v.deep_view().contains(s@),
{
    let n = v.len();
    let mut i: usize = 0;
    while i < n
        invariant
            i <= n,
            n == v@.len(),
            forall|j: int| 0 <= j < i ==> v.deep_view()[j] != s@,
        decreases n - i,
    {
        proof {
            assert(v.deep_view()[i as int] == v@[i as int]@);
        }
        if str_eq(v[i].as_str(), s) {
            return true;
        }
        i = i + 1;
    }
    proof {
        assert forall|j: int| 0 <= j < v.deep_view().len() implies v.deep_view()[j] != s@ by {}
        assert(!v.deep_view().contains(s@));
    }
    false
}

/// The trusted people among the commit's participants, in order of
/// appearance, once each.
pub fn vetted_by(
    trusted: &Vec<String>,
    author: &String,
    reviewers: &Vec<String>,
    merger: &Option<String>,
) -> (r: Vec<String>)
    ensures
        r.deep_view() == vetted_by_spec(
            trusted.deep_view(),
            author@,
            reviewers.deep_view(),
            opt_str_view(*merger),
        ),
{
    let mut cands: Vec<String> = Vec::new();
    cands.push(author.clone());
    let mut revs = clone_strings(reviewers);
    cands.append(&mut revs);
    match merger {
        Some(m) => cands.push(m.clone()),
        None => (),
    }
    proof {
        assert(cands.deep_view() =~= seq![author@] + reviewers.deep_view() + (
        match opt_str_view(*merger) {
            Some(m) => seq![m],
            None => Seq::<Seq<char>>::empty(),
        }));
    }
    let ghost candsv = cands.deep_view();
    let ghost trustedv = trusted.deep_view();
    let mut out: Vec<String> = Vec::new();
    proof {
        assert(out.deep_view() =~= Seq::<Seq<char>>::empty());
    }
    let n = cands.len();
    let mut i: usize = 0;
    while i < n
        invariant
            i <= n,
            n == cands@.len(),
            candsv == cands.deep_view(),
            trustedv == trusted.deep_view(),
            add_vetters_from(Seq::empty(), trustedv, candsv, 0) == add_vetters_from(
                out.deep_view(),
                trustedv,
                candsv,
                i as int,
            ),
        decreases n - i,
    {
        proof {
            assert(candsv[i as int] == cands@[i as int]@);
        }
        let ghost before = out.deep_view();
        if contains_str(trusted, cands[i].as_str()) && !contains_str(&out, cands[i].as_str()) {
            out.push(cands[i].clone());
            proof {
                assert(out.deep_view() =~= before.push(candsv[i as int]));
            }
        }
        i = i + 1;
    }
    out
}

/// Assemble the audit record of one commit, deciding who vouches for it.
pub fn commit_record(
    pull_request: Option<u64>,
    hash: &String,
    author: &String,
    reviewers: Vec<String>,
    merger: Option<String>,
    trusted: &Vec<String>,
) -> (r: Commit)
    ensures
        r.pull_request == pull_request,
        r.hash@ == hash@,
        r.author@ == author@,
        r.reviewers.deep_view() == reviewers.deep_view(),
        opt_str_view(r.merger) == opt_str_view(merger),
        r.vetted_by.deep_view() == vetted_by_spec(
            trusted.deep_view(),
            author@,
            reviewers.deep_view(),
            opt_str_view(merger),
        ),
{
    let v = vetted_by(trusted, author, &reviewers, &merger);
    Commit {
        pull_request: pull_request,
        hash: hash.clone(),
        author: author.clone(),
        reviewers: reviewers,
        merger: merger,
        vetted_by: v,
    }
}

/// One tab-separated report row for a commit.
pub open spec fn csv_row_spec(c: CommitV) -> Seq<char> {
    let pr = match c.pull_request {
        Some(n) => dec_str(n as int),
        None => Seq::<char>::empty(),
    };
    let merger = match c.merger {
        Some(m) => m,
        None => Seq::<char>::empty(),
    };
    pr + "\t"@ + c.hash + "\t"@ + c.author + "\t"@ + comma_join_from(c.reviewers, 0) + "\t"@
        + merger + "\t"@ + comma_join_from(c.vetted_by, 0)
}

/// The report row for one commit: pull request number, hash, author,
/// approvals, merger and vetters, tab-separated.
pub fn csv_row(c: &Commit) -> (r: String)
    requires
        forall|j: int|
            0 <= j < c.reviewers@.len() ==> (#[trigger] c.reviewers.deep_view()[j]).len() > 0,
        forall|j: int|
            0 <= j < c.vetted_by@.len() ==> (#[trigger] c.vetted_by.deep_view()[j]).len() > 0,
    ensures
        r@ == csv_row_spec(c@),
{
    let mut out = match c.pull_request {
        Some(n) => u64_to_dec_string(n),
        None => String::new(),
    };
    out.append("\t");
    out.append(c.hash.as_str());
    out.append("\t");
    out.append(c.author.as_str());
    out.append("\t");
    let revs = comma_separated_string(&c.reviewers);
    out.append(revs.as_str());
    out.append("\t");
    match &c.merger {
        Some(m) => out.append(m.as_str()),
        None => (),
    }
    out.append("\t");
    let vets = comma_separated_string(&c.vetted_by);
    out.append(vets.as_str());
    out
}

/// The `git rev-list` command over a commit range.
pub fn rev_list_command(project_path: &String, from: &str, to: &str) -> (r: CmdSpec)
    ensures
        r@.dir == project_path@,
        r@.program == "git"@,
        r@.args =~= seq!["rev-list"@, from@ + ".."@ + to@],
{
    let mut args: Vec<String> = Vec::new();
    args.push(String::from_str("rev-list"));
    args.push(concat3(from, "..", to));
    CmdSpec {
        dir: project_path.clone(),
        program: String::from_str("git"),
        args: args,
    }
}

/// The non-empty pieces of `parts`, kept in order, from index `i` on.
pub open spec fn nonempty_from(parts: Seq<Seq<char>>, i: int) -> Seq<Seq<char>>
    decreases parts.len() - i,
    when 0 <= i <= parts.len()
{
    if i >= parts.len() {
        Seq::empty()
    } else if parts[i].len() > 0 {
        seq![parts[i]] + nonempty_from(parts, i + 1)
    } else {
        nonempty_from(parts, i + 1)
    }
}

/// The non-empty lines of a command's output, in order.
pub fn split_nonempty_lines(text: &str) -> (r: Vec<String>)
    ensures
        r.deep_view() == nonempty_from(
            crate::strutil::split_raw(text@, '\n', 0, text@.len() as int),
            0,
        ),
{
    let n = char_len(text);
    let parts = crate::strutil::split_raw_exec(text, '\n', 0, n);
    let ghost partsv = parts.deep_view();
    let mut r: Vec<String> = Vec::new();
    let m = parts.len();
    let mut i: usize = 0;
    while i < m
        invariant
            i <= m,
            m == parts@.len(),
            partsv == parts.deep_view(),
            nonempty_from(partsv, 0) =~= r.deep_view() + nonempty_from(partsv, i as int),
        decreases m - i,
    {
        proof {
            assert(partsv[i as int] == parts@[i as int]@);
        }
        let ghost before = r.deep_view();
        if parts[i].as_str().unicode_len() > 0 {
            r.push(parts[i].clone());
            proof {
                assert(r.deep_view() =~= before.push(partsv[i as int]));
                assert(before.push(partsv[i as int]) + nonempty_from(partsv, i + 1) =~= before
                    + nonempty_from(partsv, i as int));
            }
        }
        i = i + 1;
    }
    proof {
        assert(r.deep_view() + nonempty_from(partsv, m as int) =~= r.deep_view());
    }
    r
}

/// The characters the query builder strips: blanks and line breaks.
pub open spec fn is_query_ws(c: char) -> bool {
    c == ' ' || c == '\n'
}

/// `s` with blanks and line breaks removed, from index `i` on.
pub open spec fn strip_ws_from(s: Seq<char>, i: int) -> Seq<char>
    decreases s.len() - i,
    when 0 <= i <= s.len()
{
    if i >= s.len() {
        Seq::empty()
    } else if is_query_ws(s[i]) {
        strip_ws_from(s, i + 1)
    } else {
        seq![s[i]] + strip_ws_from(s, i + 1)
    }
}

/// The readable shape of the merged-by query, before its whitespace is
/// stripped for the terminal.
pub open spec fn merger_query_raw(org: Seq<char>, project: Seq<char>, pr: int) -> Seq<char> {
    "query { repository(owner:\""@ + org + "\", name:\""@ + project
        + "\") { pullRequest(number:"@ + dec_str(pr) + ") { mergedBy { login } } } }"@
}

/// The query asking who merged a pull request, whitespace stripped.
pub open spec fn merger_query_spec(org: Seq<char>, project: Seq<char>, pr: int) -> Seq<char> {
    strip_ws_from(merger_query_raw(org, project, pr), 0)
}

/// Strip blanks and line breaks out of a query.
fn strip_query_ws(s: &str) -> (r: String)
    ensures
        r@ == strip_ws_from(s@, 0),
{
    let n = char_len(s);
    let mut out = String::new();
    let mut i: usize = 0;
    while i < n
        invariant
            i <= n,
            n == s@.len(),
            strip_ws_from(s@, 0) == out@ + strip_ws_from(s@, i as int),
        decreases n - i,
    {
        let c = s.get_char(i);
        if !(c == ' ' || c == '\n') {
            out.append(s.substring_char(i, i + 1));
            proof {
                assert(s@.subrange(i as int, i + 1) =~= seq![s@[i as int]]);
            }
        }
        i = i + 1;
    }
    out
}

/// Build the query asking which login merged pull request `pr` of
/// `org/project`, compacted for the terminal.
pub fn merger_query(org: &str, project: &str, pr: u64) -> (r: String)
    ensures
        r@ == merger_query_spec(org@, project@, pr as int),
{
    let mut raw = String::from_str("query { repository(owner:\"");
    raw.append(org);
    raw.append("\", name:\"");
    raw.append(project);
    raw.append("\") { pullRequest(number:");
    let num = u64_to_dec_string(pr);
    raw.append(num.as_str());
    raw.append(") { mergedBy { login } } } }");
    strip_query_ws(raw.as_str())
}

/// Where the GitHub token comes from.
#[derive(Clone, Debug)]
pub enum TokenAction {
    /// No token configured: query anonymously.
    NoAuth,
    /// The configuration says `gh`: ask the gh command-line app.
    GhCli,
    /// The configuration holds the token itself.
    UseToken(String),
}

/// Decide how to obtain the GitHub token from the configured value.
pub fn token_source(api_token: &Option<String>) -> (r: TokenAction)
    ensures
        match *api_token {
            None => r is NoAuth,
            Some(t) => if t@ == "gh"@ {
                r is GhCli
            } else {
                (r matches TokenAction::UseToken(s) && s@ == t@)
            },
        },
{
    match api_token {
        None => TokenAction::NoAuth,
        Some(t) => {
            if str_eq(t.as_str(), "gh") {
                TokenAction::GhCli
            } else {
                TokenAction::UseToken(t.clone())
            }
        },
    }
}

/// The command that asks the gh command-line app for its token.
pub fn gh_auth_token_command() -> (r: CmdSpec)
    ensures
        r@.dir == "."@,
        r@.program == "gh"@,
        r@.args =~= seq!["auth"@, "token"@],
{
    let mut args: Vec<String> = Vec::new();
    args.push(String::from_str("auth"));
    args.push(String::from_str("token"));
    CmdSpec { dir: String::from_str("."), program: String::from_str("gh"), args: args }
}

/// One review, reduced to what the audit needs.
#[derive(Clone, Debug)]
pub struct ReviewInfo {
    pub approved: bool,
    pub login: String,
}

/// The logins of approving reviews, empty logins dropped, from `i` on.
pub open spec fn approved_logins_from(reviews: Seq<ReviewInfo>, i: int) -> Seq<Seq<char>>
    decreases reviews.len() - i,
    when 0 <= i <= reviews.len()
{
    if i >= reviews.len() {
        Seq::empty()
    } else if reviews[i].approved && reviews[i].login@.len() > 0 {
        seq![reviews[i].login@] + approved_logins_from(reviews, i + 1)
    } else {
        approved_logins_from(reviews, i + 1)
    }
}

/// The logins behind the approvals, in order, nameless entries dropped.
pub fn approved_reviewers(reviews: &Vec<ReviewInfo>) -> (r: Vec<String>)
    ensures
        r.deep_view() == approved_logins_from(reviews@, 0),
{
    let mut out: Vec<String> = Vec::new();
    let n = reviews.len();
    let mut i: usize = 0;
    while i < n
        invariant
            i <= n,
            n == reviews@.len(),
            approved_logins_from(reviews@, 0) =~= out.deep_view() + approved_logins_from(
                reviews@,
                i as int,
            ),
        decreases n - i,
    {
        let ghost before = out.deep_view();
        if reviews[i].approved && reviews[i].login.as_str().unicode_len() > 0 {
            out.push(reviews[i].login.clone());
            proof {
                assert(out.deep_view() =~= before.push(reviews@[i as int].login@));
                assert(before.push(reviews@[i as int].login@) + approved_logins_from(
                    reviews@,
                    i + 1,
                ) =~= before + approved_logins_from(reviews@, i as int));
            }
        }
        i = i + 1;
    }
    proof {
        assert(out.deep_view() + approved_logins_from(reviews@, n as int) =~= out.deep_view());
    }
    out
}

} // verus!
