//! Proved laws of the patch pass.
//!
//! These public proof functions state, once and for all inputs, the
//! properties the patcher is designed around: the output always has the
//! input's line count; an empty update list changes nothing; a line that is
//! not a candidate field line is emitted byte-identical; and an identifier
//! arriving after a value line surfaces a diagnostic.

use vstd::prelude::*;
use crate::line_parse::{header_path, LinePartsV};
use crate::patcher::{
    emit_value_line, find_update_from, initial_state, is_identifying_key, is_revision_key,
    is_value_key, mode_parse, run_from, run_patch, step_spec, PatchMode, TrackStateV, UpdateV,
    WarnKind, WarnV,
};

verus! {

/// The fold over `lines[i..]` yields one output line per input line.
pub proof fn lemma_run_from_len(
    m: PatchMode,
    st: TrackStateV,
    lines: Seq<Seq<char>>,
    i: int,
    ups: Seq<UpdateV>,
    ov: Option<Seq<char>>,
)
    requires
        0 <= i <= lines.len(),
    ensures
        run_from(m, st, lines, i, ups, ov).outs.len() == lines.len() - i,
    decreases lines.len() - i,
{
    if i < lines.len() {
        let stp = step_spec(m, st, lines[i], ups, ov);
        lemma_run_from_len(m, stp.st, lines, i + 1, ups, ov);
    }
}

/// Line-count invariance: for every document, update list and override, the
/// patched document has exactly as many lines as the input.
pub proof fn lemma_line_count_invariance(
    m: PatchMode,
    lines: Seq<Seq<char>>,
    ups: Seq<UpdateV>,
    ov: Option<Seq<char>>,
)
    ensures
        run_patch(m, lines, ups, ov).outs.len() == lines.len(),
{
    lemma_run_from_len(m, initial_state(), lines, 0, ups, ov);
}

/// With no requested updates, an unbound state steps every remaining line
/// through unchanged, records nothing and warns about nothing.
pub proof fn lemma_noop_from(
    m: PatchMode,
    st: TrackStateV,
    lines: Seq<Seq<char>>,
    i: int,
    ups: Seq<UpdateV>,
    ov: Option<Seq<char>>,
)
    requires
        0 <= i <= lines.len(),
        ups.len() == 0,
        st.bound is None,
    ensures
        run_from(m, st, lines, i, ups, ov).outs == lines.skip(i),
        run_from(m, st, lines, i, ups, ov).prev_revs == Seq::<Seq<char>>::empty(),
        run_from(m, st, lines, i, ups, ov).warns.len() == 0,
    decreases lines.len() - i,
{
    if i < lines.len() {
        let stp = step_spec(m, st, lines[i], ups, ov);
        assert(stp.out == lines[i] && stp.st.bound is None && stp.prev_rev is None && stp.warn
            is None);
        lemma_noop_from(m, stp.st, lines, i + 1, ups, ov);
        assert(run_from(m, st, lines, i, ups, ov).outs =~= lines.skip(i));
        assert(run_from(m, st, lines, i, ups, ov).prev_revs =~= Seq::<Seq<char>>::empty());
    } else {
        assert(run_from(m, st, lines, i, ups, ov).outs =~= lines.skip(i));
    }
}

/// Idempotence on no-op: patching with an empty update list yields output
/// identical to the input, with no recorded revisions and no diagnostics.
pub proof fn lemma_noop_identity(
    m: PatchMode,
    lines: Seq<Seq<char>>,
    ups: Seq<UpdateV>,
    ov: Option<Seq<char>>,
)
    requires
        ups.len() == 0,
    ensures
        run_patch(m, lines, ups, ov).outs == lines,
        run_patch(m, lines, ups, ov).prev_revs == Seq::<Seq<char>>::empty(),
        run_patch(m, lines, ups, ov).warns.len() == 0,
{
    lemma_noop_from(m, initial_state(), lines, 0, ups, ov);
    assert(lines.skip(0) =~= lines);
}

/// A line that the tokenizer of mode `m` accepts with a key the rewriter
/// cares about: only such lines can ever differ in the output.
pub open spec fn line_is_candidate(m: PatchMode, line: Seq<char>) -> bool {
    match mode_parse(m, line) {
        Some(p) => is_identifying_key(m, p.key) || is_value_key(m, p.key),
        None => false,
    }
}

/// One step changes its line only if the line is a candidate field line.
pub proof fn lemma_step_frame(
    m: PatchMode,
    st: TrackStateV,
    line: Seq<char>,
    ups: Seq<UpdateV>,
    ov: Option<Seq<char>>,
)
    ensures
        step_spec(m, st, line, ups, ov).out != line ==> line_is_candidate(m, line),
{
}

/// Single rewrite, framed: every output line that differs from its input
/// line is a parsed candidate field line; all other bytes of the document
/// survive the pass untouched.
pub proof fn lemma_untouched_lines(
    m: PatchMode,
    st: TrackStateV,
    lines: Seq<Seq<char>>,
    i: int,
    ups: Seq<UpdateV>,
    ov: Option<Seq<char>>,
)
    requires
        0 <= i <= lines.len(),
    ensures
        forall|j: int|
            0 <= j < lines.len() - i ==> (#[trigger] run_from(m, st, lines, i, ups, ov).outs[j]
                != lines[i + j] ==> line_is_candidate(m, lines[i + j])),
    decreases lines.len() - i,
{
    lemma_run_from_len(m, st, lines, i, ups, ov);
    if i < lines.len() {
        let stp = step_spec(m, st, lines[i], ups, ov);
        lemma_step_frame(m, st, lines[i], ups, ov);
        lemma_untouched_lines(m, stp.st, lines, i + 1, ups, ov);
        lemma_run_from_len(m, stp.st, lines, i + 1, ups, ov);
        assert forall|j: int|
            0 <= j < lines.len() - i && #[trigger] run_from(m, st, lines, i, ups, ov).outs[j]
                != lines[i + j] implies line_is_candidate(m, lines[i + j]) by {
            if j == 0 {
            } else {
                assert(run_from(m, st, lines, i, ups, ov).outs[j] == run_from(
                    m,
                    stp.st,
                    lines,
                    i + 1,
                    ups,
                    ov,
                ).outs[j - 1]);
            }
        }
    }
}

/// The run-level frame law from the initial state.
pub proof fn lemma_changed_lines_are_candidates(
    m: PatchMode,
    lines: Seq<Seq<char>>,
    ups: Seq<UpdateV>,
    ov: Option<Seq<char>>,
)
    ensures
        forall|j: int|
            0 <= j < lines.len() ==> (#[trigger] run_patch(m, lines, ups, ov).outs[j] != lines[j]
                ==> line_is_candidate(m, lines[j])),
{
    lemma_untouched_lines(m, initial_state(), lines, 0, ups, ov);
}

/// Order-sensitivity, at document level: in a fresh section whose value
/// line comes right before the identifying line that matches a requested
/// dependency, the run emits the value line byte-identically and its first
/// diagnostic is the late-identifier warning on the identifying line.
pub proof fn lemma_value_line_before_identifier(
    st: TrackStateV,
    lines: Seq<Seq<char>>,
    i: int,
    p1: LinePartsV,
    p2: LinePartsV,
    ups: Seq<UpdateV>,
)
    requires
        0 <= i,
        i + 2 <= lines.len(),
        st.bound is None,
        !st.saw_value,
        mode_parse(PatchMode::Yaml, lines[i]) == Some(p1),
        p1.indent == st.prev_indent,
        is_value_key(PatchMode::Yaml, p1.key),
        !is_identifying_key(PatchMode::Yaml, p1.key),
        mode_parse(PatchMode::Yaml, lines[i + 1]) == Some(p2),
        p2.indent == p1.indent,
        is_identifying_key(PatchMode::Yaml, p2.key),
        find_update_from(ups, p2.value, 0) is Some,
    ensures
        run_from(PatchMode::Yaml, st, lines, i, ups, None).outs[0] == lines[i],
        run_from(PatchMode::Yaml, st, lines, i, ups, None).warns.len() >= 1,
        run_from(PatchMode::Yaml, st, lines, i, ups, None).warns[0] == (WarnV {
            line: i + 1,
            kind: WarnKind::LateIdentifier,
        }),
{
    let stp1 = step_spec(PatchMode::Yaml, st, lines[i], ups, None);
    let stp2 = step_spec(PatchMode::Yaml, stp1.st, lines[i + 1], ups, None);
    assert(stp1.out == lines[i] && stp1.warn is None && stp1.prev_rev is None
        && stp1.st.saw_value);
    assert(stp2.warn == Some(WarnKind::LateIdentifier));
    let rv = run_from(PatchMode::Yaml, st, lines, i, ups, None);
    let rv1 = run_from(PatchMode::Yaml, stp1.st, lines, i + 1, ups, None);
    let rv2 = run_from(PatchMode::Yaml, stp2.st, lines, i + 2, ups, None);
    assert(rv.outs == seq![stp1.out] + rv1.outs);
    assert(rv1.warns == seq![WarnV { line: i + 1, kind: WarnKind::LateIdentifier }] + rv2.warns);
    assert(rv.warns =~= seq![WarnV { line: i + 1, kind: WarnKind::LateIdentifier }] + rv2.warns);
    assert(rv.outs[0] == stp1.out);
    assert(rv.warns[0] == (WarnV { line: i + 1, kind: WarnKind::LateIdentifier }));
}

/// Single rewrite, at document level, the positive direction: in a fresh
/// section whose identifying line binds a requested revision and comes
/// right before the revision line, the run keeps the identifying line,
/// substitutes exactly the revision line's value, and records the old
/// revision first.
pub proof fn lemma_identifier_then_revision(
    st: TrackStateV,
    lines: Seq<Seq<char>>,
    i: int,
    p1: LinePartsV,
    p2: LinePartsV,
    ups: Seq<UpdateV>,
    u: int,
)
    requires
        0 <= i,
        i + 2 <= lines.len(),
        st.bound is None,
        !st.saw_value,
        !st.wrote_revision,
        mode_parse(PatchMode::Yaml, lines[i]) == Some(p1),
        p1.indent == st.prev_indent,
        is_identifying_key(PatchMode::Yaml, p1.key),
        find_update_from(ups, p1.value, 0) == Some(u),
        0 <= u < ups.len(),
        ups[u].revision.len() > 0,
        mode_parse(PatchMode::Yaml, lines[i + 1]) == Some(p2),
        p2.indent == p1.indent,
        is_revision_key(PatchMode::Yaml, p2.key),
    ensures
        run_from(PatchMode::Yaml, st, lines, i, ups, None).outs[0] == lines[i],
        run_from(PatchMode::Yaml, st, lines, i, ups, None).outs[1] == emit_value_line(
            PatchMode::Yaml,
            p2.indent,
            p2.key,
            ups[u].revision,
            p2.suffix,
        ),
        run_from(PatchMode::Yaml, st, lines, i, ups, None).prev_revs.len() >= 1,
        run_from(PatchMode::Yaml, st, lines, i, ups, None).prev_revs[0] == p2.value,
        run_from(PatchMode::Yaml, st, lines, i, ups, None).warns.len() == run_from(
            PatchMode::Yaml,
            step_spec(
                PatchMode::Yaml,
                step_spec(PatchMode::Yaml, st, lines[i], ups, None).st,
                lines[i + 1],
                ups,
                None,
            ).st,
            lines,
            i + 2,
            ups,
            None,
        ).warns.len(),
{
    reveal_strlit("revision");
    reveal_strlit("url");
    reveal_strlit("name");
    assert(("revision"@).len() == 8 && ("url"@).len() == 3 && ("name"@).len() == 4);
    let stp1 = step_spec(PatchMode::Yaml, st, lines[i], ups, None);
    let stp2 = step_spec(PatchMode::Yaml, stp1.st, lines[i + 1], ups, None);
    assert(stp1.out == lines[i] && stp1.warn is None && stp1.prev_rev is None && stp1.st.bound
        == Some(u));
    assert(stp2.out == emit_value_line(
        PatchMode::Yaml,
        p2.indent,
        p2.key,
        ups[u].revision,
        p2.suffix,
    ));
    assert(stp2.prev_rev == Some(p2.value) && stp2.warn is None);
    let rv = run_from(PatchMode::Yaml, st, lines, i, ups, None);
    let rv1 = run_from(PatchMode::Yaml, stp1.st, lines, i + 1, ups, None);
    let rv2 = run_from(PatchMode::Yaml, stp2.st, lines, i + 2, ups, None);
    assert(rv.outs == seq![stp1.out] + rv1.outs);
    assert(rv1.outs == seq![stp2.out] + rv2.outs);
    assert(rv.outs[0] == stp1.out);
    assert(rv.outs[1] == rv1.outs[0] && rv1.outs[0] == stp2.out);
    assert(rv1.prev_revs == seq![p2.value] + rv2.prev_revs);
    assert(rv.prev_revs =~= seq![p2.value] + rv2.prev_revs);
    assert(rv.prev_revs[0] == p2.value);
    assert(rv.warns =~= rv2.warns);
}

/// Order-sensitivity warning: when a value line has already been seen in
/// the current section and an identifying line then matches a requested
/// dependency (with no conflicting earlier binding), the step surfaces the
/// late-identifier diagnostic on that line.
pub proof fn lemma_late_identifier_warns(
    m: PatchMode,
    st: TrackStateV,
    line: Seq<char>,
    p: LinePartsV,
    ups: Seq<UpdateV>,
    ov: Option<Seq<char>>,
)
    requires
        m is Toml ==> header_path(line) is None,
        mode_parse(m, line) == Some(p),
        m is Yaml ==> p.indent == st.prev_indent,
        st.saw_value,
        is_identifying_key(m, p.key),
        find_update_from(ups, p.value, 0) is Some,
        st.bound is Some ==> st.bound->0 == find_update_from(ups, p.value, 0)->0,
    ensures
        step_spec(m, st, line, ups, ov).warn == Some(WarnKind::LateIdentifier),
{
}

} // verus!
