//! The trigger-path glob validator. Exactly four document locations hold
//! glob lists: `on.push.paths`, `on.push.paths-ignore`,
//! `on.pull_request.paths` and `on.pull_request.paths-ignore`. An absent or
//! null location is skipped; a present one must be a sequence of strings.
//!
//! Compiling a pattern and matching it against the working tree is
//! filesystem work done outside this crate: [`collect_glob_checks`] plans
//! which patterns to run, the caller runs them, and
//! [`apply_glob_outcomes`] turns the outcomes into errors — one
//! `invalid_glob` per pattern that failed to compile, one `glob_not_matched`
//! per pattern that compiled but matched no files, and every pattern is
//! checked even after one fails.

use vstd::prelude::*;
use vstd::string::StringExecFns;
use crate::document::DocNode;
use crate::document::spec_get;
use crate::state::ErrorCode;
use crate::state::ErrorView;
use crate::state::ValidationError;
use crate::state::ValidationState;
use crate::state::errors_view;

verus! {

/// One glob pattern to run, with the locator of the list it came from.
#[derive(Debug)]
pub struct GlobCheck {
    pub pattern: String,
    pub origin: String,
}

/// The view of a check: its pattern and origin as character sequences.
#[verifier::ext_equal]
pub ghost struct GlobCheckView {
    pub pattern: Seq<char>,
    pub origin: Seq<char>,
}

impl View for GlobCheck {
    type V = GlobCheckView;

    open spec fn view(&self) -> GlobCheckView {
        GlobCheckView { pattern: self.pattern@, origin: self.origin@ }
    }
}

/// The views of a list of checks, in order.
pub open spec fn checks_view(checks: Seq<GlobCheck>) -> Seq<GlobCheckView> {
    checks.map_values(|c: GlobCheck| c@)
}

/// What running one glob pattern outside this crate reported: the pattern
/// failed to compile with a message, or it compiled and matched some number
/// of files.
#[derive(Debug)]
pub enum GlobOutcome {
    CompileError(String),
    MatchCount(usize),
}

/// The node a glob location holds: `on.<section>.<key>` of the document.
pub open spec fn spec_glob_location(doc: DocNode, section: Seq<char>, key: Seq<char>) -> DocNode {
    spec_get(spec_get(spec_get(doc, "on"@), section), key)
}

/// A glob location is well-formed when it is absent, null, or a sequence of
/// strings.
pub open spec fn location_wf(node: DocNode) -> bool {
    match node {
        DocNode::Null => true,
        DocNode::Arr(elems) => forall|i: int| 0 <= i < elems@.len() ==> elems@[i] is Str,
        _ => false,
    }
}

/// Whether all four glob locations of the document are well-formed. The
/// validator requires this shape: a present location that is not a sequence
/// of strings is outside the documented document format.
pub open spec fn glob_locations_wf(doc: DocNode) -> bool {
    &&& location_wf(spec_glob_location(doc, "push"@, "paths"@))
    &&& location_wf(spec_glob_location(doc, "push"@, "paths-ignore"@))
    &&& location_wf(spec_glob_location(doc, "pull_request"@, "paths"@))
    &&& location_wf(spec_glob_location(doc, "pull_request"@, "paths-ignore"@))
}

/// The checks one location contributes: each string element paired with the
/// location's origin, in order. Elements that are not strings contribute
/// nothing (a well-formed location has none).
pub open spec fn location_checks(elems: Seq<DocNode>, origin: Seq<char>) -> Seq<GlobCheckView>
    decreases elems.len(),
{
    if elems.len() == 0 {
        Seq::empty()
    } else {
        let head = match elems[0] {
            DocNode::Str(s) => seq![GlobCheckView { pattern: s@, origin: origin }],
            _ => Seq::empty(),
        };
        head + location_checks(elems.drop_first(), origin)
    }
}

/// The checks of one location node: nothing unless it is a sequence.
pub open spec fn node_checks(node: DocNode, origin: Seq<char>) -> Seq<GlobCheckView> {
    match node {
        DocNode::Arr(elems) => location_checks(elems@, origin),
        _ => Seq::empty(),
    }
}

/// Every check the four glob locations of the document contribute, in the
/// fixed location order.
pub open spec fn doc_glob_checks(doc: DocNode) -> Seq<GlobCheckView> {
    node_checks(spec_glob_location(doc, "push"@, "paths"@), "/on/push/paths"@) + node_checks(
        spec_glob_location(doc, "push"@, "paths-ignore"@),
        "/on/push/paths-ignore"@,
    ) + node_checks(
        spec_glob_location(doc, "pull_request"@, "paths"@),
        "/on/pull_request/paths"@,
    ) + node_checks(
        spec_glob_location(doc, "pull_request"@, "paths-ignore"@),
        "/on/pull_request/paths-ignore"@,
    )
}

/// The errors one (check, outcome) pair contributes: `invalid_glob` when the
/// pattern failed to compile, `glob_not_matched` when it matched nothing,
/// none otherwise.
pub open spec fn glob_pair_errors(check: GlobCheckView, outcome: GlobOutcome) -> Seq<ErrorView> {
    match outcome {
        GlobOutcome::CompileError(msg) => seq![
            ErrorView {
                code: ErrorCode::InvalidGlob,
                title: "Glob does not match any files"@,
                detail: Some(
                    "Glob "@ + check.pattern + " in "@ + check.origin + " is invalid: "@ + msg@,
                ),
                origin: check.origin,
            },
        ],
        GlobOutcome::MatchCount(c) => if c == 0 {
            seq![
                ErrorView {
                    code: ErrorCode::GlobNotMatched,
                    title: "Glob does not match any files"@,
                    detail: Some(
                        "Glob "@ + check.pattern + " in "@ + check.origin
                            + " does not match any files"@,
                    ),
                    origin: check.origin,
                },
            ]
        } else {
            Seq::empty()
        },
    }
}

/// The errors a list of checks and their outcomes contribute, pairwise and
/// in order.
pub open spec fn glob_errors(checks: Seq<GlobCheckView>, outcomes: Seq<GlobOutcome>) -> Seq<
    ErrorView,
>
    decreases checks.len(),
{
    if checks.len() == 0 || outcomes.len() == 0 {
        Seq::empty()
    } else {
        glob_pair_errors(checks[0], outcomes[0]) + glob_errors(
            checks.drop_first(),
            outcomes.drop_first(),
        )
    }
}

/// Looks up `on.<section>.<key>` in the document.
fn glob_location<'a>(doc: &'a DocNode, section: &str, key: &str) -> (r: Option<&'a DocNode>)
    ensures
        match r {
            Some(v) => *v == spec_glob_location(*doc, section@, key@),
            None => spec_glob_location(*doc, section@, key@) == DocNode::Null,
        },
{
    let on = match doc.get("on") {
        Some(v) => v,
        None => {
            return None;
        },
    };
    let sec = match on.get(section) {
        Some(v) => v,
        None => {
            return None;
        },
    };
    sec.get(key)
}

/// Checks that one location is well-formed.
#[verifier::loop_isolation(false)]
fn location_ok(doc: &DocNode, section: &str, key: &str) -> (r: bool)
    ensures
        r == location_wf(spec_glob_location(*doc, section@, key@)),
{
    let node = match glob_location(doc, section, key) {
        Some(v) => v,
        None => {
            return true;
        },
    };
    match node {
        DocNode::Null => true,
        DocNode::Arr(elems) => {
            let n = elems.len();
            let mut i: usize = 0;
            while i < n
                invariant
                    i <= n,
                    forall|j: int| 0 <= j < i ==> elems@[j] is Str,
                decreases n - i,
            {
                match &elems[i] {
                    DocNode::Str(_) => {},
                    _ => {
                        return false;
                    },
                }
                i = i + 1;
            }
            true
        },
        _ => false,
    }
}

/// Checks that all four glob locations of the document are well-formed, so
/// a caller can establish what [`collect_glob_checks`] requires.
pub fn glob_locations_ok(doc: &DocNode) -> (r: bool)
    ensures
        r == glob_locations_wf(*doc),
{
    location_ok(doc, "push", "paths") && location_ok(doc, "push", "paths-ignore") && location_ok(
        doc,
        "pull_request",
        "paths",
    ) && location_ok(doc, "pull_request", "paths-ignore")
}

/// Appends the checks of one location to `out`.
#[verifier::loop_isolation(false)]
fn collect_location(doc: &DocNode, section: &str, key: &str, origin: &str, out: &mut Vec<GlobCheck>)
    ensures
        checks_view(final(out)@) == checks_view(old(out)@) + node_checks(
            spec_glob_location(*doc, section@, key@),
            origin@,
        ),
{
    let node = match glob_location(doc, section, key) {
        Some(v) => v,
        None => {
            proof {
                assert(checks_view(out@) =~= checks_view(out@) + Seq::<GlobCheckView>::empty());
            }
            return ;
        },
    };
    let elems = match node {
        DocNode::Arr(elems) => elems,
        _ => {
            proof {
                assert(checks_view(out@) =~= checks_view(out@) + Seq::<GlobCheckView>::empty());
            }
            return ;
        },
    };
    let n = elems.len();
    let mut i: usize = 0;
    proof {
        assert(elems@.skip(0) =~= elems@);
    }
    while i < n
        invariant
            i <= n,
            checks_view(old(out)@) + location_checks(elems@, origin@) == checks_view(out@)
                + location_checks(elems@.skip(i as int), origin@),
        decreases n - i,
    {
        proof {
            assert(elems@.skip(i as int)[0] == elems@[i as int]);
            assert(elems@.skip(i as int).drop_first() =~= elems@.skip(i as int + 1));
        }
        match &elems[i] {
            DocNode::Str(s) => {
                let ghost pre = out@;
                let check = GlobCheck { pattern: s.as_str().to_owned(), origin: origin.to_owned() };
                out.push(check);
                proof {
                    assert(checks_view(out@) =~= checks_view(pre) + seq![
                        GlobCheckView { pattern: s@, origin: origin@ },
                    ]);
                    assert(checks_view(old(out)@) + location_checks(elems@, origin@)
                        =~= checks_view(out@) + location_checks(
                        elems@.skip(i as int + 1),
                        origin@,
                    ));
                }
            },
            _ => {},
        }
        i = i + 1;
    }
    proof {
        assert(elems@.skip(n as int) =~= Seq::<DocNode>::empty());
        assert(checks_view(out@) + Seq::<GlobCheckView>::empty() =~= checks_view(out@));
    }
}

/// Plans every glob pattern the document asks to run: the four fixed
/// locations in order, each contributing its patterns in document order.
pub fn collect_glob_checks(doc: &DocNode) -> (r: Vec<GlobCheck>)
    ensures
        checks_view(r@) == doc_glob_checks(*doc),
{
    let mut out: Vec<GlobCheck> = Vec::new();
    proof {
        assert(checks_view(out@) =~= Seq::<GlobCheckView>::empty());
        assert(Seq::<GlobCheckView>::empty() + node_checks(
            spec_glob_location(*doc, "push"@, "paths"@),
            "/on/push/paths"@,
        ) =~= node_checks(spec_glob_location(*doc, "push"@, "paths"@), "/on/push/paths"@));
    }
    collect_location(doc, "push", "paths", "/on/push/paths", &mut out);
    collect_location(doc, "push", "paths-ignore", "/on/push/paths-ignore", &mut out);
    collect_location(doc, "pull_request", "paths", "/on/pull_request/paths", &mut out);
    collect_location(doc, "pull_request", "paths-ignore", "/on/pull_request/paths-ignore", &mut out);
    proof {
        assert(checks_view(out@) =~= doc_glob_checks(*doc));
    }
    out
}

/// Builds the error for a pattern that failed to compile.
fn invalid_glob_error(check: &GlobCheck, msg: &String) -> (e: ValidationError)
    ensures
        e@ == (ErrorView {
            code: ErrorCode::InvalidGlob,
            title: "Glob does not match any files"@,
            detail: Some(
                "Glob "@ + check.pattern@ + " in "@ + check.origin@ + " is invalid: "@ + msg@,
            ),
            origin: check.origin@,
        }),
{
    let mut detail = "Glob ".to_owned();
    detail.append(check.pattern.as_str());
    detail.append(" in ");
    detail.append(check.origin.as_str());
    detail.append(" is invalid: ");
    detail.append(msg.as_str());
    ValidationError {
        code: ErrorCode::InvalidGlob,
        title: "Glob does not match any files".to_owned(),
        detail: Some(detail),
        origin: check.origin.as_str().to_owned(),
    }
}

/// Builds the error for a pattern that matched no files.
fn not_matched_error(check: &GlobCheck) -> (e: ValidationError)
    ensures
        e@ == (ErrorView {
            code: ErrorCode::GlobNotMatched,
            title: "Glob does not match any files"@,
            detail: Some(
                "Glob "@ + check.pattern@ + " in "@ + check.origin@
                    + " does not match any files"@,
            ),
            origin: check.origin@,
        }),
{
    let mut detail = "Glob ".to_owned();
    detail.append(check.pattern.as_str());
    detail.append(" in ");
    detail.append(check.origin.as_str());
    detail.append(" does not match any files");
    ValidationError {
        code: ErrorCode::GlobNotMatched,
        title: "Glob does not match any files".to_owned(),
        detail: Some(detail),
        origin: check.origin.as_str().to_owned(),
    }
}

/// Interprets the outcome of every planned glob check, appending one error
/// per failed compile and one per pattern that matched nothing. Every
/// outcome is interpreted even after an error; the rest of the state is
/// untouched.
#[verifier::loop_isolation(false)]
pub fn apply_glob_outcomes(
    checks: &Vec<GlobCheck>,
    outcomes: &Vec<GlobOutcome>,
    state: &mut ValidationState,
)
    requires
        checks@.len() == outcomes@.len(),
    ensures
        errors_view(final(state).errors@) == errors_view(old(state).errors@) + glob_errors(
            checks_view(checks@),
            outcomes@,
        ),
        final(state).action_type == old(state).action_type,
        final(state).file_path == old(state).file_path,
{
    let n = checks.len();
    let mut i: usize = 0;
    proof {
        assert(checks_view(checks@).skip(0) =~= checks_view(checks@));
        assert(outcomes@.skip(0) =~= outcomes@);
    }
    while i < n
        invariant
            i <= n,
            errors_view(old(state).errors@) + glob_errors(checks_view(checks@), outcomes@)
                == errors_view(state.errors@) + glob_errors(
                checks_view(checks@).skip(i as int),
                outcomes@.skip(i as int),
            ),
            state.action_type == old(state).action_type,
            state.file_path == old(state).file_path,
        decreases n - i,
    {
        proof {
            assert(checks_view(checks@).skip(i as int)[0] == checks@[i as int]@);
            assert(checks_view(checks@).skip(i as int).drop_first() =~= checks_view(
                checks@,
            ).skip(i as int + 1));
            assert(outcomes@.skip(i as int)[0] == outcomes@[i as int]);
            assert(outcomes@.skip(i as int).drop_first() =~= outcomes@.skip(i as int + 1));
        }
        let ghost pre = state.errors@;
        match &outcomes[i] {
            GlobOutcome::CompileError(msg) => {
                let e = invalid_glob_error(&checks[i], msg);
                state.push(e);
                proof {
                    assert(errors_view(state.errors@) =~= errors_view(pre) + glob_pair_errors(
                        checks@[i as int]@,
                        outcomes@[i as int],
                    ));
                }
            },
            GlobOutcome::MatchCount(c) => {
                if *c == 0 {
                    let e = not_matched_error(&checks[i]);
                    state.push(e);
                    proof {
                        assert(errors_view(state.errors@) =~= errors_view(pre) + glob_pair_errors(
                            checks@[i as int]@,
                            outcomes@[i as int],
                        ));
                    }
                }
            },
        }
        proof {
            assert(errors_view(old(state).errors@) + glob_errors(checks_view(checks@), outcomes@)
                =~= errors_view(state.errors@) + glob_errors(
                checks_view(checks@).skip(i as int + 1),
                outcomes@.skip(i as int + 1),
            ));
        }
        i = i + 1;
    }
    proof {
        assert(checks_view(checks@).skip(n as int) =~= Seq::<GlobCheckView>::empty());
        assert(errors_view(state.errors@) + Seq::<ErrorView>::empty() =~= errors_view(
            state.errors@,
        ));
    }
}

} // verus!
