//! The job dependency validator: every identifier a job's `needs` field
//! names must be a job the document declares. Each unresolved identifier is
//! reported on its own, and a run never stops at the first finding.
//!
//! A `needs` field may be absent (no check), a single identifier, or a
//! sequence of identifiers checked independently. Entries of a `needs`
//! sequence that are not strings are ignored, as is a `jobs` section that is
//! not an object. A job naming itself is valid: membership in the declared
//! set is the only check.

use vstd::prelude::*;
use vstd::string::StringExecFns;
use crate::document::DocNode;
use crate::document::entries_contain_key;
use crate::document::entries_has_key;
use crate::document::spec_get;
use crate::state::ErrorCode;
use crate::state::ErrorView;
use crate::state::ValidationError;
use crate::state::ValidationState;
use crate::state::errors_view;

verus! {

/// The error reported when job `job` needs an undeclared job `need`.
pub open spec fn unresolved_job_error(job: Seq<char>, need: Seq<char>) -> ErrorView {
    ErrorView {
        code: ErrorCode::UnresolvedJob,
        title: "Unresolved job"@,
        detail: Some("unresolved job "@ + need),
        origin: "jobs/"@ + job + "/needs"@,
    }
}

/// The errors of one `needs` identifier: one error when it is undeclared,
/// none otherwise.
pub open spec fn need_str_errors(
    jobs: Seq<(String, DocNode)>,
    job: Seq<char>,
    need: Seq<char>,
) -> Seq<ErrorView> {
    if !entries_has_key(jobs, need) {
        seq![unresolved_job_error(job, need)]
    } else {
        Seq::empty()
    }
}

/// The errors of one `needs` entry node. A non-string node contributes
/// nothing.
pub open spec fn need_node_errors(
    jobs: Seq<(String, DocNode)>,
    job: Seq<char>,
    node: DocNode,
) -> Seq<ErrorView> {
    match node {
        DocNode::Str(s) => need_str_errors(jobs, job, s@),
        _ => Seq::empty(),
    }
}

/// The errors of a `needs` sequence, element by element, in order.
pub open spec fn needs_seq_errors(
    jobs: Seq<(String, DocNode)>,
    job: Seq<char>,
    elems: Seq<DocNode>,
) -> Seq<ErrorView>
    decreases elems.len(),
{
    if elems.len() == 0 {
        Seq::empty()
    } else {
        need_node_errors(jobs, job, elems[0]) + needs_seq_errors(jobs, job, elems.drop_first())
    }
}

/// The errors of one declared job: its `needs` field read as a single
/// identifier, a sequence of identifiers, or nothing.
pub open spec fn job_entry_errors(
    jobs: Seq<(String, DocNode)>,
    entry: (String, DocNode),
) -> Seq<ErrorView> {
    match spec_get(entry.1, "needs"@) {
        DocNode::Str(s) => need_str_errors(jobs, entry.0@, s@),
        DocNode::Arr(elems) => needs_seq_errors(jobs, entry.0@, elems@),
        _ => Seq::empty(),
    }
}

/// The errors of the declared jobs listed in `rest`, each checked against
/// the full declaration list `jobs`, in declaration order.
pub open spec fn jobs_errors_from(
    jobs: Seq<(String, DocNode)>,
    rest: Seq<(String, DocNode)>,
) -> Seq<ErrorView>
    decreases rest.len(),
{
    if rest.len() == 0 {
        Seq::empty()
    } else {
        job_entry_errors(jobs, rest[0]) + jobs_errors_from(jobs, rest.drop_first())
    }
}

/// Every error the job dependency validator reports on `doc`: nothing when
/// the document declares no `jobs` object, otherwise each job's unresolved
/// needs in declaration order.
pub open spec fn job_needs_errors(doc: DocNode) -> Seq<ErrorView> {
    match spec_get(doc, "jobs"@) {
        DocNode::Obj(entries) => jobs_errors_from(entries@, entries@),
        _ => Seq::empty(),
    }
}

/// Builds the unresolved-job error for job `job` and identifier `need`.
fn unresolved_error(job: &str, need: &str) -> (e: ValidationError)
    ensures
        e@ == unresolved_job_error(job@, need@),
{
    let mut origin = "jobs/".to_owned();
    origin.append(job);
    origin.append("/needs");
    let mut detail = "unresolved job ".to_owned();
    detail.append(need);
    ValidationError {
        code: ErrorCode::UnresolvedJob,
        title: "Unresolved job".to_owned(),
        detail: Some(detail),
        origin,
    }
}

/// Checks one string `needs` entry, appending the unresolved-job error when
/// the identifier is not declared.
fn check_need_str(
    entries: &Vec<(String, DocNode)>,
    job: &str,
    need: &str,
    state: &mut ValidationState,
)
    ensures
        errors_view(final(state).errors@) == errors_view(old(state).errors@) + need_str_errors(
            entries@,
            job@,
            need@,
        ),
        final(state).action_type == old(state).action_type,
        final(state).file_path == old(state).file_path,
{
    let ghost pre = state.errors@;
    if !entries_contain_key(entries, need) {
        let e = unresolved_error(job, need);
        proof {
            assert(errors_view(pre.push(e)) =~= errors_view(pre) + seq![
                unresolved_job_error(job@, need@),
            ]);
        }
        state.push(e);
    } else {
        proof {
            assert(errors_view(pre) =~= errors_view(pre) + Seq::<ErrorView>::empty());
        }
    }
}

/// Checks a `needs` sequence element by element.
#[verifier::loop_isolation(false)]
fn check_needs_list(
    entries: &Vec<(String, DocNode)>,
    job: &str,
    elems: &Vec<DocNode>,
    state: &mut ValidationState,
)
    ensures
        errors_view(final(state).errors@) == errors_view(old(state).errors@) + needs_seq_errors(
            entries@,
            job@,
            elems@,
        ),
        final(state).action_type == old(state).action_type,
        final(state).file_path == old(state).file_path,
{
    let n = elems.len();
    let mut i: usize = 0;
    proof {
        assert(elems@.skip(0) =~= elems@);
    }
    while i < n
        invariant
            i <= n,
            errors_view(old(state).errors@) + needs_seq_errors(entries@, job@, elems@)
                == errors_view(state.errors@) + needs_seq_errors(
                entries@,
                job@,
                elems@.skip(i as int),
            ),
            state.action_type == old(state).action_type,
            state.file_path == old(state).file_path,
        decreases n - i,
    {
        proof {
            assert(elems@.skip(i as int)[0] == elems@[i as int]);
            assert(elems@.skip(i as int).drop_first() =~= elems@.skip(i as int + 1));
        }
        match &elems[i] {
            DocNode::Str(s) => {
                check_need_str(entries, job, s.as_str(), state);
                proof {
                    assert(need_str_errors(entries@, job@, s@) == need_node_errors(
                        entries@,
                        job@,
                        elems@[i as int],
                    ));
                    assert(errors_view(old(state).errors@) + needs_seq_errors(
                        entries@,
                        job@,
                        elems@,
                    ) =~= errors_view(state.errors@) + needs_seq_errors(
                        entries@,
                        job@,
                        elems@.skip(i as int + 1),
                    ));
                }
            },
            _ => {
                proof {
                    assert(needs_seq_errors(entries@, job@, elems@.skip(i as int))
                        == needs_seq_errors(entries@, job@, elems@.skip(i as int + 1)));
                }
            },
        }
        i = i + 1;
    }
    proof {
        assert(elems@.skip(n as int) =~= Seq::<DocNode>::empty());
        assert(errors_view(state.errors@) + Seq::<ErrorView>::empty() =~= errors_view(
            state.errors@,
        ));
    }
}

/// Validates every `needs` reference in the document against the set of
/// declared job identifiers, appending one `unresolved_job` error for each
/// identifier no declared job carries. The rest of the state is untouched.
#[verifier::loop_isolation(false)]
pub fn validate_job_needs(doc: &DocNode, state: &mut ValidationState)
    ensures
        errors_view(final(state).errors@) == errors_view(old(state).errors@) + job_needs_errors(
            *doc,
        ),
        final(state).action_type == old(state).action_type,
        final(state).file_path == old(state).file_path,
{
    let ghost pre = state.errors@;
    proof {
        assert(errors_view(pre) =~= errors_view(pre) + Seq::<ErrorView>::empty());
    }
    let jobs_node = match doc.get("jobs") {
        Some(n) => n,
        None => {
            return ;
        },
    };
    let entries = match jobs_node {
        DocNode::Obj(entries) => entries,
        _ => {
            return ;
        },
    };
    let n = entries.len();
    let mut i: usize = 0;
    proof {
        assert(entries@.skip(0) =~= entries@);
    }
    while i < n
        invariant
            i <= n,
            errors_view(old(state).errors@) + jobs_errors_from(entries@, entries@) == errors_view(
                state.errors@,
            ) + jobs_errors_from(entries@, entries@.skip(i as int)),
            state.action_type == old(state).action_type,
            state.file_path == old(state).file_path,
        decreases n - i,
    {
        proof {
            assert(entries@.skip(i as int)[0] == entries@[i as int]);
            assert(entries@.skip(i as int).drop_first() =~= entries@.skip(i as int + 1));
        }
        let job_name = &entries[i].0;
        let needs_opt = entries[i].1.get("needs");
        match needs_opt {
            Some(needs) => {
                match needs {
                    DocNode::Str(s) => {
                        check_need_str(entries, job_name.as_str(), s.as_str(), state);
                        proof {
                            assert(need_str_errors(entries@, job_name@, s@) == job_entry_errors(
                                entries@,
                                entries@[i as int],
                            ));
                            assert(errors_view(old(state).errors@) + jobs_errors_from(
                                entries@,
                                entries@,
                            ) =~= errors_view(state.errors@) + jobs_errors_from(
                                entries@,
                                entries@.skip(i as int + 1),
                            ));
                        }
                    },
                    DocNode::Arr(elems) => {
                        check_needs_list(entries, job_name.as_str(), elems, state);
                        proof {
                            assert(needs_seq_errors(entries@, job_name@, elems@)
                                == job_entry_errors(entries@, entries@[i as int]));
                            assert(errors_view(old(state).errors@) + jobs_errors_from(
                                entries@,
                                entries@,
                            ) =~= errors_view(state.errors@) + jobs_errors_from(
                                entries@,
                                entries@.skip(i as int + 1),
                            ));
                        }
                    },
                    _ => {
                        proof {
                            assert(job_entry_errors(entries@, entries@[i as int]) =~= Seq::<
                                ErrorView,
                            >::empty());
                        }
                    },
                }
            },
            None => {
                proof {
                    assert(job_entry_errors(entries@, entries@[i as int]) =~= Seq::<
                        ErrorView,
                    >::empty());
                }
            },
        }
        i = i + 1;
    }
    proof {
        assert(entries@.skip(n as int) =~= Seq::<(String, DocNode)>::empty());
        assert(errors_view(state.errors@) + Seq::<ErrorView>::empty() =~= errors_view(
            state.errors@,
        ));
    }
}

} // verus!
