//! The step `uses:` validator: every `jobs.<job_id>.steps[*].uses` string in
//! the document is classified by the grammar of [`crate::models`] and then
//! verified against its probe outcome by [`crate::remote`].
//!
//! Jobs without a `steps` sequence, steps without a string `uses:` field,
//! and a `jobs` section that is not an object contribute nothing. Each
//! collected string carries its structural origin
//! `jobs/<job_id>/steps/uses/<raw>` for error reporting.

use vstd::prelude::*;
use vstd::string::StringExecFns;
use crate::classify::classify;
use crate::document::DocNode;
use crate::document::spec_get;
use crate::models::UsesReference;
use crate::models::action_parse;
use crate::models::docker_parse;
use crate::models::is_path_str;
use crate::remote::ProbeOutcome;
use crate::remote::action_not_found_error;
use crate::remote::apply_uses_outcomes;
use crate::remote::docker_not_found_error;
use crate::remote::invalid_uses_error;
use crate::remote::no_response_error;
use crate::remote::path_not_found_error;
use crate::remote::reference_errors;
use crate::remote::unexpected_status_error;
use crate::remote::uses_errors;
use crate::state::ErrorView;
use crate::state::ValidationState;
use crate::state::errors_view;

verus! {

/// One `uses:` string and the structural origin it was found at.
#[verifier::ext_equal]
pub ghost struct UsesAt {
    pub raw: Seq<char>,
    pub origin: Seq<char>,
}

/// The origin locator of a `uses:` string found in a job's steps.
pub open spec fn uses_origin(job: Seq<char>, raw: Seq<char>) -> Seq<char> {
    "jobs/"@ + job + "/steps/uses/"@ + raw
}

/// The `uses:` strings one step contributes: its `uses` field when that is a
/// string, nothing otherwise.
pub open spec fn step_uses(job: Seq<char>, step: DocNode) -> Seq<UsesAt> {
    match spec_get(step, "uses"@) {
        DocNode::Str(s) => seq![UsesAt { raw: s@, origin: uses_origin(job, s@) }],
        _ => Seq::empty(),
    }
}

/// The `uses:` strings of a job's steps, in order.
pub open spec fn steps_uses(job: Seq<char>, steps: Seq<DocNode>) -> Seq<UsesAt>
    decreases steps.len(),
{
    if steps.len() == 0 {
        Seq::empty()
    } else {
        step_uses(job, steps[0]) + steps_uses(job, steps.drop_first())
    }
}

/// The `uses:` strings one declared job contributes: those of its `steps`
/// sequence, nothing when it has none.
pub open spec fn job_entry_uses(entry: (String, DocNode)) -> Seq<UsesAt> {
    match spec_get(entry.1, "steps"@) {
        DocNode::Arr(steps) => steps_uses(entry.0@, steps@),
        _ => Seq::empty(),
    }
}

/// The `uses:` strings of the jobs listed in `rest`, in declaration order.
pub open spec fn jobs_uses_from(rest: Seq<(String, DocNode)>) -> Seq<UsesAt>
    decreases rest.len(),
{
    if rest.len() == 0 {
        Seq::empty()
    } else {
        job_entry_uses(rest[0]) + jobs_uses_from(rest.drop_first())
    }
}

/// Every `uses:` string of the document, with its origin, in document order.
pub open spec fn doc_uses(doc: DocNode) -> Seq<UsesAt> {
    match spec_get(doc, "jobs"@) {
        DocNode::Obj(entries) => jobs_uses_from(entries@),
        _ => Seq::empty(),
    }
}

/// The location each classified reference was built from.
pub open spec fn locs_of(refs: Seq<UsesReference>) -> Seq<UsesAt> {
    refs.map_values(
        |r: UsesReference| UsesAt { raw: r.spec_uses(), origin: r.spec_origin() },
    )
}

/// Every reference in the list is the classification of its own raw string
/// and origin.
pub open spec fn refs_wf(refs: Seq<UsesReference>) -> bool {
    forall|i: int|
        0 <= i < refs.len() ==> #[trigger] refs[i].wf_for(
            refs[i].spec_uses(),
            refs[i].spec_origin(),
        )
}

/// Builds the origin locator of one `uses:` string.
fn uses_origin_string(job: &str, raw: &str) -> (r: String)
    ensures
        r@ == uses_origin(job@, raw@),
{
    let mut origin = "jobs/".to_owned();
    origin.append(job);
    origin.append("/steps/uses/");
    origin.append(raw);
    origin
}

/// Classifies the `uses:` strings of one job's steps, appending the
/// references to `out` in step order.
#[verifier::loop_isolation(false)]
fn classify_job_steps(job: &str, steps: &Vec<DocNode>, out: &mut Vec<UsesReference>)
    requires
        refs_wf(old(out)@),
    ensures
        refs_wf(final(out)@),
        locs_of(final(out)@) == locs_of(old(out)@) + steps_uses(job@, steps@),
{
    let n = steps.len();
    let mut i: usize = 0;
    proof {
        assert(steps@.skip(0) =~= steps@);
        assert(locs_of(out@) + Seq::<UsesAt>::empty() =~= locs_of(out@));
    }
    while i < n
        invariant
            i <= n,
            refs_wf(out@),
            locs_of(old(out)@) + steps_uses(job@, steps@) == locs_of(out@) + steps_uses(
                job@,
                steps@.skip(i as int),
            ),
        decreases n - i,
    {
        proof {
            assert(steps@.skip(i as int)[0] == steps@[i as int]);
            assert(steps@.skip(i as int).drop_first() =~= steps@.skip(i as int + 1));
        }
        let uses_opt = steps[i].get("uses");
        match uses_opt {
            Some(node) => {
                match node {
                    DocNode::Str(s) => {
                        let ghost pre = out@;
                        let origin = uses_origin_string(job, s.as_str());
                        let r = classify(s.as_str(), origin.as_str());
                        out.push(r);
                        proof {
                            assert(locs_of(out@) =~= locs_of(pre) + seq![
                                UsesAt { raw: s@, origin: uses_origin(job@, s@) },
                            ]);
                            assert(locs_of(old(out)@) + steps_uses(job@, steps@) =~= locs_of(out@)
                                + steps_uses(job@, steps@.skip(i as int + 1)));
                        }
                    },
                    _ => {},
                }
            },
            None => {},
        }
        i = i + 1;
    }
    proof {
        assert(steps@.skip(n as int) =~= Seq::<DocNode>::empty());
        assert(locs_of(out@) + Seq::<UsesAt>::empty() =~= locs_of(out@));
    }
}

/// Classifies every `uses:` string of the document, in document order: the
/// result lists one reference per collected string, each the classification
/// of its own raw string and origin.
#[verifier::loop_isolation(false)]
pub fn classify_all_uses(doc: &DocNode) -> (r: Vec<UsesReference>)
    ensures
        refs_wf(r@),
        locs_of(r@) == doc_uses(*doc),
{
    let mut out: Vec<UsesReference> = Vec::new();
    proof {
        assert(locs_of(out@) =~= Seq::<UsesAt>::empty());
    }
    let jobs_node = match doc.get("jobs") {
        Some(n) => n,
        None => {
            return out;
        },
    };
    let entries = match jobs_node {
        DocNode::Obj(entries) => entries,
        _ => {
            return out;
        },
    };
    let n = entries.len();
    let mut i: usize = 0;
    proof {
        assert(entries@.skip(0) =~= entries@);
        assert(locs_of(out@) + jobs_uses_from(entries@) =~= jobs_uses_from(entries@));
    }
    while i < n
        invariant
            i <= n,
            refs_wf(out@),
            locs_of(out@) + jobs_uses_from(entries@.skip(i as int)) == jobs_uses_from(entries@),
        decreases n - i,
    {
        proof {
            assert(entries@.skip(i as int)[0] == entries@[i as int]);
            assert(entries@.skip(i as int).drop_first() =~= entries@.skip(i as int + 1));
        }
        let steps_opt = entries[i].1.get("steps");
        match steps_opt {
            Some(node) => {
                match node {
                    DocNode::Arr(steps) => {
                        let ghost pre = out@;
                        classify_job_steps(entries[i].0.as_str(), steps, &mut out);
                        proof {
                            assert(steps_uses(entries@[i as int].0@, steps@) == job_entry_uses(
                                entries@[i as int],
                            ));
                            assert(locs_of(out@) + jobs_uses_from(entries@.skip(i as int + 1))
                                =~= jobs_uses_from(entries@));
                        }
                    },
                    _ => {},
                }
            },
            None => {},
        }
        i = i + 1;
    }
    proof {
        assert(entries@.skip(n as int) =~= Seq::<(String, DocNode)>::empty());
        assert(locs_of(out@) + Seq::<UsesAt>::empty() =~= locs_of(out@));
    }
    out
}

/// The errors one collected `uses:` string and its probe outcome contribute,
/// decided by the grammar in precedence order and the outcome semantics of
/// [`reference_errors`].
pub open spec fn uses_at_errors(loc: UsesAt, outcome: ProbeOutcome) -> Seq<ErrorView> {
    if action_parse(loc.raw) is Some {
        match outcome {
            ProbeOutcome::Status(s) => if s != 200 {
                seq![action_not_found_error(loc.raw, loc.origin)]
            } else {
                Seq::empty()
            },
            _ => Seq::empty(),
        }
    } else if docker_parse(loc.raw) is Some {
        match outcome {
            ProbeOutcome::Status(s) => if s == 200 || s == 401 {
                Seq::empty()
            } else if s == 404 {
                seq![docker_not_found_error(loc.raw, loc.origin)]
            } else {
                seq![unexpected_status_error(s as int, loc.origin)]
            },
            ProbeOutcome::NoResponse => seq![no_response_error(loc.raw, loc.origin)],
            _ => Seq::empty(),
        }
    } else if is_path_str(loc.raw) {
        match outcome {
            ProbeOutcome::Exists(e) => if !e {
                seq![path_not_found_error(loc.raw, loc.origin)]
            } else {
                Seq::empty()
            },
            _ => Seq::empty(),
        }
    } else {
        seq![invalid_uses_error(loc.raw, loc.origin)]
    }
}

/// The errors of the collected strings and their outcomes, pairwise and in
/// order.
pub open spec fn uses_locs_errors(locs: Seq<UsesAt>, outcomes: Seq<ProbeOutcome>) -> Seq<ErrorView>
    decreases locs.len(),
{
    if locs.len() == 0 || outcomes.len() == 0 {
        Seq::empty()
    } else {
        uses_at_errors(locs[0], outcomes[0]) + uses_locs_errors(
            locs.drop_first(),
            outcomes.drop_first(),
        )
    }
}

/// Every error the `uses:` validator reports on the document given the
/// probe outcomes.
pub open spec fn job_uses_errors(doc: DocNode, outcomes: Seq<ProbeOutcome>) -> Seq<ErrorView> {
    uses_locs_errors(doc_uses(doc), outcomes)
}

/// A reference classified from a location yields the location's errors.
proof fn lemma_reference_errors_at(r: UsesReference, outcome: ProbeOutcome)
    requires
        r.wf_for(r.spec_uses(), r.spec_origin()),
    ensures
        reference_errors(r, outcome) == uses_at_errors(
            UsesAt { raw: r.spec_uses(), origin: r.spec_origin() },
            outcome,
        ),
{
}

/// Classified references yield the same errors as the locations they were
/// classified from, pairwise.
proof fn lemma_uses_errors_locs(
    refs: Seq<UsesReference>,
    locs: Seq<UsesAt>,
    outcomes: Seq<ProbeOutcome>,
)
    requires
        refs_wf(refs),
        locs == locs_of(refs),
    ensures
        uses_errors(refs, outcomes) == uses_locs_errors(locs, outcomes),
    decreases refs.len(),
{
    if refs.len() > 0 && outcomes.len() > 0 {
        lemma_reference_errors_at(refs[0], outcomes[0]);
        assert(locs[0] == (UsesAt { raw: refs[0].spec_uses(), origin: refs[0].spec_origin() }));
        assert(locs_of(refs.drop_first()) =~= locs.drop_first());
        lemma_uses_errors_locs(refs.drop_first(), locs.drop_first(), outcomes.drop_first());
    }
}

/// Validates every step `uses:` reference of the document: classifies each
/// collected string and verifies it against its probe outcome, appending one
/// error per failure, in document order. The caller supplies one outcome per
/// collected string, in the same order; the rest of the state is untouched.
pub fn validate(doc: &DocNode, outcomes: &Vec<ProbeOutcome>, state: &mut ValidationState)
    requires
        outcomes@.len() == doc_uses(*doc).len(),
    ensures
        errors_view(final(state).errors@) == errors_view(old(state).errors@) + job_uses_errors(
            *doc,
            outcomes@,
        ),
        final(state).action_type == old(state).action_type,
        final(state).file_path == old(state).file_path,
{
    let refs = classify_all_uses(doc);
    proof {
        assert(refs@.len() == locs_of(refs@).len());
        lemma_uses_errors_locs(refs@, doc_uses(*doc), outcomes@);
    }
    apply_uses_outcomes(&refs, outcomes, state);
}

} // verus!
