//! Semantic validator for CI workflow and action definitions.
//!
//! After a definition has been parsed into a generic document tree and
//! checked against a schema (both outside this crate), this library performs
//! the validations a schema cannot express: classifying step `uses:`
//! references, planning and interpreting their remote existence probes,
//! checking job dependency graphs, and checking trigger-path glob filters.
//! Every validator appends to a shared [`state::ValidationState`] and never
//! aborts early, so one pass surfaces every problem found.

pub mod classify;
pub mod config;
pub mod document;
pub mod globs;
pub mod job_uses;
pub mod jobs;
pub mod laws;
pub mod models;
pub mod remote;
pub mod state;
pub mod strutil;

use vstd::prelude::*;
use crate::document::DocNode;
use crate::globs::GlobOutcome;
use crate::globs::apply_glob_outcomes;
use crate::globs::collect_glob_checks;
use crate::globs::doc_glob_checks;
use crate::globs::glob_errors;
use crate::globs::glob_locations_wf;
use crate::jobs::job_needs_errors;
use crate::jobs::validate_job_needs;
use crate::job_uses::doc_uses;
use crate::job_uses::job_uses_errors;
use crate::remote::ProbeOutcome;
use crate::state::ErrorView;
use crate::state::ValidationState;
use crate::state::errors_view;

verus! {

/// Every error one validation pass reports on a workflow document, given the
/// outcomes of the filesystem and network work the pass asked for: the job
/// dependency errors, then the glob errors, then the `uses:` reference
/// errors, a function of the document and the outcomes alone.
pub open spec fn workflow_errors(
    doc: DocNode,
    glob_outcomes: Seq<GlobOutcome>,
    probe_outcomes: Seq<ProbeOutcome>,
) -> Seq<ErrorView> {
    job_needs_errors(doc) + glob_errors(doc_glob_checks(doc), glob_outcomes) + job_uses_errors(
        doc,
        probe_outcomes,
    )
}

/// Runs the three document validators in order — job dependencies, trigger
/// path globs, step `uses:` references — appending every error found and
/// stopping at none of them. The caller supplies one outcome per planned
/// glob check and per collected `uses:` string, in plan order.
pub fn validate_workflow_doc(
    doc: &DocNode,
    glob_outcomes: &Vec<GlobOutcome>,
    probe_outcomes: &Vec<ProbeOutcome>,
    state: &mut ValidationState,
)
    requires
        glob_locations_wf(*doc),
        glob_outcomes@.len() == doc_glob_checks(*doc).len(),
        probe_outcomes@.len() == doc_uses(*doc).len(),
    ensures
        errors_view(final(state).errors@) == errors_view(old(state).errors@) + workflow_errors(
            *doc,
            glob_outcomes@,
            probe_outcomes@,
        ),
        final(state).action_type == old(state).action_type,
        final(state).file_path == old(state).file_path,
{
    validate_job_needs(doc, state);
    let checks = collect_glob_checks(doc);
    apply_glob_outcomes(&checks, glob_outcomes, state);
    crate::job_uses::validate(doc, probe_outcomes, state);
    proof {
        assert(errors_view(state.errors@) =~= errors_view(old(state).errors@) + workflow_errors(
            *doc,
            glob_outcomes@,
            probe_outcomes@,
        ));
    }
}

} // verus!
