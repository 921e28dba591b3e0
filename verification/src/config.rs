//! Configuration values threaded into a validation run. Argument parsing and
//! host bindings live outside this crate; these types carry only the plain
//! values the validators read.

use vstd::prelude::*;

verus! {

/// Which kind of definition a document is treated as.
#[derive(Copy, Clone, Debug, PartialEq, Eq, Structural)]
pub enum ActionType {
    Action,
    Workflow,
}

/// Settings of one command-line invocation: the files to validate and the
/// switches that apply to all of them.
#[derive(Debug)]
pub struct CliConfig {
    /// Be more verbose.
    pub verbose: bool,
    /// Perform remote calls to check that referenced actions exist.
    pub remote_checks: bool,
    /// Input file paths.
    pub src: Vec<String>,
}

/// Settings of one host-binding invocation, which validates a single source
/// text with no file behind it.
pub struct JsConfig<'a> {
    pub action_type: ActionType,
    pub src: &'a str,
    pub verbose: bool,
}

/// Settings of one validation run over one document source.
pub struct RunConfig<'a> {
    pub file_path: Option<&'a str>,
    pub file_name: Option<&'a str>,
    pub action_type: ActionType,
    pub src: &'a str,
    pub verbose: bool,
    /// Whether remote existence probes are enabled for this run.
    pub remote_checks: bool,
}

impl<'a> From<&JsConfig<'a>> for RunConfig<'a> {
    /// A host-binding run has no file behind it and never probes remotely.
    fn from(config: &JsConfig<'a>) -> (r: RunConfig<'a>) {
        RunConfig {
            file_path: None,
            file_name: None,
            action_type: config.action_type,
            src: config.src,
            verbose: config.verbose,
            remote_checks: false,
        }
    }
}

impl<'a> vstd::std_specs::convert::FromSpecImpl<&JsConfig<'a>> for RunConfig<'a> {
    open spec fn obeys_from_spec() -> bool {
        true
    }

    open spec fn from_spec(config: &JsConfig<'a>) -> RunConfig<'a> {
        RunConfig {
            file_path: None,
            file_name: None,
            action_type: config.action_type,
            src: config.src,
            verbose: config.verbose,
            remote_checks: false,
        }
    }
}

} // verus!
