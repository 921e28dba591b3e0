//! Tests of the document validators: job dependencies, trigger-path globs,
//! `uses:` probe planning and outcome interpretation, and the full pass.

use action_validator::classify::classify;
use action_validator::config::ActionType;
use action_validator::config::JsConfig;
use action_validator::config::RunConfig;
use action_validator::document::DocNode;
use action_validator::globs::GlobOutcome;
use action_validator::globs::apply_glob_outcomes;
use action_validator::globs::collect_glob_checks;
use action_validator::globs::glob_locations_ok;
use action_validator::job_uses::classify_all_uses;
use action_validator::jobs::validate_job_needs;
use action_validator::models::UsesReference;
use action_validator::remote::Probe;
use action_validator::remote::ProbeOutcome;
use action_validator::remote::plan_probe;
use action_validator::remote::verify_reference;
use action_validator::state::ErrorCode;
use action_validator::state::ValidationState;
use action_validator::validate_workflow_doc;

fn obj(entries: Vec<(&str, DocNode)>) -> DocNode {
    DocNode::Obj(entries.into_iter().map(|(k, v)| (String::from(k), v)).collect())
}

fn s(text: &str) -> DocNode {
    DocNode::Str(String::from(text))
}

fn arr(elems: Vec<DocNode>) -> DocNode {
    DocNode::Arr(elems)
}

#[test]
fn unresolved_needs_in_list() {
    // jobs {a, b}; a needs ["b", "c"]: exactly one error, for "c"
    let doc = obj(vec![
        ("jobs", obj(vec![
            ("a", obj(vec![("needs", arr(vec![s("b"), s("c")]))])),
            ("b", obj(vec![])),
        ])),
    ]);
    let mut state = ValidationState::new();
    validate_job_needs(&doc, &mut state);
    assert_eq!(state.errors.len(), 1);
    let e = &state.errors[0];
    assert_eq!(e.code, ErrorCode::UnresolvedJob);
    assert_eq!(e.code.as_str(), "unresolved_job");
    assert_eq!(e.origin, "jobs/a/needs");
    assert_eq!(e.detail, Some(String::from("unresolved job c")));
    assert!(!state.is_valid());
}

#[test]
fn single_needs_string_resolved() {
    let doc = obj(vec![
        ("jobs", obj(vec![
            ("a", obj(vec![("needs", s("b"))])),
            ("b", obj(vec![])),
        ])),
    ]);
    let mut state = ValidationState::new();
    validate_job_needs(&doc, &mut state);
    assert!(state.is_valid());
}

#[test]
fn self_reference_is_allowed() {
    let doc = obj(vec![
        ("jobs", obj(vec![("a", obj(vec![("needs", s("a"))]))])),
    ]);
    let mut state = ValidationState::new();
    validate_job_needs(&doc, &mut state);
    assert!(state.is_valid());
}

#[test]
fn multiple_unresolved_needs_each_reported() {
    let doc = obj(vec![
        ("jobs", obj(vec![
            ("a", obj(vec![("needs", arr(vec![s("x"), s("y")]))])),
        ])),
    ]);
    let mut state = ValidationState::new();
    validate_job_needs(&doc, &mut state);
    assert_eq!(state.errors.len(), 2);
    assert_eq!(state.errors[0].detail, Some(String::from("unresolved job x")));
    assert_eq!(state.errors[1].detail, Some(String::from("unresolved job y")));
}

#[test]
fn no_jobs_section_no_errors() {
    let doc = obj(vec![("name", s("ci"))]);
    let mut state = ValidationState::new();
    validate_job_needs(&doc, &mut state);
    assert!(state.is_valid());
}

#[test]
fn glob_not_matched_single_error() {
    // on.push.paths = ["*.nonexistent"], no matching files: exactly one
    // glob_not_matched error for that pattern
    let doc = obj(vec![
        ("on", obj(vec![("push", obj(vec![("paths", arr(vec![s("*.nonexistent")]))]))])),
    ]);
    assert!(glob_locations_ok(&doc));
    let checks = collect_glob_checks(&doc);
    assert_eq!(checks.len(), 1);
    assert_eq!(checks[0].pattern, "*.nonexistent");
    assert_eq!(checks[0].origin, "/on/push/paths");
    let outcomes = vec![GlobOutcome::MatchCount(0)];
    let mut state = ValidationState::new();
    apply_glob_outcomes(&checks, &outcomes, &mut state);
    assert_eq!(state.errors.len(), 1);
    let e = &state.errors[0];
    assert_eq!(e.code, ErrorCode::GlobNotMatched);
    assert_eq!(e.code.as_str(), "glob_not_matched");
    assert_eq!(e.origin, "/on/push/paths");
    assert_eq!(
        e.detail,
        Some(String::from(
            "Glob *.nonexistent in /on/push/paths does not match any files"
        ))
    );
}

#[test]
fn absent_paths_key_no_errors() {
    let doc = obj(vec![("on", obj(vec![("push", obj(vec![]))]))]);
    assert!(glob_locations_ok(&doc));
    let checks = collect_glob_checks(&doc);
    assert_eq!(checks.len(), 0);
    let mut state = ValidationState::new();
    apply_glob_outcomes(&checks, &vec![], &mut state);
    assert!(state.is_valid());
}

#[test]
fn invalid_glob_reports_compiler_message() {
    let doc = obj(vec![
        ("on", obj(vec![("push", obj(vec![("paths", arr(vec![s("a***")]))]))])),
    ]);
    let checks = collect_glob_checks(&doc);
    let outcomes = vec![GlobOutcome::CompileError(String::from("wildcards are either regular `*` or recursive `**`"))];
    let mut state = ValidationState::new();
    apply_glob_outcomes(&checks, &outcomes, &mut state);
    assert_eq!(state.errors.len(), 1);
    let e = &state.errors[0];
    assert_eq!(e.code, ErrorCode::InvalidGlob);
    assert_eq!(e.code.as_str(), "invalid_glob");
    assert_eq!(
        e.detail,
        Some(String::from(
            "Glob a*** in /on/push/paths is invalid: wildcards are either regular `*` or recursive `**`"
        ))
    );
}

#[test]
fn matched_glob_no_error() {
    let doc = obj(vec![
        ("on", obj(vec![("push", obj(vec![("paths", arr(vec![s("src/**")]))]))])),
    ]);
    let checks = collect_glob_checks(&doc);
    let outcomes = vec![GlobOutcome::MatchCount(3)];
    let mut state = ValidationState::new();
    apply_glob_outcomes(&checks, &outcomes, &mut state);
    assert!(state.is_valid());
}

#[test]
fn all_four_glob_locations_collected_in_order() {
    let doc = obj(vec![
        ("on", obj(vec![
            ("push", obj(vec![
                ("paths", arr(vec![s("p1")])),
                ("paths-ignore", arr(vec![s("p2")])),
            ])),
            ("pull_request", obj(vec![
                ("paths", arr(vec![s("p3")])),
                ("paths-ignore", arr(vec![s("p4")])),
            ])),
        ])),
    ]);
    let checks = collect_glob_checks(&doc);
    let got: Vec<(String, String)> = checks
        .iter()
        .map(|c| (c.pattern.clone(), c.origin.clone()))
        .collect();
    assert_eq!(got, vec![
        (String::from("p1"), String::from("/on/push/paths")),
        (String::from("p2"), String::from("/on/push/paths-ignore")),
        (String::from("p3"), String::from("/on/pull_request/paths")),
        (String::from("p4"), String::from("/on/pull_request/paths-ignore")),
    ]);
}

#[test]
fn non_list_glob_location_flagged_by_shape_check() {
    let doc = obj(vec![
        ("on", obj(vec![("push", obj(vec![("paths", s("not-a-list"))]))])),
    ]);
    assert!(!glob_locations_ok(&doc));
}

#[test]
fn end_to_end_two_errors() {
    // jobs.build needs "test" which is not declared, and on.push.paths has
    // one pattern matching nothing: exactly two errors, in validator order
    let doc = obj(vec![
        ("jobs", obj(vec![("build", obj(vec![("needs", s("test"))]))])),
        ("on", obj(vec![("push", obj(vec![("paths", arr(vec![s("missing/*.txt")]))]))])),
    ]);
    let glob_outcomes = vec![GlobOutcome::MatchCount(0)];
    let probe_outcomes = vec![];
    let mut state = ValidationState::new();
    validate_workflow_doc(&doc, &glob_outcomes, &probe_outcomes, &mut state);
    assert_eq!(state.errors.len(), 2);
    assert_eq!(state.errors[0].code, ErrorCode::UnresolvedJob);
    assert_eq!(state.errors[0].origin, "jobs/build/needs");
    assert_eq!(state.errors[1].code, ErrorCode::GlobNotMatched);
    assert!(!state.is_valid());
}

#[test]
fn revalidation_yields_identical_errors() {
    // the same document and outcomes, two fresh states: identical errors
    let doc = obj(vec![
        ("jobs", obj(vec![
            ("build", obj(vec![
                ("needs", s("test")),
                ("steps", arr(vec![obj(vec![("uses", s("bad uses"))])])),
            ])),
        ])),
        ("on", obj(vec![("push", obj(vec![("paths", arr(vec![s("missing/*.txt")]))]))])),
    ]);
    let glob_outcomes = vec![GlobOutcome::MatchCount(0)];
    let probe_outcomes = vec![ProbeOutcome::Skipped];
    let mut first = ValidationState::new();
    let mut second = ValidationState::new();
    validate_workflow_doc(&doc, &glob_outcomes, &probe_outcomes, &mut first);
    validate_workflow_doc(&doc, &glob_outcomes, &probe_outcomes, &mut second);
    assert_eq!(first.errors.len(), 3);
    assert_eq!(first.errors.len(), second.errors.len());
    for (a, b) in first.errors.iter().zip(second.errors.iter()) {
        assert_eq!(a.code, b.code);
        assert_eq!(a.title, b.title);
        assert_eq!(a.detail, b.detail);
        assert_eq!(a.origin, b.origin);
    }
}

#[test]
fn classify_all_collects_in_document_order() {
    let doc = obj(vec![
        ("jobs", obj(vec![
            ("a", obj(vec![("steps", arr(vec![
                obj(vec![("uses", s("actions/checkout@v4"))]),
                obj(vec![("run", s("make"))]),
                obj(vec![("uses", s("./local"))]),
            ]))])),
            ("b", obj(vec![("steps", arr(vec![
                obj(vec![("uses", s("docker://alpine:3.19"))]),
            ]))])),
        ])),
    ]);
    let refs = classify_all_uses(&doc);
    assert_eq!(refs.len(), 3);
    match &refs[0] {
        UsesReference::Action(a) => {
            assert_eq!(a.origin, "jobs/a/steps/uses/actions/checkout@v4");
        },
        other => panic!("expected Action, got {:?}", other),
    }
    assert!(matches!(&refs[1], UsesReference::Path(_)));
    assert!(matches!(&refs[2], UsesReference::Docker(_)));
}

#[test]
fn action_probe_url_with_and_without_subpath() {
    let r = classify("a/b@v1", "o");
    match plan_probe(&r, true) {
        Probe::Http(url) => assert_eq!(url, "https://github.com/a/b/tree/v1/"),
        other => panic!("expected Http probe, got {:?}", other),
    }
    let r = classify("a/b/sub/dir@v2", "o");
    match plan_probe(&r, true) {
        Probe::Http(url) => assert_eq!(url, "https://github.com/a/b/tree/v2/sub/dir"),
        other => panic!("expected Http probe, got {:?}", other),
    }
}

#[test]
fn docker_probe_url_four_cases() {
    // host and tag: v2 manifest lookup
    match plan_probe(&classify("docker://reg.io/team/img:1.0", "o"), true) {
        Probe::Http(url) => assert_eq!(url, "https://reg.io/v2/team/img/manifests/1.0"),
        other => panic!("expected Http probe, got {:?}", other),
    }
    // host, no tag: v2 tag list
    match plan_probe(&classify("docker://reg.io/team/img", "o"), true) {
        Probe::Http(url) => assert_eq!(url, "https://reg.io/v2/team/img/tags/list"),
        other => panic!("expected Http probe, got {:?}", other),
    }
    // no host, tag, official image: library/ prefix and hub tag lookup
    match plan_probe(&classify("docker://alpine:3.19", "o"), true) {
        Probe::Http(url) => assert_eq!(
            url,
            "https://registry.hub.docker.com/v2/repositories/library/alpine/tags/3.19"
        ),
        other => panic!("expected Http probe, got {:?}", other),
    }
    // no host, no tag, namespaced image: hub repository lookup, no prefix
    match plan_probe(&classify("docker://team/img", "o"), true) {
        Probe::Http(url) => assert_eq!(
            url,
            "https://registry.hub.docker.com/v2/repositories/team/img"
        ),
        other => panic!("expected Http probe, got {:?}", other),
    }
}

#[test]
fn path_probe_is_local_lookup() {
    match plan_probe(&classify("./x/y", "o"), true) {
        Probe::LocalPath(p) => assert_eq!(p, "./x/y"),
        other => panic!("expected LocalPath probe, got {:?}", other),
    }
}

#[test]
fn no_probe_when_remote_checks_disabled() {
    assert!(matches!(plan_probe(&classify("a/b@v1", "o"), false), Probe::NoProbe));
    assert!(matches!(plan_probe(&classify("docker://a", "o"), false), Probe::NoProbe));
    assert!(matches!(plan_probe(&classify("./x", "o"), false), Probe::NoProbe));
    assert!(matches!(plan_probe(&classify("???", "o"), false), Probe::NoProbe));
}

#[test]
fn invalid_reference_always_fails() {
    let r = classify("not a reference", "jobs/a/steps/uses/not a reference");
    let e = verify_reference(&r, ProbeOutcome::Skipped).unwrap_err();
    assert_eq!(e.code, ErrorCode::InvalidUses);
    assert_eq!(e.code.as_str(), "invalid_uses");
    assert_eq!(e.title, "Invalid Uses");
    assert_eq!(e.detail, Some(String::from("The `uses` not a reference is invalid.")));
    assert_eq!(e.origin, "jobs/a/steps/uses/not a reference");
}

#[test]
fn skipped_probe_succeeds_for_every_valid_variant() {
    assert!(verify_reference(&classify("a/b@v1", "o"), ProbeOutcome::Skipped).is_ok());
    assert!(verify_reference(&classify("docker://a", "o"), ProbeOutcome::Skipped).is_ok());
    assert!(verify_reference(&classify("./x", "o"), ProbeOutcome::Skipped).is_ok());
}

#[test]
fn action_status_semantics() {
    let r = classify("a/b@v1", "o");
    assert!(verify_reference(&r, ProbeOutcome::Status(200)).is_ok());
    let e = verify_reference(&r, ProbeOutcome::Status(404)).unwrap_err();
    assert_eq!(e.code, ErrorCode::ActionNotFound);
    assert_eq!(e.code.as_str(), "action_not_found");
    assert_eq!(e.detail, Some(String::from("Could not find action: a/b@v1")));
    // fail-open: a transport failure is success for an action probe
    assert!(verify_reference(&r, ProbeOutcome::NoResponse).is_ok());
}

#[test]
fn docker_status_semantics() {
    let r = classify("docker://alpine:3.19", "o");
    assert!(verify_reference(&r, ProbeOutcome::Status(200)).is_ok());
    assert!(verify_reference(&r, ProbeOutcome::Status(401)).is_ok());
    let e = verify_reference(&r, ProbeOutcome::Status(404)).unwrap_err();
    assert_eq!(e.code, ErrorCode::DockerActionNotFound);
    assert_eq!(e.code.as_str(), "docker_action_not_found");
    assert_eq!(
        e.detail,
        Some(String::from("Could not find the docker action: docker://alpine:3.19"))
    );
    let e = verify_reference(&r, ProbeOutcome::Status(503)).unwrap_err();
    assert_eq!(e.code, ErrorCode::UnexpectedServerResponse);
    assert_eq!(e.code.as_str(), "unexpected_server_response");
    assert_eq!(e.detail, Some(String::from("Unexpected server response: 503")));
    // fail-closed: a transport failure is an error for a container probe
    let e = verify_reference(&r, ProbeOutcome::NoResponse).unwrap_err();
    assert_eq!(e.code, ErrorCode::UnexpectedServerResponse);
    assert_eq!(
        e.detail,
        Some(String::from("Could not find docker action: docker://alpine:3.19"))
    );
}

#[test]
fn path_existence_semantics() {
    // a path reference verifies successfully exactly when the path exists
    let r = classify("./a/b/c", "o");
    assert!(verify_reference(&r, ProbeOutcome::Exists(true)).is_ok());
    let e = verify_reference(&r, ProbeOutcome::Exists(false)).unwrap_err();
    assert_eq!(e.code, ErrorCode::ActionNotFound);
    assert_eq!(e.detail, Some(String::from("The action path does not exist: ./a/b/c")));
}

#[test]
fn uses_validator_reports_per_reference_in_order() {
    let doc = obj(vec![
        ("jobs", obj(vec![
            ("build", obj(vec![("steps", arr(vec![
                obj(vec![("uses", s("ghost/missing@v1"))]),
                obj(vec![("uses", s("not a reference"))]),
                obj(vec![("uses", s("actions/checkout@v4"))]),
            ]))])),
        ])),
    ]);
    let refs = classify_all_uses(&doc);
    assert_eq!(refs.len(), 3);
    let outcomes = vec![
        ProbeOutcome::Status(404),
        ProbeOutcome::Skipped,
        ProbeOutcome::Status(200),
    ];
    let mut state = ValidationState::new();
    action_validator::job_uses::validate(&doc, &outcomes, &mut state);
    assert_eq!(state.errors.len(), 2);
    assert_eq!(state.errors[0].code, ErrorCode::ActionNotFound);
    assert_eq!(state.errors[0].origin, "jobs/build/steps/uses/ghost/missing@v1");
    assert_eq!(state.errors[1].code, ErrorCode::InvalidUses);
    assert_eq!(state.errors[1].origin, "jobs/build/steps/uses/not a reference");
}

#[test]
fn state_accumulates_and_reports() {
    let mut state = ValidationState::new();
    assert!(state.is_valid());
    let r = classify("", "origin");
    if let Err(e) = verify_reference(&r, ProbeOutcome::Skipped) {
        state.push(e);
    }
    assert!(!state.is_valid());
    assert_eq!(state.errors.len(), 1);
}

#[test]
fn doc_lookup_tolerates_absent_keys() {
    let doc = obj(vec![("a", s("x"))]);
    assert!(doc.get("missing").is_none());
    assert!(s("leaf").get("a").is_none());
    match doc.get("a") {
        Some(DocNode::Str(v)) => assert_eq!(v, "x"),
        other => panic!("expected string node, got {:?}", other),
    }
}

#[test]
fn run_config_from_js_config() {
    let js = JsConfig { action_type: ActionType::Workflow, src: "name: ci", verbose: true };
    let run: RunConfig = (&js).into();
    assert!(run.file_path.is_none());
    assert!(run.file_name.is_none());
    assert!(matches!(run.action_type, ActionType::Workflow));
    assert_eq!(run.src, "name: ci");
    assert!(run.verbose);
    assert!(!run.remote_checks);
}
