//! Tests of the `uses:` classifier: one variant per input, pieces as the
//! grammar parses them, fixed precedence on overlaps.

use action_validator::models::UsesReference;
use action_validator::classify::classify;

fn classify_s(raw: &str) -> UsesReference {
    classify(raw, "jobs/test/steps/uses/x")
}

#[test]
fn action_plain_form() {
    match classify_s("actions/checkout@v4") {
        UsesReference::Action(a) => {
            assert_eq!(a.owner, "actions");
            assert_eq!(a.repo, "checkout");
            assert_eq!(a.path, None);
            assert_eq!(a.reference, "v4");
            assert_eq!(a.uses, "actions/checkout@v4");
            assert_eq!(a.origin, "jobs/test/steps/uses/x");
        },
        other => panic!("expected Action, got {:?}", other),
    }
}

#[test]
fn action_with_subpath() {
    match classify_s("a/b/c/d@e") {
        UsesReference::Action(a) => {
            assert_eq!(a.owner, "a");
            assert_eq!(a.repo, "b");
            assert_eq!(a.path, Some(String::from("c/d")));
            assert_eq!(a.reference, "e");
        },
        other => panic!("expected Action, got {:?}", other),
    }
}

#[test]
fn action_reference_takes_everything_after_last_at() {
    // greedy: with no second `/`, the repo keeps earlier `@` signs and the
    // reference is what follows the last one
    match classify_s("a/b@c@d") {
        UsesReference::Action(a) => {
            assert_eq!(a.owner, "a");
            assert_eq!(a.repo, "b@c");
            assert_eq!(a.path, None);
            assert_eq!(a.reference, "d");
        },
        other => panic!("expected Action, got {:?}", other),
    }
}

#[test]
fn action_reference_may_contain_slash() {
    // no `@` after the second `/`: the split falls back to the last `@`
    // before it and the reference keeps the `/`
    match classify_s("a/b@heads/main") {
        UsesReference::Action(a) => {
            assert_eq!(a.owner, "a");
            assert_eq!(a.repo, "b");
            assert_eq!(a.path, None);
            assert_eq!(a.reference, "heads/main");
        },
        other => panic!("expected Action, got {:?}", other),
    }
}

#[test]
fn action_empty_owner_rejected() {
    match classify_s("/repo@v1") {
        UsesReference::Invalid(_) => {},
        other => panic!("expected Invalid, got {:?}", other),
    }
}

#[test]
fn action_empty_reference_rejected() {
    match classify_s("owner/repo@") {
        UsesReference::Invalid(_) => {},
        other => panic!("expected Invalid, got {:?}", other),
    }
}

#[test]
fn action_without_at_rejected() {
    match classify_s("owner/repo") {
        UsesReference::Invalid(_) => {},
        other => panic!("expected Invalid, got {:?}", other),
    }
}

#[test]
fn docker_plain_image_and_tag() {
    match classify_s("docker://alpine:3.19") {
        UsesReference::Docker(d) => {
            assert_eq!(d.url, None);
            assert_eq!(d.image, "alpine");
            assert_eq!(d.tag, Some(String::from("3.19")));
            assert_eq!(d.uses, "docker://alpine:3.19");
        },
        other => panic!("expected Docker, got {:?}", other),
    }
}

#[test]
fn docker_image_without_tag() {
    match classify_s("docker://alpine") {
        UsesReference::Docker(d) => {
            assert_eq!(d.url, None);
            assert_eq!(d.image, "alpine");
            assert_eq!(d.tag, None);
        },
        other => panic!("expected Docker, got {:?}", other),
    }
}

#[test]
fn docker_with_registry_host() {
    match classify_s("docker://registry.example.com/team/img:1.0") {
        UsesReference::Docker(d) => {
            assert_eq!(d.url, Some(String::from("registry.example.com")));
            assert_eq!(d.image, "team/img");
            assert_eq!(d.tag, Some(String::from("1.0")));
        },
        other => panic!("expected Docker, got {:?}", other),
    }
}

#[test]
fn docker_host_needs_interior_dot() {
    // `team` has no dot, so it is part of the image, not a host
    match classify_s("docker://team/img") {
        UsesReference::Docker(d) => {
            assert_eq!(d.url, None);
            assert_eq!(d.image, "team/img");
            assert_eq!(d.tag, None);
        },
        other => panic!("expected Docker, got {:?}", other),
    }
}

#[test]
fn docker_host_reread_as_image_when_rest_empty() {
    // a recognized host whose remainder is empty is re-read as the image
    match classify_s("docker://a.b/") {
        UsesReference::Docker(d) => {
            assert_eq!(d.url, None);
            assert_eq!(d.image, "a.b/");
            assert_eq!(d.tag, None);
        },
        other => panic!("expected Docker, got {:?}", other),
    }
}

#[test]
fn docker_empty_tag_rejected() {
    match classify_s("docker://img:") {
        UsesReference::Invalid(_) => {},
        other => panic!("expected Invalid, got {:?}", other),
    }
}

#[test]
fn path_plain_form() {
    match classify_s("./a/b/c") {
        UsesReference::Path(p) => {
            assert_eq!(p.uses, "./a/b/c");
        },
        other => panic!("expected Path, got {:?}", other),
    }
}

#[test]
fn path_single_segment() {
    match classify_s("./local-action") {
        UsesReference::Path(_) => {},
        other => panic!("expected Path, got {:?}", other),
    }
}

#[test]
fn path_empty_segment_rejected() {
    match classify_s("./a//b") {
        UsesReference::Invalid(_) => {},
        other => panic!("expected Invalid, got {:?}", other),
    }
}

#[test]
fn path_trailing_slash_rejected() {
    match classify_s("./a/") {
        UsesReference::Invalid(_) => {},
        other => panic!("expected Invalid, got {:?}", other),
    }
}

#[test]
fn empty_string_is_invalid() {
    match classify_s("") {
        UsesReference::Invalid(v) => {
            assert_eq!(v.uses, "");
        },
        other => panic!("expected Invalid, got {:?}", other),
    }
}

#[test]
fn precedence_action_over_path() {
    // `./a/b@c` has the shape of a local path, but the action grammar also
    // parses it; the fixed precedence decides for the action
    match classify_s("./a/b@c") {
        UsesReference::Action(a) => {
            assert_eq!(a.owner, ".");
            assert_eq!(a.repo, "a");
            assert_eq!(a.path, Some(String::from("b")));
            assert_eq!(a.reference, "c");
        },
        other => panic!("expected Action by precedence, got {:?}", other),
    }
}

#[test]
fn docker_image_may_contain_at_sign() {
    // the action grammar never claims a `docker://` string (its repo would
    // be empty), and the image part tolerates an `@`
    match classify_s("docker://img@sha256") {
        UsesReference::Docker(d) => {
            assert_eq!(d.url, None);
            assert_eq!(d.image, "img@sha256");
            assert_eq!(d.tag, None);
        },
        other => panic!("expected Docker, got {:?}", other),
    }
}

#[test]
fn classification_is_total_and_stable() {
    // the same string classifies the same way twice
    let inputs = [
        "actions/checkout@v4",
        "docker://alpine:3.19",
        "./local",
        "not a reference",
        "",
    ];
    for raw in inputs.iter() {
        let first = format!("{:?}", classify_s(raw));
        let second = format!("{:?}", classify_s(raw));
        assert_eq!(first, second);
    }
}
