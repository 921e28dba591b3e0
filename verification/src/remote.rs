//! The remote verifier for classified `uses:` references: it plans one
//! existence probe per reference and interprets the probe's outcome.
//!
//! The probes themselves — an HTTP request or a filesystem lookup — run
//! outside this crate: [`plan_probe`] says what to run, the caller runs it
//! and hands back a [`ProbeOutcome`], and [`verify_reference`] decides the
//! result. When remote verification is disabled the caller skips every probe
//! and every variant except an invalid reference trivially succeeds.
//!
//! Status semantics differ by variant, deliberately: a repository action
//! probe treats any status other than 200 as not found but a transport
//! failure as success (fail-open); a container registry probe treats 200 and
//! 401 as success, 404 as not found, and anything else — a transport failure
//! included — as an unexpected response (fail-closed).

use vstd::prelude::*;
use vstd::string::StringExecFns;
use crate::models::Action;
use crate::models::Docker;
use crate::models::UsesReference;
use crate::state::ErrorCode;
use crate::state::ErrorView;
use crate::state::ValidationError;
use crate::state::ValidationState;
use crate::state::errors_view;
use crate::strutil::contains_char;
use crate::strutil::dec_digits;
use crate::strutil::str_contains_char;
use crate::strutil::u64_to_dec;

verus! {

/// The probe a reference asks for: none, an HTTP existence probe of a URL,
/// or a lookup of a local path.
#[derive(Debug)]
pub enum Probe {
    NoProbe,
    Http(String),
    LocalPath(String),
}

/// The view of a probe.
#[verifier::ext_equal]
pub ghost enum ProbeView {
    NoProbe,
    Http(Seq<char>),
    LocalPath(Seq<char>),
}

impl View for Probe {
    type V = ProbeView;

    open spec fn view(&self) -> ProbeView {
        match self {
            Probe::NoProbe => ProbeView::NoProbe,
            Probe::Http(url) => ProbeView::Http(url@),
            Probe::LocalPath(p) => ProbeView::LocalPath(p@),
        }
    }
}

/// What a probe reported: it was skipped (remote verification disabled, or
/// no probe was asked for), the request got no response, the response's
/// status code, or whether a local path exists.
#[derive(Copy, Clone, Debug, PartialEq, Eq, Structural)]
pub enum ProbeOutcome {
    Skipped,
    NoResponse,
    Status(u16),
    Exists(bool),
}

/// The URL probed for a repository action: the tree of the repository at the
/// reference, scoped to the subpath when there is one.
pub open spec fn action_probe_url(
    owner: Seq<char>,
    repo: Seq<char>,
    reference: Seq<char>,
    path: Option<Seq<char>>,
) -> Seq<char> {
    "https://github.com/"@ + owner + "/"@ + repo + "/tree/"@ + reference + "/"@ + (match path {
        Some(p) => p,
        None => Seq::empty(),
    })
}

/// The image name a registry is asked about: an image without `/` on the
/// default registry is an official image and gets the `library/` namespace.
pub open spec fn docker_lookup_image(url: Option<Seq<char>>, image: Seq<char>) -> Seq<char> {
    if url is None && !contains_char(image, '/') {
        "library/"@ + image
    } else {
        image
    }
}

/// The URL probed for a container reference, by cases on the presence of a
/// registry host and a tag: a named registry is asked through the v2 API for
/// the tag's manifest or the tag list; the default registry is asked through
/// its repositories API for the tag or the repository.
pub open spec fn docker_probe_url(
    url: Option<Seq<char>>,
    image: Seq<char>,
    tag: Option<Seq<char>>,
) -> Seq<char> {
    let li = docker_lookup_image(url, image);
    match url {
        Some(h) => match tag {
            Some(t) => "https://"@ + h + "/v2/"@ + li + "/manifests/"@ + t,
            None => "https://"@ + h + "/v2/"@ + li + "/tags/list"@,
        },
        None => match tag {
            Some(t) => "https://registry.hub.docker.com/v2/repositories/"@ + li + "/tags/"@ + t,
            None => "https://registry.hub.docker.com/v2/repositories/"@ + li,
        },
    }
}

/// The probe a reference asks for when remote verification is enabled:
/// actions and containers are probed over HTTP, a path reference is looked
/// up on the local filesystem, an invalid reference needs no probe. With
/// remote verification disabled nothing is probed.
pub open spec fn spec_probe(r: UsesReference, remote_checks: bool) -> ProbeView {
    if !remote_checks {
        ProbeView::NoProbe
    } else {
        match r {
            UsesReference::Action(a) => ProbeView::Http(
                action_probe_url(a.owner@, a.repo@, a.reference@, crate::models::opt_view(a.path)),
            ),
            UsesReference::Docker(d) => ProbeView::Http(
                docker_probe_url(crate::models::opt_view(d.url), d.image@, crate::models::opt_view(d.tag)),
            ),
            UsesReference::Path(p) => ProbeView::LocalPath(p.uses@),
            UsesReference::Invalid(_) => ProbeView::NoProbe,
        }
    }
}

/// Builds the action probe URL.
fn action_url(a: &Action) -> (r: String)
    ensures
        r@ == action_probe_url(a.owner@, a.repo@, a.reference@, crate::models::opt_view(a.path)),
{
    let mut url = "https://github.com/".to_owned();
    url.append(a.owner.as_str());
    url.append("/");
    url.append(a.repo.as_str());
    url.append("/tree/");
    url.append(a.reference.as_str());
    url.append("/");
    match &a.path {
        Some(p) => url.append(p.as_str()),
        None => {
            proof {
                assert(url@ + Seq::<char>::empty() =~= url@);
            }
        },
    }
    url
}

/// Builds the container probe URL.
fn docker_url(d: &Docker) -> (r: String)
    ensures
        r@ == docker_probe_url(
            crate::models::opt_view(d.url),
            d.image@,
            crate::models::opt_view(d.tag),
        ),
{
    let mut image = if d.url.is_none() && !str_contains_char(d.image.as_str(), '/') {
        let mut li = "library/".to_owned();
        li.append(d.image.as_str());
        li
    } else {
        d.image.as_str().to_owned()
    };
    let mut url: String;
    match &d.url {
        Some(h) => {
            url = "https://".to_owned();
            url.append(h.as_str());
            url.append("/v2/");
            url.append(image.as_str());
            match &d.tag {
                Some(t) => {
                    url.append("/manifests/");
                    url.append(t.as_str());
                },
                None => {
                    url.append("/tags/list");
                },
            }
        },
        None => {
            url = "https://registry.hub.docker.com/v2/repositories/".to_owned();
            url.append(image.as_str());
            match &d.tag {
                Some(t) => {
                    url.append("/tags/");
                    url.append(t.as_str());
                },
                None => {},
            }
        },
    }
    url
}

/// Plans the probe one reference asks for.
pub fn plan_probe(r: &UsesReference, remote_checks: bool) -> (p: Probe)
    ensures
        p@ == spec_probe(*r, remote_checks),
{
    if !remote_checks {
        return Probe::NoProbe;
    }
    match r {
        UsesReference::Action(a) => Probe::Http(action_url(a)),
        UsesReference::Docker(d) => Probe::Http(docker_url(d)),
        UsesReference::Path(p) => Probe::LocalPath(p.uses.as_str().to_owned()),
        UsesReference::Invalid(_) => Probe::NoProbe,
    }
}

/// The error of an invalid reference, reported whatever the outcome.
pub open spec fn invalid_uses_error(uses: Seq<char>, origin: Seq<char>) -> ErrorView {
    ErrorView {
        code: ErrorCode::InvalidUses,
        title: "Invalid Uses"@,
        detail: Some("The `uses` "@ + uses + " is invalid."@),
        origin: origin,
    }
}

/// The error of an action whose probe got a status other than 200.
pub open spec fn action_not_found_error(uses: Seq<char>, origin: Seq<char>) -> ErrorView {
    ErrorView {
        code: ErrorCode::ActionNotFound,
        title: "Action Not Found"@,
        detail: Some("Could not find action: "@ + uses),
        origin: origin,
    }
}

/// The error of a container whose registry answered 404.
pub open spec fn docker_not_found_error(uses: Seq<char>, origin: Seq<char>) -> ErrorView {
    ErrorView {
        code: ErrorCode::DockerActionNotFound,
        title: "Docker Action Not Found"@,
        detail: Some("Could not find the docker action: "@ + uses),
        origin: origin,
    }
}

/// The error of a container probe that got an unrecognized status.
pub open spec fn unexpected_status_error(status: int, origin: Seq<char>) -> ErrorView {
    ErrorView {
        code: ErrorCode::UnexpectedServerResponse,
        title: "Docker Action Not Found"@,
        detail: Some("Unexpected server response: "@ + dec_digits(status)),
        origin: origin,
    }
}

/// The error of a container probe that got no response at all.
pub open spec fn no_response_error(uses: Seq<char>, origin: Seq<char>) -> ErrorView {
    ErrorView {
        code: ErrorCode::UnexpectedServerResponse,
        title: "Docker Action Not Found"@,
        detail: Some("Could not find docker action: "@ + uses),
        origin: origin,
    }
}

/// The error of a path reference that does not exist on disk.
pub open spec fn path_not_found_error(uses: Seq<char>, origin: Seq<char>) -> ErrorView {
    ErrorView {
        code: ErrorCode::ActionNotFound,
        title: "Action Not Found"@,
        detail: Some("The action path does not exist: "@ + uses),
        origin: origin,
    }
}

/// The errors one reference and its probe outcome contribute — none on
/// success, one on failure:
/// - an invalid reference always fails;
/// - an action fails exactly on a completed response with a status other
///   than 200 (no response, or no probe, is success: fail-open);
/// - a container succeeds on 200 and 401, fails as not-found on 404, and
///   fails as an unexpected response on any other status and on a probe
///   that got no response (fail-closed); a skipped probe is success;
/// - a path reference fails exactly when the lookup says it does not exist.
pub open spec fn reference_errors(r: UsesReference, outcome: ProbeOutcome) -> Seq<ErrorView> {
    match r {
        UsesReference::Invalid(v) => seq![invalid_uses_error(v.uses@, v.origin@)],
        UsesReference::Action(a) => match outcome {
            ProbeOutcome::Status(s) => if s != 200 {
                seq![action_not_found_error(a.uses@, a.origin@)]
            } else {
                Seq::empty()
            },
            _ => Seq::empty(),
        },
        UsesReference::Docker(d) => match outcome {
            ProbeOutcome::Status(s) => if s == 200 || s == 401 {
                Seq::empty()
            } else if s == 404 {
                seq![docker_not_found_error(d.uses@, d.origin@)]
            } else {
                seq![unexpected_status_error(s as int, d.origin@)]
            },
            ProbeOutcome::NoResponse => seq![no_response_error(d.uses@, d.origin@)],
            _ => Seq::empty(),
        },
        UsesReference::Path(p) => match outcome {
            ProbeOutcome::Exists(e) => if !e {
                seq![path_not_found_error(p.uses@, p.origin@)]
            } else {
                Seq::empty()
            },
            _ => Seq::empty(),
        },
    }
}

/// Builds an error whose detail is a literal prefix followed by the raw
/// `uses:` string.
fn uses_tail_error(code: ErrorCode, title: &str, prefix: &str, uses: &String, origin: &String) -> (
    e: ValidationError)
    ensures
        e@ == (ErrorView {
            code: code,
            title: title@,
            detail: Some(prefix@ + uses@),
            origin: origin@,
        }),
{
    let mut detail = prefix.to_owned();
    detail.append(uses.as_str());
    ValidationError {
        code,
        title: title.to_owned(),
        detail: Some(detail),
        origin: origin.as_str().to_owned(),
    }
}

/// Builds the error of an invalid reference.
fn invalid_error(uses: &String, origin: &String) -> (e: ValidationError)
    ensures
        e@ == invalid_uses_error(uses@, origin@),
{
    let mut detail = "The `uses` ".to_owned();
    detail.append(uses.as_str());
    detail.append(" is invalid.");
    ValidationError {
        code: ErrorCode::InvalidUses,
        title: "Invalid Uses".to_owned(),
        detail: Some(detail),
        origin: origin.as_str().to_owned(),
    }
}

/// Decides one reference from its probe's outcome: `Ok` on success, the
/// error to report otherwise, exactly as [`reference_errors`] states.
pub fn verify_reference(r: &UsesReference, outcome: ProbeOutcome) -> (res: Result<
    (),
    ValidationError,
>)
    ensures
        match res {
            Ok(_) => reference_errors(*r, outcome) == Seq::<ErrorView>::empty(),
            Err(e) => reference_errors(*r, outcome) == seq![e@],
        },
{
    match r {
        UsesReference::Invalid(v) => Err(invalid_error(&v.uses, &v.origin)),
        UsesReference::Action(a) => match outcome {
            ProbeOutcome::Status(s) => {
                if s != 200 {
                    Err(
                        uses_tail_error(
                            ErrorCode::ActionNotFound,
                            "Action Not Found",
                            "Could not find action: ",
                            &a.uses,
                            &a.origin,
                        ),
                    )
                } else {
                    Ok(())
                }
            },
            _ => Ok(()),
        },
        UsesReference::Docker(d) => match outcome {
            ProbeOutcome::Status(s) => {
                if s == 200 || s == 401 {
                    Ok(())
                } else if s == 404 {
                    Err(
                        uses_tail_error(
                            ErrorCode::DockerActionNotFound,
                            "Docker Action Not Found",
                            "Could not find the docker action: ",
                            &d.uses,
                            &d.origin,
                        ),
                    )
                } else {
                    let mut detail = "Unexpected server response: ".to_owned();
                    detail.append(u64_to_dec(s as u64).as_str());
                    Err(
                        ValidationError {
                            code: ErrorCode::UnexpectedServerResponse,
                            title: "Docker Action Not Found".to_owned(),
                            detail: Some(detail),
                            origin: d.origin.as_str().to_owned(),
                        },
                    )
                }
            },
            ProbeOutcome::NoResponse => Err(
                uses_tail_error(
                    ErrorCode::UnexpectedServerResponse,
                    "Docker Action Not Found",
                    "Could not find docker action: ",
                    &d.uses,
                    &d.origin,
                ),
            ),
            _ => Ok(()),
        },
        UsesReference::Path(p) => match outcome {
            ProbeOutcome::Exists(e) => {
                if !e {
                    Err(
                        uses_tail_error(
                            ErrorCode::ActionNotFound,
                            "Action Not Found",
                            "The action path does not exist: ",
                            &p.uses,
                            &p.origin,
                        ),
                    )
                } else {
                    Ok(())
                }
            },
            _ => Ok(()),
        },
    }
}

/// The errors a list of references and their outcomes contribute, pairwise
/// and in order.
pub open spec fn uses_errors(refs: Seq<UsesReference>, outcomes: Seq<ProbeOutcome>) -> Seq<
    ErrorView,
>
    decreases refs.len(),
{
    if refs.len() == 0 || outcomes.len() == 0 {
        Seq::empty()
    } else {
        reference_errors(refs[0], outcomes[0]) + uses_errors(
            refs.drop_first(),
            outcomes.drop_first(),
        )
    }
}

/// Verifies every classified reference against its probe outcome, appending
/// each failure's error. Every pair is checked even after a failure; the
/// rest of the state is untouched.
#[verifier::loop_isolation(false)]
pub fn apply_uses_outcomes(
    refs: &Vec<UsesReference>,
    outcomes: &Vec<ProbeOutcome>,
    state: &mut ValidationState,
)
    requires
        refs@.len() == outcomes@.len(),
    ensures
        errors_view(final(state).errors@) == errors_view(old(state).errors@) + uses_errors(
            refs@,
            outcomes@,
        ),
        final(state).action_type == old(state).action_type,
        final(state).file_path == old(state).file_path,
{
    let n = refs.len();
    let mut i: usize = 0;
    proof {
        assert(refs@.skip(0) =~= refs@);
        assert(outcomes@.skip(0) =~= outcomes@);
    }
    while i < n
        invariant
            i <= n,
            errors_view(old(state).errors@) + uses_errors(refs@, outcomes@) == errors_view(
                state.errors@,
            ) + uses_errors(refs@.skip(i as int), outcomes@.skip(i as int)),
            state.action_type == old(state).action_type,
            state.file_path == old(state).file_path,
        decreases n - i,
    {
        proof {
            assert(refs@.skip(i as int)[0] == refs@[i as int]);
            assert(refs@.skip(i as int).drop_first() =~= refs@.skip(i as int + 1));
            assert(outcomes@.skip(i as int)[0] == outcomes@[i as int]);
            assert(outcomes@.skip(i as int).drop_first() =~= outcomes@.skip(i as int + 1));
        }
        let ghost pre = state.errors@;
        match verify_reference(&refs[i], outcomes[i]) {
            Ok(_) => {
                proof {
                    assert(errors_view(state.errors@) + reference_errors(
                        refs@[i as int],
                        outcomes@[i as int],
                    ) =~= errors_view(state.errors@));
                }
            },
            Err(e) => {
                state.push(e);
                proof {
                    assert(errors_view(state.errors@) =~= errors_view(pre) + reference_errors(
                        refs@[i as int],
                        outcomes@[i as int],
                    ));
                }
            },
        }
        proof {
            assert(errors_view(old(state).errors@) + uses_errors(refs@, outcomes@) =~= errors_view(
                state.errors@,
            ) + uses_errors(refs@.skip(i as int + 1), outcomes@.skip(i as int + 1)));
        }
        i = i + 1;
    }
    proof {
        assert(refs@.skip(n as int) =~= Seq::<UsesReference>::empty());
        assert(errors_view(state.errors@) + Seq::<ErrorView>::empty() =~= errors_view(
            state.errors@,
        ));
    }
}

} // verus!
