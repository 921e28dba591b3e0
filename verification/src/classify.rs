//! The executable classifier for `uses:` strings, proved against the grammar
//! in [`crate::models`]. Every input yields exactly one variant: the three
//! patterns are tried in precedence order Action, Docker, Path, and a string
//! matching none of them is classified invalid.

use vstd::prelude::*;
use vstd::string::StrSliceExecFns;
use crate::models::Action;
use crate::models::ActionParts;
use crate::models::Docker;
use crate::models::DockerParts;
use crate::models::Invalid;
use crate::models::Path;
use crate::models::UsesReference;
use crate::models::action_parse;
use crate::models::docker_parse;
use crate::models::has_docker_prefix;
use crate::models::image_tag_parse;
use crate::models::is_path_str;
use crate::models::opt_view;
use crate::models::valid_host;
use crate::strutil::find_first;
use crate::strutil::find_last_before;
use crate::strutil::str_contains_char;

verus! {

/// Tries the action pattern; `None` means the string is no action reference.
fn try_action(raw: &str) -> (r: Option<(String, String, Option<String>, String)>)
    ensures
        match r {
            Some(p) => action_parse(raw@) == Some(
                ActionParts { owner: p.0@, repo: p.1@, path: opt_view(p.2), reference: p.3@ },
            ),
            None => action_parse(raw@) is None,
        },
{
    let n = raw.unicode_len();
    let i = match find_first(raw, '/') {
        Some(i) => i,
        None => {
            return None;
        },
    };
    if i == 0 {
        return None;
    }
    let owner = raw.substring_char(0, i).to_owned();
    let t = raw.substring_char(i + 1, n);
    let tn = t.unicode_len();
    let j_opt = find_first(t, '/');
    let k_opt = find_last_before(t, '@', tn);
    match j_opt {
        Some(j) => {
            // a split into subpath and reference needs a `@` after the
            // second `/`; otherwise the reference splits off at the last
            // `@` before it
            let split_at = match k_opt {
                Some(k) => if k > j {
                    Some(k)
                } else {
                    None
                },
                None => None,
            };
            match split_at {
                Some(k) => {
                    if 1 <= j && k + 1 < tn {
                        let repo = t.substring_char(0, j).to_owned();
                        let path = t.substring_char(j + 1, k).to_owned();
                        let reference = t.substring_char(k + 1, tn).to_owned();
                        Some((owner, repo, Some(path), reference))
                    } else {
                        None
                    }
                },
                None => {
                    match find_last_before(t, '@', j) {
                        Some(rr) => {
                            if 1 <= rr {
                                let repo = t.substring_char(0, rr).to_owned();
                                let reference = t.substring_char(rr + 1, tn).to_owned();
                                Some((owner, repo, None, reference))
                            } else {
                                None
                            }
                        },
                        None => None,
                    }
                },
            }
        },
        None => {
            match k_opt {
                Some(k) => {
                    if 1 <= k && k + 1 < tn {
                        let repo = t.substring_char(0, k).to_owned();
                        let reference = t.substring_char(k + 1, tn).to_owned();
                        Some((owner, repo, None, reference))
                    } else {
                        None
                    }
                },
                None => None,
            }
        },
    }
}

/// Whether `s` carries a `.` strictly inside it (neither first nor last
/// character).
#[verifier::loop_isolation(false)]
fn has_interior_dot(s: &str) -> (r: bool)
    ensures
        r == exists|i: int| 1 <= i < s@.len() - 1 && s@[i] == '.',
{
    let n = s.unicode_len();
    if n < 3 {
        return false;
    }
    let mut i: usize = 1;
    while i < n - 1
        invariant
            1 <= i <= n - 1,
            n == s@.len(),
            forall|j: int| 1 <= j < i ==> s@[j] != '.',
        decreases n - i,
    {
        if s.get_char(i) == '.' {
            return true;
        }
        i = i + 1;
    }
    false
}

/// Checks the `docker://` scheme prefix.
#[verifier::loop_isolation(false)]
fn has_docker_prefix_exec(raw: &str) -> (r: bool)
    ensures
        r == has_docker_prefix(raw@),
{
    let n = raw.unicode_len();
    if n < 9 {
        return false;
    }
    let scheme = "docker://";
    proof {
        reveal_strlit("docker://");
    }
    let mut i: usize = 0;
    while i < 9
        invariant
            i <= 9,
            n == raw@.len(),
            n >= 9,
            scheme@ == "docker://"@,
            scheme@.len() == 9,
            forall|j: int| 0 <= j < i ==> raw@[j] == scheme@[j],
        decreases 9 - i,
    {
        if raw.get_char(i) != scheme.get_char(i) {
            proof {
                assert(raw@.subrange(0, 9)[i as int] != scheme@[i as int]);
            }
            return false;
        }
        i = i + 1;
    }
    proof {
        assert(raw@.subrange(0, 9) =~= scheme@);
    }
    true
}

/// Tries the image/tag split on `r`.
fn parse_image_tag(r: &str) -> (res: Option<(String, Option<String>)>)
    ensures
        match res {
            Some(p) => image_tag_parse(r@) == Some((p.0@, opt_view(p.1))),
            None => image_tag_parse(r@) is None,
        },
{
    let n = r.unicode_len();
    match find_first(r, ':') {
        Some(q) => {
            if 1 <= q && q + 1 < n {
                let image = r.substring_char(0, q).to_owned();
                let tag = r.substring_char(q + 1, n).to_owned();
                Some((image, Some(tag)))
            } else {
                None
            }
        },
        None => {
            if n > 0 {
                Some((r.to_owned(), None))
            } else {
                None
            }
        },
    }
}

/// Tries the container pattern; `None` means the string is no container
/// reference.
fn try_docker(raw: &str) -> (r: Option<(Option<String>, String, Option<String>)>)
    ensures
        match r {
            Some(p) => docker_parse(raw@) == Some(
                DockerParts { host: opt_view(p.0), image: p.1@, tag: opt_view(p.2) },
            ),
            None => docker_parse(raw@) is None,
        },
{
    if !has_docker_prefix_exec(raw) {
        return None;
    }
    let n = raw.unicode_len();
    let t = raw.substring_char(9, n);
    let tn = t.unicode_len();
    let host_split = find_first(t, '/');
    match host_split {
        Some(p) => {
            let host = t.substring_char(0, p);
            if !str_contains_char(host, ':') && has_interior_dot(host) {
                proof {
                    assert(valid_host(t@.subrange(0, p as int)));
                }
                let rest = t.substring_char(p + 1, tn);
                match parse_image_tag(rest) {
                    Some(it) => Some((Some(host.to_owned()), it.0, it.1)),
                    None => {
                        match parse_image_tag(t) {
                            Some(it) => Some((None, it.0, it.1)),
                            None => None,
                        }
                    },
                }
            } else {
                proof {
                    assert(!valid_host(t@.subrange(0, p as int)));
                }
                match parse_image_tag(t) {
                    Some(it) => Some((None, it.0, it.1)),
                    None => None,
                }
            }
        },
        None => {
            match parse_image_tag(t) {
                Some(it) => Some((None, it.0, it.1)),
                None => None,
            }
        },
    }
}

/// Checks the local path pattern.
#[verifier::loop_isolation(false)]
fn is_path_ref(raw: &str) -> (r: bool)
    ensures
        r == is_path_str(raw@),
{
    let n = raw.unicode_len();
    if n < 3 {
        return false;
    }
    if raw.get_char(0) != '.' || raw.get_char(1) != '/' {
        return false;
    }
    let rest = raw.substring_char(2, n);
    let rn = rest.unicode_len();
    if rest.get_char(0) == '/' {
        return false;
    }
    if rest.get_char(rn - 1) == '/' {
        return false;
    }
    let mut i: usize = 0;
    while i < rn - 1
        invariant
            i <= rn,
            rn == rest@.len(),
            rn >= 1,
            forall|j: int| 0 <= j < i ==> !(#[trigger] rest@[j] == '/' && rest@[j + 1] == '/'),
        decreases rn - i,
    {
        if rest.get_char(i) == '/' && rest.get_char(i + 1) == '/' {
            return false;
        }
        i = i + 1;
    }
    true
}

/// Classifies one `uses:` string found at `origin` into exactly one
/// reference variant, trying the patterns in the fixed precedence order
/// Action, Docker, Path. Classification is total: every input yields a
/// variant, and a string matching no pattern is classified invalid.
pub fn classify(raw: &str, origin: &str) -> (r: UsesReference)
    ensures
        r.wf_for(raw@, origin@),
{
    let uses = raw.to_owned();
    let origin_owned = origin.to_owned();
    match try_action(raw) {
        Some(p) => UsesReference::Action(
            Action {
                uses,
                origin: origin_owned,
                owner: p.0,
                repo: p.1,
                path: p.2,
                reference: p.3,
            },
        ),
        None => {
            match try_docker(raw) {
                Some(p) => UsesReference::Docker(
                    Docker { uses, origin: origin_owned, url: p.0, image: p.1, tag: p.2 },
                ),
                None => {
                    if is_path_ref(raw) {
                        UsesReference::Path(Path { uses, origin: origin_owned })
                    } else {
                        UsesReference::Invalid(Invalid { uses, origin: origin_owned })
                    }
                },
            }
        },
    }
}

} // verus!
