//! The four kinds of step `uses:` reference and the grammar that tells them
//! apart.
//!
//! A `uses:` string is matched against three patterns in fixed precedence
//! order — repository action, then container image, then local path — and
//! the first match wins; a string matching none of them is invalid. The
//! grammar of each pattern is written out here as specification functions
//! over character sequences, and [`classify`] is proved to follow them.
//!
//! Greedy matching, spelled out:
//! - **Action** `<owner>/<repo>[/<subpath>]@<ref>`: `owner` is everything up
//!   to the first `/`. If another `/` follows and a `@` occurs after it,
//!   `repo` ends at that second `/`, the subpath ends at the last `@` of the
//!   string, and the reference is what follows it. Otherwise `repo` ends at
//!   the last `@` before the second `/` (or anywhere, if there is no second
//!   `/`) and the reference is the whole remainder. Owner, repo and
//!   reference must be non-empty; the subpath may be empty.
//! - **Docker** `docker://[<host>/]<image>[:<tag>]`: a host is recognized
//!   only when the text up to the first `/` has a `.` strictly inside it and
//!   no `:`; otherwise that text belongs to the image. The image is
//!   everything up to the first `:` and must be non-empty; a tag after the
//!   `:` must be non-empty. A recognized host whose remainder fails to parse
//!   is re-read as part of the image.
//! - **Path** `./<segment>(/<segment>)*`: one or more non-empty segments.

use vstd::prelude::*;
use crate::strutil::contains_char;
use crate::strutil::first_ix;
use crate::strutil::last_ix_before;

verus! {

/// The pieces of a repository action reference, as character sequences.
#[verifier::ext_equal]
pub ghost struct ActionParts {
    pub owner: Seq<char>,
    pub repo: Seq<char>,
    pub path: Option<Seq<char>>,
    pub reference: Seq<char>,
}

/// The pieces of a container image reference, as character sequences.
#[verifier::ext_equal]
pub ghost struct DockerParts {
    pub host: Option<Seq<char>>,
    pub image: Seq<char>,
    pub tag: Option<Seq<char>>,
}

/// Parses the part of an action reference after the first `/`: repo, an
/// optional subpath, and the mandatory non-empty reference.
pub open spec fn action_tail_parse(t: Seq<char>) -> Option<
    (Seq<char>, Option<Seq<char>>, Seq<char>),
> {
    let last_at = last_ix_before(t, '@', t.len() as int);
    match first_ix(t, '/') {
        Some(j) => if last_at is Some && last_at->0 > j {
            // repo / subpath @ reference
            let k = last_at->0;
            if 1 <= j && k + 1 < t.len() {
                Some(
                    (t.subrange(0, j), Some(t.subrange(j + 1, k)), t.subrange(
                        k + 1,
                        t.len() as int,
                    )),
                )
            } else {
                None
            }
        } else {
            // repo @ reference, the reference keeping everything after the
            // last `@` that precedes the second `/`
            match last_ix_before(t, '@', j) {
                Some(r) => if 1 <= r {
                    Some((t.subrange(0, r), None, t.subrange(r + 1, t.len() as int)))
                } else {
                    None
                },
                None => None,
            }
        },
        None => match last_at {
            Some(r) => if 1 <= r && r + 1 < t.len() {
                Some((t.subrange(0, r), None, t.subrange(r + 1, t.len() as int)))
            } else {
                None
            },
            None => None,
        },
    }
}

/// Parses `<owner>/<repo>[/<subpath>]@<ref>` against the whole string.
pub open spec fn action_parse(s: Seq<char>) -> Option<ActionParts> {
    match first_ix(s, '/') {
        Some(i) => if 1 <= i {
            match action_tail_parse(s.subrange(i + 1, s.len() as int)) {
                Some(tail) => Some(
                    ActionParts {
                        owner: s.subrange(0, i),
                        repo: tail.0,
                        path: tail.1,
                        reference: tail.2,
                    },
                ),
                None => None,
            }
        } else {
            None
        },
        None => None,
    }
}

/// Whether `s` starts with the scheme that marks a container reference.
pub open spec fn has_docker_prefix(s: Seq<char>) -> bool {
    s.len() >= 9 && s.subrange(0, 9) == "docker://"@
}

/// Whether the text before the first `/` is read as a registry host: it must
/// carry a `.` strictly inside it and no `:`.
pub open spec fn valid_host(h: Seq<char>) -> bool {
    !contains_char(h, ':') && exists|i: int| 1 <= i < h.len() - 1 && h[i] == '.'
}

/// Parses `<image>[:<tag>]`: the image is everything up to the first `:`,
/// non-empty; a tag, when the `:` is present, is non-empty too.
pub open spec fn image_tag_parse(r: Seq<char>) -> Option<(Seq<char>, Option<Seq<char>>)> {
    match first_ix(r, ':') {
        Some(q) => if 1 <= q && q + 1 < r.len() {
            Some((r.subrange(0, q), Some(r.subrange(q + 1, r.len() as int))))
        } else {
            None
        },
        None => if r.len() > 0 {
            Some((r, None))
        } else {
            None
        },
    }
}

/// Parses what follows `docker://`: an optional host, the image, an optional
/// tag. A recognized host whose remainder fails to parse is re-read as part
/// of the image.
pub open spec fn docker_tail_parse(t: Seq<char>) -> Option<DockerParts> {
    let no_host = match image_tag_parse(t) {
        Some(it) => Some(DockerParts { host: None, image: it.0, tag: it.1 }),
        None => None,
    };
    match first_ix(t, '/') {
        Some(p) => if valid_host(t.subrange(0, p)) {
            match image_tag_parse(t.subrange(p + 1, t.len() as int)) {
                Some(it) => Some(
                    DockerParts { host: Some(t.subrange(0, p)), image: it.0, tag: it.1 },
                ),
                None => no_host,
            }
        } else {
            no_host
        },
        None => no_host,
    }
}

/// Parses `docker://[<host>/]<image>[:<tag>]` against the whole string.
pub open spec fn docker_parse(s: Seq<char>) -> Option<DockerParts> {
    if has_docker_prefix(s) {
        docker_tail_parse(s.subrange(9, s.len() as int))
    } else {
        None
    }
}

/// Whether `r` is one or more non-empty segments separated by `/`.
pub open spec fn path_segments_ok(r: Seq<char>) -> bool {
    &&& r.len() > 0
    &&& r[0] != '/'
    &&& r[r.len() - 1] != '/'
    &&& forall|i: int| 0 <= i < r.len() - 1 ==> !(#[trigger] r[i] == '/' && r[i + 1] == '/')
}

/// Whether `s` is a local path reference: `./` followed by non-empty
/// segments.
pub open spec fn is_path_str(s: Seq<char>) -> bool {
    s.len() >= 3 && s[0] == '.' && s[1] == '/' && path_segments_ok(s.subrange(2, s.len() as int))
}

/// A reference to a versioned action in a repository.
#[derive(Debug)]
pub struct Action {
    pub uses: String,
    pub origin: String,
    pub owner: String,
    pub repo: String,
    pub path: Option<String>,
    pub reference: String,
}

/// A container image reference. `url` is the registry host when the
/// reference names one; its absence implies the default registry.
#[derive(Debug)]
pub struct Docker {
    pub uses: String,
    pub origin: String,
    pub image: String,
    pub url: Option<String>,
    pub tag: Option<String>,
}

/// A local relative path reference, prefixed `./`.
#[derive(Debug)]
pub struct Path {
    pub uses: String,
    pub origin: String,
}

/// A `uses:` string matching none of the known patterns; it always fails
/// validation.
#[derive(Debug)]
pub struct Invalid {
    pub uses: String,
    pub origin: String,
}

/// The result of classifying one `uses:` string: exactly one of the four
/// variants, decided by the fixed precedence order.
#[derive(Debug)]
pub enum UsesReference {
    Action(Action),
    Docker(Docker),
    Path(Path),
    Invalid(Invalid),
}

/// The view of an optional string.
pub open spec fn opt_view(o: Option<String>) -> Option<Seq<char>> {
    match o {
        Some(s) => Some(s@),
        None => None,
    }
}

impl UsesReference {
    /// The view of the raw `uses:` string.
    pub open spec fn spec_uses(self) -> Seq<char> {
        match self {
            UsesReference::Action(a) => a.uses@,
            UsesReference::Docker(d) => d.uses@,
            UsesReference::Path(p) => p.uses@,
            UsesReference::Invalid(v) => v.uses@,
        }
    }

    /// The view of the origin locator.
    pub open spec fn spec_origin(self) -> Seq<char> {
        match self {
            UsesReference::Action(a) => a.origin@,
            UsesReference::Docker(d) => d.origin@,
            UsesReference::Path(p) => p.origin@,
            UsesReference::Invalid(v) => v.origin@,
        }
    }

    /// What it means for this reference to be the classification of `raw`
    /// found at `origin`: the variant follows the precedence order Action,
    /// Docker, Path, the carried pieces are the ones the grammar parses out,
    /// and the raw string and origin are carried unchanged.
    pub open spec fn wf_for(self, raw: Seq<char>, origin: Seq<char>) -> bool {
        &&& self.spec_uses() == raw
        &&& self.spec_origin() == origin
        &&& match self {
            UsesReference::Action(a) => action_parse(raw) == Some(
                ActionParts {
                    owner: a.owner@,
                    repo: a.repo@,
                    path: opt_view(a.path),
                    reference: a.reference@,
                },
            ),
            UsesReference::Docker(d) => {
                &&& action_parse(raw) is None
                &&& docker_parse(raw) == Some(
                    DockerParts { host: opt_view(d.url), image: d.image@, tag: opt_view(d.tag) },
                )
            },
            UsesReference::Path(_) => {
                &&& action_parse(raw) is None
                &&& docker_parse(raw) is None
                &&& is_path_str(raw)
            },
            UsesReference::Invalid(_) => {
                &&& action_parse(raw) is None
                &&& docker_parse(raw) is None
                &&& !is_path_str(raw)
            },
        }
    }
}

} // verus!
