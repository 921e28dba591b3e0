//! Laws of the classifier and the validation pass, stated and proved once
//! for all inputs: which variant each plain reference form classifies to,
//! that the fixed precedence order decides every overlap, and that a
//! validation pass is a function of the document and the supplied outcomes.

use vstd::prelude::*;
use crate::document::DocNode;
use crate::globs::GlobOutcome;
use crate::models::ActionParts;
use crate::models::DockerParts;
use crate::models::UsesReference;
use crate::models::action_parse;
use crate::models::action_tail_parse;
use crate::models::docker_parse;
use crate::models::has_docker_prefix;
use crate::models::image_tag_parse;
use crate::models::is_path_str;
use crate::remote::ProbeOutcome;
use crate::remote::reference_errors;
use crate::state::ErrorView;
use crate::strutil::contains_char;
use crate::strutil::first_ix;
use crate::strutil::last_ix_before;
use crate::strutil::lemma_first_ix_from;
use crate::strutil::lemma_first_ix_from_complete;
use crate::strutil::lemma_first_ix_from_none;
use crate::strutil::lemma_last_ix_before_complete;
use crate::strutil::lemma_last_ix_before_none;
use crate::workflow_errors;

verus! {

/// Classification follows the fixed precedence order, whatever else the
/// string may match: a string the action grammar parses is classified as an
/// action — in particular one that also has the shape of a local path — a
/// remaining string the container grammar parses is a container reference, a
/// remaining path-shaped string is a path, and what is left is invalid.
pub proof fn lemma_classification_precedence(r: UsesReference, raw: Seq<char>, origin: Seq<char>)
    requires
        r.wf_for(raw, origin),
    ensures
        action_parse(raw) is Some ==> r is Action,
        action_parse(raw) is None && docker_parse(raw) is Some ==> r is Docker,
        action_parse(raw) is None && docker_parse(raw) is None && is_path_str(raw) ==> r is Path,
        action_parse(raw) is None && docker_parse(raw) is None && !is_path_str(raw)
            ==> r is Invalid,
{
}

/// A plain `owner/repo@ref` string parses as an action with exactly those
/// pieces and no subpath. The pieces must be plain for the form to be
/// unambiguous: owner and repo carry no `/`, repo and the reference carry no
/// `@` (a later `@` would move the split).
pub proof fn lemma_action_form(owner: Seq<char>, repo: Seq<char>, reference: Seq<char>)
    requires
        owner.len() > 0,
        !contains_char(owner, '/'),
        repo.len() > 0,
        !contains_char(repo, '/'),
        !contains_char(repo, '@'),
        reference.len() > 0,
        !contains_char(reference, '@'),
    ensures
        action_parse(owner + seq!['/'] + repo + seq!['@'] + reference) == Some(
            ActionParts { owner: owner, repo: repo, path: None, reference: reference },
        ),
{
    let s = owner + seq!['/'] + repo + seq!['@'] + reference;
    let ol = owner.len() as int;
    let rl = repo.len() as int;
    assert(s[ol] == '/');
    assert forall|j: int| 0 <= j < ol implies s[j] != '/' by {
        assert(s[j] == owner[j]);
    }
    lemma_first_ix_from_complete(s, '/', 0, ol);
    assert(s.subrange(0, ol) =~= owner);
    let t = s.subrange(ol + 1, s.len() as int);
    assert(t =~= repo + seq!['@'] + reference);
    // the only `@` of the tail is the separator at `rl`
    assert(t[rl] == '@');
    assert forall|j: int| rl < j < t.len() implies t[j] != '@' by {
        assert(t[j] == reference[j - rl - 1]);
    }
    assert forall|j: int| 0 <= j < rl implies t[j] != '@' by {
        assert(t[j] == repo[j]);
    }
    lemma_last_ix_before_complete(t, '@', t.len() as int, rl);
    assert(t.subrange(0, rl) =~= repo);
    assert(t.subrange(rl + 1, t.len() as int) =~= reference);
    lemma_first_ix_from(t, '/', 0);
    match first_ix(t, '/') {
        None => {
            assert(action_tail_parse(t) == Some(
                (repo, None::<Seq<char>>, reference),
            ));
        },
        Some(j0) => {
            // a `/` can stand only inside the reference, past the `@`
            assert(t[j0] == '/');
            assert(j0 > rl) by {
                if j0 < rl {
                    assert(t[j0] == repo[j0]);
                } else if j0 == rl {
                    assert(t[j0] == '@');
                }
            }
            lemma_last_ix_before_complete(t, '@', j0, rl);
            assert(action_tail_parse(t) == Some(
                (repo, None::<Seq<char>>, reference),
            ));
        },
    }
    assert(action_parse(s) == Some(
        ActionParts { owner: owner, repo: repo, path: None, reference: reference },
    ));
}

/// A path-shaped string that carries no `@` matches neither the action nor
/// the container grammar, so it is classified as a path. (With an `@` the
/// action grammar could claim it: precedence, not shape, then decides.)
pub proof fn lemma_path_form(s: Seq<char>)
    requires
        is_path_str(s),
        !contains_char(s, '@'),
    ensures
        action_parse(s) is None,
        docker_parse(s) is None,
{
    // no `docker://` prefix: the string starts with `.`
    proof_docker_prefix_differs(s);
    // the action grammar needs an `@` somewhere after the first `/`
    lemma_first_ix_from(s, '/', 0);
    match first_ix(s, '/') {
        None => {},
        Some(i) => {
            if i >= 1 {
                let t = s.subrange(i + 1, s.len() as int);
                assert forall|j: int| 0 <= j < t.len() implies t[j] != '@' by {
                    assert(t[j] == s[i + 1 + j]);
                }
                lemma_last_ix_before_none(t, '@', t.len() as int);
                lemma_first_ix_from(t, '/', 0);
                match first_ix(t, '/') {
                    None => {},
                    Some(j0) => {
                        lemma_last_ix_before_none(t, '@', j0);
                    },
                }
            }
        },
    }
}

/// The string starting with `.` cannot carry the `docker://` prefix.
proof fn proof_docker_prefix_differs(s: Seq<char>)
    requires
        s.len() > 0,
        s[0] == '.',
    ensures
        !has_docker_prefix(s),
{
    reveal_strlit("docker://");
    if s.len() >= 9 {
        assert(s.subrange(0, 9)[0] == '.');
        assert("docker://"@[0] == 'd');
    }
}

/// A plain `docker://image:tag` string parses as a container reference with
/// no registry host and exactly that image and tag, and does not parse as an
/// action. The pieces must be plain: no `/`, `:` or `@` in either.
pub proof fn lemma_docker_form(image: Seq<char>, tag: Seq<char>)
    requires
        image.len() > 0,
        !contains_char(image, '/'),
        !contains_char(image, ':'),
        !contains_char(image, '@'),
        tag.len() > 0,
        !contains_char(tag, '/'),
        !contains_char(tag, ':'),
        !contains_char(tag, '@'),
    ensures
        action_parse("docker://"@ + image + seq![':'] + tag) is None,
        docker_parse("docker://"@ + image + seq![':'] + tag) == Some(
            DockerParts { host: None, image: image, tag: Some(tag) },
        ),
{
    reveal_strlit("docker://");
    let s = "docker://"@ + image + seq![':'] + tag;
    let il = image.len() as int;
    assert(s.subrange(0, 9) =~= "docker://"@);
    let t = s.subrange(9, s.len() as int);
    assert(t =~= image + seq![':'] + tag);

    // the container parse: no `/` after the prefix, one `:` at the image's end
    assert forall|j: int| 0 <= j < t.len() implies t[j] != '/' by {
        if j < il {
            assert(t[j] == image[j]);
        } else if j > il {
            assert(t[j] == tag[j - il - 1]);
        }
    }
    lemma_first_ix_from_none(t, '/', 0);
    assert(t[il] == ':');
    assert forall|j: int| 0 <= j < il implies t[j] != ':' by {
        assert(t[j] == image[j]);
    }
    lemma_first_ix_from_complete(t, ':', 0, il);
    assert(t.subrange(0, il) =~= image);
    assert(t.subrange(il + 1, t.len() as int) =~= tag);
    assert(image_tag_parse(t) == Some((image, Some(tag))));

    // the action parse fails: the first `/` is inside `docker://` and no `@`
    // stands anywhere
    assert(s[7] == '/');
    assert forall|j: int| 0 <= j < 7 implies s[j] != '/' by {
        assert(s[j] == "docker://"@[j]);
    }
    lemma_first_ix_from_complete(s, '/', 0, 7);
    let ta = s.subrange(8, s.len() as int);
    assert forall|j: int| 0 <= j < ta.len() implies ta[j] != '@' by {
        assert(ta[j] == s[8 + j]);
        if 8 + j == 8 {
            assert(s[8] == '/');
        } else if 8 + j <= 8 + il {
            assert(s[8 + j] == image[j - 1]);
        } else if 8 + j == 9 + il {
            assert(s[8 + j] == ':');
        } else {
            assert(s[8 + j] == tag[j - il - 2]);
        }
    }
    lemma_last_ix_before_none(ta, '@', ta.len() as int);
    lemma_first_ix_from(ta, '/', 0);
    match first_ix(ta, '/') {
        None => {},
        Some(j0) => {
            lemma_last_ix_before_none(ta, '@', j0);
        },
    }
}

/// A path reference verifies successfully exactly when the filesystem
/// lookup found it: existence reported true gives no error, existence
/// reported false gives exactly one.
pub proof fn lemma_path_verification(r: UsesReference, found: bool)
    requires
        r is Path,
    ensures
        (reference_errors(r, ProbeOutcome::Exists(found)) == Seq::<ErrorView>::empty())
            <==> found,
{
    if !found {
        assert(reference_errors(r, ProbeOutcome::Exists(found)).len() == 1);
    }
}

/// With remote verification disabled every probe is skipped, and then every
/// variant except an invalid reference trivially succeeds, while an invalid
/// reference still fails.
pub proof fn lemma_format_only_verification(r: UsesReference)
    ensures
        !(r is Invalid) ==> reference_errors(r, ProbeOutcome::Skipped) == Seq::<
            ErrorView,
        >::empty(),
        r is Invalid ==> reference_errors(r, ProbeOutcome::Skipped).len() == 1,
{
}

/// One validation pass is a function of the document and the outcomes of the
/// filesystem and network work it asked for: two passes over the same
/// document with the same outcomes report identical error sequences, in the
/// same order.
pub proof fn lemma_validation_deterministic(
    doc: DocNode,
    glob_outcomes: Seq<GlobOutcome>,
    probe_outcomes: Seq<ProbeOutcome>,
    errors_first: Seq<ErrorView>,
    errors_second: Seq<ErrorView>,
)
    requires
        errors_first == workflow_errors(doc, glob_outcomes, probe_outcomes),
        errors_second == workflow_errors(doc, glob_outcomes, probe_outcomes),
    ensures
        errors_first == errors_second,
{
}

} // verus!
