//! Cloning a project from a URL: the name that the URL gives the project.

use crate::repo::{Repo, RepoView};
use crate::text::{chars_of, find_last_before, has_suffix, matches_at, run_after_last, string_of};
use vstd::prelude::*;

verus! {

/// The last path segment of a URL: what follows its last `/`, or all of it
/// if it holds none.
pub open spec fn last_segment(url: Seq<char>) -> Seq<char> {
    url.skip(url.len() - run_after_last(url, '/'))
}

/// A segment without one trailing `.git`.
pub open spec fn without_git_suffix(segment: Seq<char>) -> Seq<char> {
    if has_suffix(segment, ".git"@) {
        segment.take(segment.len() - 4)
    } else {
        segment
    }
}

/// The project name that a URL gives: its last path segment without a
/// trailing `.git`.
pub open spec fn url_project_name(url: Seq<char>) -> Seq<char> {
    without_git_suffix(last_segment(url))
}

/// The project that a clone produced, if there was a URL and the clone
/// succeeded: a local project named after the URL, in the directory it was
/// cloned into.
pub open spec fn cloned_project(url: Option<Seq<char>>, cloned_into: Option<Seq<char>>) -> Option<
    RepoView,
> {
    match (url, cloned_into) {
        (Some(u), Some(dir)) => Some(
            RepoView { name: url_project_name(u), local: true, project_dir: Some(dir) },
        ),
        _ => None,
    }
}

/// A run behind the last separator never exceeds the sequence.
pub proof fn lemma_run_after_last_bound(s: Seq<char>, c: char)
    ensures
        run_after_last(s, c) <= s.len(),
    decreases s.len(),
{
    if s.len() != 0 && s.last() != c {
        lemma_run_after_last_bound(s.drop_last(), c);
    }
}

/// Derives the name of a project from the URL it is cloned from.
pub fn project_name_from_url(url: &str) -> (name: String)
    ensures
        name@ == url_project_name(url@),
{
    let chars = chars_of(url);
    let suffix = chars_of(".git");
    proof {
        reveal_strlit(".git");
        assert(chars@.take(chars.len() as int) =~= chars@);
        lemma_run_after_last_bound(chars@, '/');
    }
    let start = find_last_before(&chars, chars.len(), '/');
    let ghost segment = last_segment(url@);
    assert(segment =~= chars@.subrange(start as int, chars.len() as int));
    let len = chars.len() - start;
    if len >= 4 && matches_at(&chars, &suffix, chars.len() - 4) {
        proof {
            assert(segment.skip(segment.len() - 4) =~= chars@.subrange(
                chars.len() - 4,
                chars.len() as int,
            ));
            assert(segment.take(segment.len() - 4) =~= chars@.subrange(
                start as int,
                chars.len() - 4,
            ));
        }
        string_of(&chars, start, chars.len() - 4)
    } else {
        proof {
            if len >= 4 {
                assert(segment.skip(segment.len() - 4) =~= chars@.subrange(
                    chars.len() - 4,
                    chars.len() as int,
                ));
            }
        }
        string_of(&chars, start, chars.len())
    }
}

/// The project that cloning a URL produced.
///
/// `url` is the URL that was asked for, if any; `cloned_into` is the
/// directory that the clone went into, or `None` if the clone failed.
pub fn git_clone(url: Option<&str>, cloned_into: Option<&str>) -> (repo: Option<Repo>)
    ensures
        repo is Some == (url is Some && cloned_into is Some),
        repo is Some ==> repo->0@ == (RepoView {
            name: url_project_name(url->0@),
            local: true,
            project_dir: Some(cloned_into->0@),
        }),
{
    match (url, cloned_into) {
        (Some(u), Some(dir)) => {
            let name = project_name_from_url(u);
            Some(Repo::new(name.as_str(), true, Some(dir)))
        },
        _ => None,
    }
}

} // verus!
