//! Which project and repository a working copy belongs to, read off the
//! URL of its `origin` remote.
//!
//! Two forms of URL are known:
//! `git@codebasehq.com:account/project/repo.git` over SSH and
//! `https://account.codebasehq.com/project/repo.git` over HTTPS.

use vstd::prelude::*;
use vstd::string::*;
use crate::api::client::opt_text;
use crate::api::codec::opt_str;
use crate::text::{
    chars_of, contains, end_without_suffix, find, find_from, split, split_range, text_eq,
    without_suffix,
};

verus! {

/// The project, and the repository where there is one, that a working copy
/// belongs to.
#[derive(Debug, Clone, PartialEq, Eq)]
pub struct GitContext {
    pub project: String,
    pub repo: Option<String>,
}

/// A context over plain sequences of characters.
pub struct Context {
    pub project: Seq<char>,
    pub repo: Option<Seq<char>>,
}

impl View for GitContext {
    type V = Context;

    open spec fn view(&self) -> Context {
        Context { project: self.project@, repo: opt_text(self.repo) }
    }
}

/// The view of an optional context.
pub open spec fn opt_context(c: Option<GitContext>) -> Option<Context> {
    match c {
        Some(x) => Some(x@),
        None => None,
    }
}

/// What stands in `s` after the first `pattern` and before the next one,
/// or up to the end where there is no next.
pub open spec fn after_first(s: Seq<char>, pattern: Seq<char>) -> Seq<char> {
    match find_from(s, pattern, 0) {
        Some(at) => {
            let start = at + pattern.len();
            match find_from(s, pattern, start) {
                Some(next) => s.subrange(start, next),
                None => s.subrange(start, s.len() as int),
            }
        },
        None => Seq::empty(),
    }
}

/// The context that an SSH remote names: what follows the last colon,
/// without a closing `.git`, is `account/project/repo` or
/// `account/project`.
pub open spec fn ssh_context(url: Seq<char>) -> Option<Context> {
    let parts = split(without_suffix(split(url, ':').last(), ".git"@), '/');
    if parts.len() == 3 {
        Some(Context { project: parts[1], repo: Some(parts[2]) })
    } else if parts.len() == 2 {
        Some(Context { project: parts[1], repo: None })
    } else {
        None
    }
}

/// The context that an HTTPS remote names: what follows the host, without
/// a closing `.git`, is `project/repo` or a project alone.
pub open spec fn https_context(url: Seq<char>) -> Option<Context> {
    let parts = split(without_suffix(after_first(url, "codebasehq.com/"@), ".git"@), '/');
    if parts.len() == 2 {
        Some(Context { project: parts[0], repo: Some(parts[1]) })
    } else if parts.len() == 1 && parts[0].len() > 0 {
        Some(Context { project: parts[0], repo: None })
    } else {
        None
    }
}

/// The context that the remote URL `url` names; `None` for a URL of
/// another host or another shape. A URL that holds `codebasehq.com:` is
/// read as an SSH remote, else one that holds `codebasehq.com/` as an
/// HTTPS remote.
pub open spec fn remote_context(url: Seq<char>) -> Option<Context> {
    if contains(url, "codebasehq.com:"@) {
        ssh_context(url)
    } else if contains(url, "codebasehq.com/"@) {
        https_context(url)
    } else {
        None
    }
}

/// Reads project and repository off the remote URL `url`.
pub fn parse_codebase_remote(url: &str) -> (r: Option<GitContext>)
    ensures
        opt_context(r) == remote_context(url@),
{
    let u = chars_of(url);
    let n = u.len();
    let git = chars_of(".git");
    let ssh_host = chars_of("codebasehq.com:");
    let https_host = chars_of("codebasehq.com/");
    assert(u@.subrange(0, n as int) =~= u@);
    if find(&u, &ssh_host, 0).is_some() {
        let pieces = split_range(&u, 0, n, ':');
        let path = chars_of(pieces[pieces.len() - 1].as_str());
        assert(path@.subrange(0, path.len() as int) =~= path@);
        let end = end_without_suffix(&path, 0, path.len(), &git);
        let parts = split_range(&path, 0, end, '/');
        if parts.len() == 3 {
            Some(GitContext { project: parts[1].clone(), repo: Some(parts[2].clone()) })
        } else if parts.len() == 2 {
            Some(GitContext { project: parts[1].clone(), repo: None })
        } else {
            None
        }
    } else {
        match find(&u, &https_host, 0) {
            None => None,
            Some(at) => {
                let start = at + https_host.len();
                let stop = match find(&u, &https_host, start) {
                    Some(next) => next,
                    None => n,
                };
                let end = end_without_suffix(&u, start, stop, &git);
                let parts = split_range(&u, start, end, '/');
                if parts.len() == 2 {
                    Some(GitContext { project: parts[0].clone(), repo: Some(parts[1].clone()) })
                } else if parts.len() == 1 && !parts[0].as_str().is_empty() {
                    Some(GitContext { project: parts[0].clone(), repo: None })
                } else {
                    None
                }
            },
        }
    }
}

/// The context of the working copy whose `origin` remote is `remote_url`;
/// `None` where there is no such remote.
pub fn detect(remote_url: Option<&str>) -> (r: Option<GitContext>)
    ensures
        opt_context(r) == match remote_url {
            Some(url) => remote_context(url@),
            None => None,
        },
{
    match remote_url {
        Some(url) => parse_codebase_remote(url),
        None => None,
    }
}

/// What a `git` command that prints one value yields: the value where the
/// command succeeded and printed something, `None` otherwise.
pub open spec fn printed_value(printed: Option<Seq<char>>) -> Option<Seq<char>> {
    match printed {
        Some(t) => if t.len() == 0 {
            None
        } else {
            Some(t)
        },
        None => None,
    }
}

fn value_of(printed: Option<&str>) -> (r: Option<String>)
    ensures
        opt_text(r) == printed_value(opt_str(printed)),
{
    match printed {
        Some(t) => if t.is_empty() {
            None
        } else {
            Some(String::from_str(t))
        },
        None => None,
    }
}

/// The URL of a remote, from what `git config --get remote.<name>.url`
/// printed, trimmed; `printed` is `None` where the command failed.
pub fn get_remote_url(printed: Option<&str>) -> (r: Option<String>)
    ensures
        opt_text(r) == printed_value(opt_str(printed)),
{
    value_of(printed)
}

/// The branch that is checked out, from what
/// `git rev-parse --abbrev-ref HEAD` printed, trimmed; `printed` is `None`
/// where the command failed. `HEAD` stands for no branch.
pub fn current_branch(printed: Option<&str>) -> (r: Option<String>)
    ensures
        opt_text(r) == match printed_value(opt_str(printed)) {
            Some(t) => if t == "HEAD"@ {
                None
            } else {
                Some(t)
            },
            None => None,
        },
{
    match value_of(printed) {
        Some(branch) => if text_eq(branch.as_str(), "HEAD") {
            None
        } else {
            Some(branch)
        },
        None => None,
    }
}

/// The root directory of the working copy, from what
/// `git rev-parse --show-toplevel` printed, trimmed; `printed` is `None`
/// where the command failed.
pub fn repo_root(printed: Option<&str>) -> (r: Option<String>)
    ensures
        opt_text(r) == printed_value(opt_str(printed)),
{
    value_of(printed)
}

} // verus!
