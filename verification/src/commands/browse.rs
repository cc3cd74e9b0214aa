//! Which page of the web interface a `browse` command opens.

use vstd::prelude::*;
use vstd::string::*;
use crate::api::codec::opt_str;
use crate::api::config::{account_of, Config};
use crate::api::client::opt_text;
use crate::git_context::{opt_context, Context, GitContext};
use crate::text::{i64_of, parse_i64};
use crate::ResolveError;

verus! {

/// The page for `target` in `project`: the ticket of that number where
/// `target` writes an integer, the repository of that name where it does
/// not, the project's own page where there is no target.
pub open spec fn browse_url(account: Seq<char>, project: Seq<char>, target: Option<Seq<char>>) -> Seq<
    char,
> {
    let page = "https://"@ + account + ".codebasehq.com/projects/"@ + project;
    match target {
        Some(t) => if i64_of(t) is Some {
            page + "/tickets/"@ + t
        } else {
            page + "/repositories/"@ + t
        },
        None => page,
    }
}

/// The URL of the page for `target` in `project` of `account`.
pub fn build_browse_url(account: &str, project: &str, target: Option<&str>) -> (url: String)
    ensures
        url@ == browse_url(account@, project@, opt_str(target)),
{
    let mut url = String::from_str("https://");
    url.append(account);
    url.append(".codebasehq.com/projects/");
    url.append(project);
    match target {
        Some(t) => {
            if parse_i64(t).is_some() {
                url.append("/tickets/");
            } else {
                url.append("/repositories/");
            }
            url.append(t);
        },
        None => {},
    }
    url
}

/// The project that a command is about: the one given, else the one of
/// the working copy.
pub open spec fn chosen_project(project: Option<Seq<char>>, context: Option<Context>) -> Option<
    Seq<char>,
> {
    match project {
        Some(p) => Some(p),
        None => match context {
            Some(c) => Some(c.project),
            None => None,
        },
    }
}

/// The URL that `browse` opens for the account of `config`: the page of
/// `target` in the project given, or in that of the working copy's
/// `context`; an error where neither names a project.
pub fn execute(
    config: &Config,
    project: Option<String>,
    target: Option<String>,
    context: Option<GitContext>,
) -> (r: Result<String, ResolveError>)
    ensures
        match chosen_project(opt_text(project), opt_context(context)) {
            Some(p) => r matches Ok(url) && url@ == browse_url(
                account_of(config.api_username@),
                p,
                opt_text(target),
            ),
            None => r == Err::<String, ResolveError>(ResolveError::NoProjectToBrowse),
        },
{
    let account = config.account();
    let project = match project {
        Some(p) => p,
        None => match context {
            Some(c) => c.project,
            None => return Err(ResolveError::NoProjectToBrowse),
        },
    };
    let url = match &target {
        Some(t) => build_browse_url(account, project.as_str(), Some(t.as_str())),
        None => build_browse_url(account, project.as_str(), None),
    };
    Ok(url)
}

} // verus!
