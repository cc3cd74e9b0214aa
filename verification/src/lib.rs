//! The core of `cb`, a command-line client for the CodebaseHQ API, which
//! speaks XML over HTTP.
//!
//! The library decides and computes; it never sends, sleeps, prints or
//! reads a file. A caller takes an [`api::operation::Operation`] from one
//! of the modules under [`api`], sends what
//! [`api::client::CodebaseClient::prepare`] makes of its request, asks
//! [`api::client::RetryPolicy::judge`] about each status that comes back,
//! hands the last response to [`api::client::classify`] and reads the body
//! of a success with [`api::operation::Operation::read`].
//!
//! * [`api::client`]: requests, credentials, the retry policy and the
//!   classification of responses.
//! * [`api::codec`]: tolerant decoders for optional integers, booleans and
//!   numbers, and the decode error.
//! * [`api::xml`]: the events of a document and the tree of elements that
//!   they spell.
//! * [`api::models`]: the records, each read from an element.
//! * [`api::operation`]: a request paired with the type of its answer.
//! * [`api::body`]: request bodies, built from the fields supplied.
//! * [`api::projects`], [`api::repositories`], [`api::tickets`],
//!   [`api::milestones`], [`api::activity`]: the operations.
//! * [`api::config`], [`git_context`], [`commands`], [`output`]: what the
//!   commands read off credentials, remote URLs and words to be coloured.
//! * [`text`]: decimal notation, trimming and searching, on characters.
//!
//! # What is taken on trust
//!
//! Every function is verified against its contract, with these exceptions,
//! whose contracts state what another crate does:
//!
//! * the XML reader of `quick_xml`, in [`api::xml`]: the events that it
//!   reports for a text are named, not defined, and so is the text that it
//!   makes of entity references;
//! * the `colored` crate, in [`output`]: a coloured text is taken to be
//!   the text, as it is or between the escape sequences of its style;
//! * `str::to_lowercase` in [`output`] and `String::push` in [`text`], of
//!   the standard library.

pub mod api;
pub mod commands;
pub mod git_context;
pub mod output;
pub mod text;

use vstd::prelude::*;
use vstd::string::*;
use crate::api::client::{opt_text, CodebaseClient};
use crate::api::config::{account_of, Config};
use crate::commands::browse::chosen_project;
use crate::git_context::{opt_context, Context, GitContext};

verus! {

/// Why a command does not know what it is about.
#[derive(Debug, Clone, Copy, PartialEq, Eq, Structural)]
pub enum ResolveError {
    /// No project was given and the working copy names none.
    NoProject,
    /// The same, for the `browse` command.
    NoProjectToBrowse,
    /// No repository was given and the working copy names none.
    NoRepository,
}

impl ResolveError {
    /// What `message` returns.
    pub open spec fn message_text(self) -> Seq<char> {
        match self {
            ResolveError::NoProject => "No project specified and could not detect from git remote.\nEither provide the project argument or run from a git repo with a CodebaseHQ remote."@,
            ResolveError::NoProjectToBrowse => "No project specified and could not detect from git remote.\nUsage: cb browse <project> [target]"@,
            ResolveError::NoRepository => "No repository specified and could not detect from git remote.\nPlease provide the repository argument."@,
        }
    }

    /// The lines shown to the user.
    pub fn message(&self) -> (m: String)
        ensures
            m@ == self.message_text(),
    {
        match self {
            ResolveError::NoProject => String::from_str(
                "No project specified and could not detect from git remote.\nEither provide the project argument or run from a git repo with a CodebaseHQ remote.",
            ),
            ResolveError::NoProjectToBrowse => String::from_str(
                "No project specified and could not detect from git remote.\nUsage: cb browse <project> [target]",
            ),
            ResolveError::NoRepository => String::from_str(
                "No repository specified and could not detect from git remote.\nPlease provide the repository argument.",
            ),
        }
    }
}

/// The client for the credentials `config`: its account, the full API
/// user name to authenticate with, and the key.
pub fn load_client(config: Config) -> (c: CodebaseClient)
    ensures
        c.base_url@ == "https://api3.codebasehq.com"@,
        c.account@ == account_of(config.api_username@),
        c.username@ == config.api_username@,
        c.api_key == config.api_key,
{
    let account = String::from_str(config.account());
    let username = config.api_username.clone();
    CodebaseClient::new(account, username, config.api_key)
}

/// The project that a command is about: the one given, else the one of
/// the working copy's `context`.
pub fn resolve_project(project: Option<String>, context: Option<GitContext>) -> (r: Result<
    String,
    ResolveError,
>)
    ensures
        match chosen_project(opt_text(project), opt_context(context)) {
            Some(p) => r matches Ok(name) && name@ == p,
            None => r == Err::<String, ResolveError>(ResolveError::NoProject),
        },
{
    match project {
        Some(p) => Ok(p),
        None => match context {
            Some(c) => Ok(c.project),
            None => Err(ResolveError::NoProject),
        },
    }
}

/// The repository that a command is about: the one given, else the one of
/// the working copy.
pub open spec fn chosen_repo(repo: Option<Seq<char>>, context: Option<Context>) -> Option<
    Seq<char>,
> {
    match repo {
        Some(r) => Some(r),
        None => match context {
            Some(c) => c.repo,
            None => None,
        },
    }
}

/// The project and the repository that a command is about, each as given
/// or else as the working copy's `context` names it. A missing project is
/// reported before a missing repository.
pub fn resolve_project_repo(
    project: Option<String>,
    repo: Option<String>,
    context: Option<GitContext>,
) -> (r: Result<(String, String), ResolveError>)
    ensures
        match chosen_project(opt_text(project), opt_context(context)) {
            None => r == Err::<(String, String), ResolveError>(ResolveError::NoProject),
            Some(p) => match chosen_repo(opt_text(repo), opt_context(context)) {
                None => r == Err::<(String, String), ResolveError>(ResolveError::NoRepository),
                Some(q) => r matches Ok(pair) && pair.0@ == p && pair.1@ == q,
            },
        },
{
    let (context_project, context_repo) = match context {
        Some(c) => (Some(c.project), c.repo),
        None => (None, None),
    };
    let project = match project {
        Some(p) => p,
        None => match context_project {
            Some(p) => p,
            None => return Err(ResolveError::NoProject),
        },
    };
    let repo = match repo {
        Some(r) => r,
        None => match context_repo {
            Some(r) => r,
            None => return Err(ResolveError::NoRepository),
        },
    };
    Ok((project, repo))
}

} // verus!
