//! Activity feeds, of the account and of one project.

use vstd::prelude::*;
use vstd::string::*;
use crate::api::client::{Method, Request};
use crate::api::codec::opt_str;
use crate::api::models::{Events};
use crate::api::operation::{Operation};
use crate::text::{natural_digits, push_natural, texts};

verus! {

/// The query parameters of a feed, in order: `raw=true` where raw data is
/// asked for, then `since=` and `page=` with their values where supplied.
pub open spec fn activity_parameters(raw: bool, since: Option<Seq<char>>, page: Option<u32>) -> Seq<
    Seq<char>,
> {
    let first: Seq<Seq<char>> = if raw {
        seq!["raw=true"@]
    } else {
        Seq::empty()
    };
    let second = match since {
        Some(s) => first.push("since="@ + s),
        None => first,
    };
    match page {
        Some(p) => second.push("page="@ + natural_digits(p as nat)),
        None => second,
    }
}

/// `parts` in order, with `separator` between each two.
pub open spec fn joined(parts: Seq<Seq<char>>, separator: Seq<char>) -> Seq<char>
    decreases parts.len(),
{
    if parts.len() == 0 {
        Seq::empty()
    } else if parts.len() == 1 {
        parts[0]
    } else {
        joined(parts.drop_last(), separator) + separator + parts.last()
    }
}

/// The path of a feed: `base` alone where no parameter applies, else
/// `base`, a question mark and the parameters joined by `&`.
pub open spec fn activity_path(
    base: Seq<char>,
    raw: bool,
    since: Option<Seq<char>>,
    page: Option<u32>,
) -> Seq<char> {
    let parameters = activity_parameters(raw, since, page);
    if parameters.len() == 0 {
        base
    } else {
        base + "?"@ + joined(parameters, "&"@)
    }
}

/// The path of the feed at `base` with the parameters that apply.
pub fn build_activity_path(base: &str, raw: bool, since: Option<&str>, page: Option<u32>) -> (path:
    String)
    ensures
        path@ == activity_path(base@, raw, opt_str(since), page),
{
    let mut params: Vec<String> = Vec::new();
    if raw {
        params.push(String::from_str("raw=true"));
    }
    match since {
        Some(s) => {
            let mut param = String::from_str("since=");
            param.append(s);
            params.push(param);
        },
        None => {},
    }
    match page {
        Some(p) => {
            let mut param = String::from_str("page=");
            push_natural(&mut param, p as u64);
            params.push(param);
        },
        None => {},
    }
    assert(texts(params@) =~= activity_parameters(raw, opt_str(since), page));
    let mut path = String::from_str(base);
    if params.len() > 0 {
        path.append("?");
        let mut i: usize = 0;
        while i < params.len()
            invariant
                i <= params.len(),
                path@ == base@ + "?"@ + joined(texts(params@).take(i as int), "&"@),
            decreases params.len() - i,
        {
            let ghost seen = texts(params@).take(i as int);
            let ghost next = texts(params@).take(i + 1);
            assert(next.drop_last() =~= seen);
            if i > 0 {
                path.append("&");
            }
            path.append(params[i].as_str());
            i += 1;
        }
        assert(texts(params@).take(params@.len() as int) =~= texts(params@));
    }
    path
}

/// The activity of the whole account; the response is an `Events`.
pub fn account_activity(raw: bool, since: Option<&str>, page: Option<u32>) -> (r: Operation<Events>)
    ensures
        r.request.method == Method::Get,
        r.request.path@ == activity_path("/activity"@, raw, opt_str(since), page),
        r.request.body is None,
{
    let request = Request::bare(Method::Get, build_activity_path("/activity", raw, since, page));
    Operation::new(request)
}

/// The activity of `project`; the response is an `Events`.
pub fn project_activity(project: &str, raw: bool, since: Option<&str>, page: Option<u32>) -> (r: Operation<Events>)
    ensures
        r.request.method == Method::Get,
        r.request.path@ == activity_path("/"@ + project@ + "/activity"@, raw, opt_str(since), page),
        r.request.body is None,
{
    let mut base = String::from_str("/");
    base.append(project);
    base.append("/activity");
    let request = Request::bare(Method::Get, build_activity_path(base.as_str(), raw, since, page));
    Operation::new(request)
}

} // verus!
