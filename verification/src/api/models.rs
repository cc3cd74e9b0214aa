//! The records that responses decode to, and how each is read from its
//! element.
//!
//! A record's fields are all optional. A field is `None` where its element
//! is absent or empty; a response fails to decode only where a field is
//! present and malformed, occurs twice, or the document is not the one
//! expected. Elements that no field names are ignored.

use vstd::prelude::*;
use vstd::string::*;
use crate::api::client::opt_text;
use crate::api::codec::{DecodeError, Fault};
use crate::api::xml::{
    bool_reading, fault_of, int_reading, named, number_reading, only_child, or_fault,
    parse_document, root_of, text_reading, Element, ElementView,
};

verus! {

/// A type that is read from one element of a response.
pub trait Record: Sized {
    /// The name of the element that holds a record of this type.
    spec fn root_name() -> Seq<char>;

    /// Whether `self` holds what `e` says, field by field.
    spec fn reflects(&self, e: ElementView) -> bool;

    /// The fault that keeps `e` from being read as a record: that of the
    /// first field at fault, in the order in which the type declares its
    /// fields; `None` where `e` can be read.
    spec fn first_fault(e: ElementView) -> Option<Fault>;

    /// The name of the element that holds a record of this type.
    fn root() -> (name: &'static str)
        ensures
            name@ == Self::root_name(),
    ;

    /// Reads a record from `e`, whatever `e` is called.
    fn from_element(e: &Element) -> (r: Result<Self, DecodeError>)
        ensures
            match r {
                Ok(v) => v.reflects(e@) && Self::first_fault(e@) is None,
                Err(x) => Self::first_fault(e@) == Some(x@),
            },
    ;
}

/// Whether `r` is what decoding the XML text `xml` as a `T` gives: the
/// fault of the document where it has one, else the record that its root
/// element spells, or that element's first fault.
pub open spec fn decodes<T: Record>(r: Result<T, DecodeError>, xml: Seq<char>) -> bool {
    match root_of(xml, T::root_name()) {
        Err(f) => r matches Err(x) && x@ == f,
        Ok(e) => match r {
            Ok(v) => v.reflects(e) && T::first_fault(e) is None,
            Err(x) => T::first_fault(e) == Some(x@),
        },
    }
}

/// Decodes the XML text of a response as a `T`.
pub fn decode<T: Record>(xml: &str) -> (r: Result<T, DecodeError>)
    ensures
        decodes(r, xml@),
{
    match parse_document(xml, T::root()) {
        Err(x) => Err(x),
        Ok(e) => T::from_element(&e),
    }
}

/// Whether each of `items` reflects the element at its place in `elements`.
pub open spec fn all_reflect<T: Record>(items: Seq<T>, elements: Seq<ElementView>) -> bool {
    &&& items.len() == elements.len()
    &&& forall|i: int| 0 <= i < items.len() ==> (#[trigger] items[i]).reflects(elements[i])
}

/// The first fault among the first `n` of `elements`, each read as a `T`.
pub open spec fn first_item_fault<T: Record>(elements: Seq<ElementView>, n: nat) -> Option<Fault>
    decreases n,
{
    if n == 0 {
        None
    } else {
        or_fault(
            first_item_fault::<T>(elements, (n - 1) as nat),
            if n <= elements.len() {
                T::first_fault(elements[n - 1])
            } else {
                None
            },
        )
    }
}

/// A fault found among the first elements stays the first fault when more
/// elements are looked at.
pub proof fn lemma_first_item_fault_stays<T: Record>(
    elements: Seq<ElementView>,
    fewer: nat,
    more: nat,
)
    requires
        fewer <= more,
        first_item_fault::<T>(elements, fewer) is Some,
    ensures
        first_item_fault::<T>(elements, more) == first_item_fault::<T>(elements, fewer),
    decreases more,
{
    if fewer < more {
        lemma_first_item_fault_stays::<T>(elements, fewer, (more - 1) as nat);
    }
}

/// A wrapper without children decodes to the empty list, and is never at
/// fault: no record of any type is read from it.
pub proof fn law_empty_wrapper_decodes_to_empty_list<T: Record>(e: ElementView, item: Seq<char>)
    requires
        e.children.len() == 0,
    ensures
        named(e, item).len() == 0,
        first_item_fault::<T>(named(e, item), named(e, item).len()) is None,
        forall|items: Seq<T>| all_reflect(items, named(e, item)) ==> items.len() == 0,
{
}

/// What reading the children of `e` called `item` as a list of `T` gives.
pub open spec fn lists<T: Record>(
    r: Result<Vec<T>, DecodeError>,
    e: ElementView,
    item: Seq<char>,
) -> bool {
    let elements = named(e, item);
    match r {
        Ok(v) => all_reflect(v@, elements) && first_item_fault::<T>(elements, elements.len())
            is None,
        Err(x) => first_item_fault::<T>(elements, elements.len()) == Some(x@),
    }
}

/// Reads every child of `e` called `item` as a `T`, in document order.
/// Children of other names are ignored; the first child at fault fails the
/// list.
pub fn decode_list<T: Record>(e: &Element, item: &str) -> (r: Result<Vec<T>, DecodeError>)
    ensures
        lists(r, e@, item@),
{
    let found = e.children_named(item);
    let ghost elements = named(e@, item@);
    let mut out: Vec<T> = Vec::new();
    let mut i: usize = 0;
    while i < found.len()
        invariant
            i <= found.len(),
            elements == named(e@, item@),
            found@.len() == elements.len(),
            forall|k: int| 0 <= k < found@.len() ==> (#[trigger] found@[k])@ == elements[k],
            out@.len() == i,
            forall|k: int| 0 <= k < i ==> (#[trigger] out@[k]).reflects(elements[k]),
            first_item_fault::<T>(elements, i as nat) is None,
        decreases found.len() - i,
    {
        match T::from_element(found[i]) {
            Ok(v) => {
                out.push(v);
            },
            Err(x) => {
                proof {
                    lemma_first_item_fault_stays::<T>(elements, (i + 1) as nat, elements.len());
                }
                return Err(x);
            },
        }
        i += 1;
    }
    Ok(out)
}


/// A project of the account.
#[derive(Debug, Clone, PartialEq, Eq)]
pub struct Project {
    pub name: Option<String>,
    pub account_name: Option<String>,
    pub permalink: Option<String>,
    pub project_id: Option<i64>,
    pub group_id: Option<i64>,
    pub overview: Option<String>,
    pub start_page: Option<String>,
    pub status: Option<String>,
    pub icon: Option<i64>,
    pub disk_usage: Option<i64>,
    pub total_tickets: Option<i64>,
    pub open_tickets: Option<i64>,
    pub closed_tickets: Option<i64>,
}

impl Record for Project {
    open spec fn root_name() -> Seq<char> {
        "project"@
    }

    open spec fn reflects(&self, e: ElementView) -> bool {
        &&& text_reading(e, "name"@) == Ok::<Option<Seq<char>>, Fault>(opt_text(self.name))
        &&& text_reading(e, "account-name"@) == Ok::<Option<Seq<char>>, Fault>(opt_text(self.account_name))
        &&& text_reading(e, "permalink"@) == Ok::<Option<Seq<char>>, Fault>(opt_text(self.permalink))
        &&& int_reading(e, "project-id"@) == Ok::<Option<i64>, Fault>(self.project_id)
        &&& int_reading(e, "group-id"@) == Ok::<Option<i64>, Fault>(self.group_id)
        &&& text_reading(e, "overview"@) == Ok::<Option<Seq<char>>, Fault>(opt_text(self.overview))
        &&& text_reading(e, "start-page"@) == Ok::<Option<Seq<char>>, Fault>(opt_text(self.start_page))
        &&& text_reading(e, "status"@) == Ok::<Option<Seq<char>>, Fault>(opt_text(self.status))
        &&& int_reading(e, "icon"@) == Ok::<Option<i64>, Fault>(self.icon)
        &&& int_reading(e, "disk-usage"@) == Ok::<Option<i64>, Fault>(self.disk_usage)
        &&& int_reading(e, "total-tickets"@) == Ok::<Option<i64>, Fault>(self.total_tickets)
        &&& int_reading(e, "open-tickets"@) == Ok::<Option<i64>, Fault>(self.open_tickets)
        &&& int_reading(e, "closed-tickets"@) == Ok::<Option<i64>, Fault>(self.closed_tickets)
    }

    open spec fn first_fault(e: ElementView) -> Option<Fault> {
        or_fault(
            fault_of(text_reading(e, "name"@)),
            or_fault(
                fault_of(text_reading(e, "account-name"@)),
                or_fault(
                    fault_of(text_reading(e, "permalink"@)),
                    or_fault(
                        fault_of(int_reading(e, "project-id"@)),
                        or_fault(
                            fault_of(int_reading(e, "group-id"@)),
                            or_fault(
                                fault_of(text_reading(e, "overview"@)),
                                or_fault(
                                    fault_of(text_reading(e, "start-page"@)),
                                    or_fault(
                                        fault_of(text_reading(e, "status"@)),
                                        or_fault(
                                            fault_of(int_reading(e, "icon"@)),
                                            or_fault(
                                                fault_of(int_reading(e, "disk-usage"@)),
                                                or_fault(
                                                    fault_of(int_reading(e, "total-tickets"@)),
                                                    or_fault(
                                                        fault_of(int_reading(e, "open-tickets"@)),
                                                        or_fault(
                                                            fault_of(int_reading(e, "closed-tickets"@)),
                                                            None,
                                                        ),
                                                    ),
                                                ),
                                            ),
                                        ),
                                    ),
                                ),
                            ),
                        ),
                    ),
                ),
            ),
        )
    }

    fn root() -> (name: &'static str) {
        "project"
    }

    fn from_element(e: &Element) -> (r: Result<Project, DecodeError>) {
        let name = match e.text_field("name") {
            Ok(v) => v,
            Err(x) => return Err(x),
        };
        let account_name = match e.text_field("account-name") {
            Ok(v) => v,
            Err(x) => return Err(x),
        };
        let permalink = match e.text_field("permalink") {
            Ok(v) => v,
            Err(x) => return Err(x),
        };
        let project_id = match e.int_field("project-id") {
            Ok(v) => v,
            Err(x) => return Err(x),
        };
        let group_id = match e.int_field("group-id") {
            Ok(v) => v,
            Err(x) => return Err(x),
        };
        let overview = match e.text_field("overview") {
            Ok(v) => v,
            Err(x) => return Err(x),
        };
        let start_page = match e.text_field("start-page") {
            Ok(v) => v,
            Err(x) => return Err(x),
        };
        let status = match e.text_field("status") {
            Ok(v) => v,
            Err(x) => return Err(x),
        };
        let icon = match e.int_field("icon") {
            Ok(v) => v,
            Err(x) => return Err(x),
        };
        let disk_usage = match e.int_field("disk-usage") {
            Ok(v) => v,
            Err(x) => return Err(x),
        };
        let total_tickets = match e.int_field("total-tickets") {
            Ok(v) => v,
            Err(x) => return Err(x),
        };
        let open_tickets = match e.int_field("open-tickets") {
            Ok(v) => v,
            Err(x) => return Err(x),
        };
        let closed_tickets = match e.int_field("closed-tickets") {
            Ok(v) => v,
            Err(x) => return Err(x),
        };
        Ok(Project { name, account_name, permalink, project_id, group_id, overview, start_page, status, icon, disk_usage, total_tickets, open_tickets, closed_tickets })
    }
}

/// The projects of the account.
#[derive(Debug, Clone, PartialEq, Eq)]
pub struct Projects {
    pub projects: Vec<Project>,
}

impl Record for Projects {
    open spec fn root_name() -> Seq<char> {
        "projects"@
    }

    open spec fn reflects(&self, e: ElementView) -> bool {
        all_reflect(self.projects@, named(e, "project"@))
    }

    open spec fn first_fault(e: ElementView) -> Option<Fault> {
        first_item_fault::<Project>(named(e, "project"@), named(e, "project"@).len())
    }

    fn root() -> (name: &'static str) {
        "projects"
    }

    fn from_element(e: &Element) -> (r: Result<Projects, DecodeError>) {
        match decode_list(e, "project") {
            Ok(projects) => Ok(Projects { projects }),
            Err(x) => Err(x),
        }
    }
}

/// A group that projects are filed under.
#[derive(Debug, Clone, PartialEq, Eq)]
pub struct ProjectGroup {
    pub id: Option<i64>,
    pub label: Option<String>,
}

impl Record for ProjectGroup {
    open spec fn root_name() -> Seq<char> {
        "project-group"@
    }

    open spec fn reflects(&self, e: ElementView) -> bool {
        &&& int_reading(e, "id"@) == Ok::<Option<i64>, Fault>(self.id)
        &&& text_reading(e, "label"@) == Ok::<Option<Seq<char>>, Fault>(opt_text(self.label))
    }

    open spec fn first_fault(e: ElementView) -> Option<Fault> {
        or_fault(
            fault_of(int_reading(e, "id"@)),
            or_fault(
                fault_of(text_reading(e, "label"@)),
                None,
            ),
        )
    }

    fn root() -> (name: &'static str) {
        "project-group"
    }

    fn from_element(e: &Element) -> (r: Result<ProjectGroup, DecodeError>) {
        let id = match e.int_field("id") {
            Ok(v) => v,
            Err(x) => return Err(x),
        };
        let label = match e.text_field("label") {
            Ok(v) => v,
            Err(x) => return Err(x),
        };
        Ok(ProjectGroup { id, label })
    }
}

/// The project groups of the account.
#[derive(Debug, Clone, PartialEq, Eq)]
pub struct ProjectGroups {
    pub groups: Vec<ProjectGroup>,
}

impl Record for ProjectGroups {
    open spec fn root_name() -> Seq<char> {
        "project-groups"@
    }

    open spec fn reflects(&self, e: ElementView) -> bool {
        all_reflect(self.groups@, named(e, "project-group"@))
    }

    open spec fn first_fault(e: ElementView) -> Option<Fault> {
        first_item_fault::<ProjectGroup>(named(e, "project-group"@), named(e, "project-group"@).len())
    }

    fn root() -> (name: &'static str) {
        "project-groups"
    }

    fn from_element(e: &Element) -> (r: Result<ProjectGroups, DecodeError>) {
        match decode_list(e, "project-group") {
            Ok(groups) => Ok(ProjectGroups { groups }),
            Err(x) => Err(x),
        }
    }
}

/// A user assigned to a project.
#[derive(Debug, Clone, PartialEq, Eq)]
pub struct ProjectUser {
    pub id: Option<i64>,
    pub first_name: Option<String>,
    pub last_name: Option<String>,
    pub username: Option<String>,
    pub email_address: Option<String>,
    pub company: Option<String>,
}

impl Record for ProjectUser {
    open spec fn root_name() -> Seq<char> {
        "user"@
    }

    open spec fn reflects(&self, e: ElementView) -> bool {
        &&& int_reading(e, "id"@) == Ok::<Option<i64>, Fault>(self.id)
        &&& text_reading(e, "first-name"@) == Ok::<Option<Seq<char>>, Fault>(opt_text(self.first_name))
        &&& text_reading(e, "last-name"@) == Ok::<Option<Seq<char>>, Fault>(opt_text(self.last_name))
        &&& text_reading(e, "username"@) == Ok::<Option<Seq<char>>, Fault>(opt_text(self.username))
        &&& text_reading(e, "email-address"@) == Ok::<Option<Seq<char>>, Fault>(opt_text(self.email_address))
        &&& text_reading(e, "company"@) == Ok::<Option<Seq<char>>, Fault>(opt_text(self.company))
    }

    open spec fn first_fault(e: ElementView) -> Option<Fault> {
        or_fault(
            fault_of(int_reading(e, "id"@)),
            or_fault(
                fault_of(text_reading(e, "first-name"@)),
                or_fault(
                    fault_of(text_reading(e, "last-name"@)),
                    or_fault(
                        fault_of(text_reading(e, "username"@)),
                        or_fault(
                            fault_of(text_reading(e, "email-address"@)),
                            or_fault(
                                fault_of(text_reading(e, "company"@)),
                                None,
                            ),
                        ),
                    ),
                ),
            ),
        )
    }

    fn root() -> (name: &'static str) {
        "user"
    }

    fn from_element(e: &Element) -> (r: Result<ProjectUser, DecodeError>) {
        let id = match e.int_field("id") {
            Ok(v) => v,
            Err(x) => return Err(x),
        };
        let first_name = match e.text_field("first-name") {
            Ok(v) => v,
            Err(x) => return Err(x),
        };
        let last_name = match e.text_field("last-name") {
            Ok(v) => v,
            Err(x) => return Err(x),
        };
        let username = match e.text_field("username") {
            Ok(v) => v,
            Err(x) => return Err(x),
        };
        let email_address = match e.text_field("email-address") {
            Ok(v) => v,
            Err(x) => return Err(x),
        };
        let company = match e.text_field("company") {
            Ok(v) => v,
            Err(x) => return Err(x),
        };
        Ok(ProjectUser { id, first_name, last_name, username, email_address, company })
    }
}

/// The users assigned to a project.
#[derive(Debug, Clone, PartialEq, Eq)]
pub struct ProjectUsers {
    pub users: Vec<ProjectUser>,
}

impl Record for ProjectUsers {
    open spec fn root_name() -> Seq<char> {
        "users"@
    }

    open spec fn reflects(&self, e: ElementView) -> bool {
        all_reflect(self.users@, named(e, "user"@))
    }

    open spec fn first_fault(e: ElementView) -> Option<Fault> {
        first_item_fault::<ProjectUser>(named(e, "user"@), named(e, "user"@).len())
    }

    fn root() -> (name: &'static str) {
        "users"
    }

    fn from_element(e: &Element) -> (r: Result<ProjectUsers, DecodeError>) {
        match decode_list(e, "user") {
            Ok(users) => Ok(ProjectUsers { users }),
            Err(x) => Err(x),
        }
    }
}

/// A repository of a project.
#[derive(Debug, Clone, PartialEq, Eq)]
pub struct Repository {
    pub name: Option<String>,
    pub permalink: Option<String>,
    pub disk_usage: Option<i64>,
    pub last_commit_ref: Option<String>,
    pub clone_url: Option<String>,
    pub source: Option<String>,
    pub sync: Option<bool>,
    pub last_sync_at: Option<String>,
}

impl Record for Repository {
    open spec fn root_name() -> Seq<char> {
        "repository"@
    }

    open spec fn reflects(&self, e: ElementView) -> bool {
        &&& text_reading(e, "name"@) == Ok::<Option<Seq<char>>, Fault>(opt_text(self.name))
        &&& text_reading(e, "permalink"@) == Ok::<Option<Seq<char>>, Fault>(opt_text(self.permalink))
        &&& int_reading(e, "disk-usage"@) == Ok::<Option<i64>, Fault>(self.disk_usage)
        &&& text_reading(e, "last-commit-ref"@) == Ok::<Option<Seq<char>>, Fault>(opt_text(self.last_commit_ref))
        &&& text_reading(e, "clone-url"@) == Ok::<Option<Seq<char>>, Fault>(opt_text(self.clone_url))
        &&& text_reading(e, "source"@) == Ok::<Option<Seq<char>>, Fault>(opt_text(self.source))
        &&& bool_reading(e, "sync"@) == Ok::<Option<bool>, Fault>(self.sync)
        &&& text_reading(e, "last-sync-at"@) == Ok::<Option<Seq<char>>, Fault>(opt_text(self.last_sync_at))
    }

    open spec fn first_fault(e: ElementView) -> Option<Fault> {
        or_fault(
            fault_of(text_reading(e, "name"@)),
            or_fault(
                fault_of(text_reading(e, "permalink"@)),
                or_fault(
                    fault_of(int_reading(e, "disk-usage"@)),
                    or_fault(
                        fault_of(text_reading(e, "last-commit-ref"@)),
                        or_fault(
                            fault_of(text_reading(e, "clone-url"@)),
                            or_fault(
                                fault_of(text_reading(e, "source"@)),
                                or_fault(
                                    fault_of(bool_reading(e, "sync"@)),
                                    or_fault(
                                        fault_of(text_reading(e, "last-sync-at"@)),
                                        None,
                                    ),
                                ),
                            ),
                        ),
                    ),
                ),
            ),
        )
    }

    fn root() -> (name: &'static str) {
        "repository"
    }

    fn from_element(e: &Element) -> (r: Result<Repository, DecodeError>) {
        let name = match e.text_field("name") {
            Ok(v) => v,
            Err(x) => return Err(x),
        };
        let permalink = match e.text_field("permalink") {
            Ok(v) => v,
            Err(x) => return Err(x),
        };
        let disk_usage = match e.int_field("disk-usage") {
            Ok(v) => v,
            Err(x) => return Err(x),
        };
        let last_commit_ref = match e.text_field("last-commit-ref") {
            Ok(v) => v,
            Err(x) => return Err(x),
        };
        let clone_url = match e.text_field("clone-url") {
            Ok(v) => v,
            Err(x) => return Err(x),
        };
        let source = match e.text_field("source") {
            Ok(v) => v,
            Err(x) => return Err(x),
        };
        let sync = match e.bool_field("sync") {
            Ok(v) => v,
            Err(x) => return Err(x),
        };
        let last_sync_at = match e.text_field("last-sync-at") {
            Ok(v) => v,
            Err(x) => return Err(x),
        };
        Ok(Repository { name, permalink, disk_usage, last_commit_ref, clone_url, source, sync, last_sync_at })
    }
}

/// The repositories of a project.
#[derive(Debug, Clone, PartialEq, Eq)]
pub struct Repositories {
    pub repositories: Vec<Repository>,
}

impl Record for Repositories {
    open spec fn root_name() -> Seq<char> {
        "repositories"@
    }

    open spec fn reflects(&self, e: ElementView) -> bool {
        all_reflect(self.repositories@, named(e, "repository"@))
    }

    open spec fn first_fault(e: ElementView) -> Option<Fault> {
        first_item_fault::<Repository>(named(e, "repository"@), named(e, "repository"@).len())
    }

    fn root() -> (name: &'static str) {
        "repositories"
    }

    fn from_element(e: &Element) -> (r: Result<Repositories, DecodeError>) {
        match decode_list(e, "repository") {
            Ok(repositories) => Ok(Repositories { repositories }),
            Err(x) => Err(x),
        }
    }
}

/// A commit in a repository.
#[derive(Debug, Clone, PartialEq, Eq)]
pub struct Commit {
    pub commit_ref: Option<String>,
    pub message: Option<String>,
    pub author_name: Option<String>,
    pub author_email: Option<String>,
    pub authored_at: Option<String>,
    pub committer_name: Option<String>,
    pub committer_email: Option<String>,
    pub committed_at: Option<String>,
    pub parent_refs: Option<String>,
    pub tree_ref: Option<String>,
    pub author_user: Option<String>,
    pub committer_user: Option<String>,
}

impl Record for Commit {
    open spec fn root_name() -> Seq<char> {
        "commit"@
    }

    open spec fn reflects(&self, e: ElementView) -> bool {
        &&& text_reading(e, "ref"@) == Ok::<Option<Seq<char>>, Fault>(opt_text(self.commit_ref))
        &&& text_reading(e, "message"@) == Ok::<Option<Seq<char>>, Fault>(opt_text(self.message))
        &&& text_reading(e, "author-name"@) == Ok::<Option<Seq<char>>, Fault>(opt_text(self.author_name))
        &&& text_reading(e, "author-email"@) == Ok::<Option<Seq<char>>, Fault>(opt_text(self.author_email))
        &&& text_reading(e, "authored-at"@) == Ok::<Option<Seq<char>>, Fault>(opt_text(self.authored_at))
        &&& text_reading(e, "committer-name"@) == Ok::<Option<Seq<char>>, Fault>(opt_text(self.committer_name))
        &&& text_reading(e, "committer-email"@) == Ok::<Option<Seq<char>>, Fault>(opt_text(self.committer_email))
        &&& text_reading(e, "committed-at"@) == Ok::<Option<Seq<char>>, Fault>(opt_text(self.committed_at))
        &&& text_reading(e, "parent-refs"@) == Ok::<Option<Seq<char>>, Fault>(opt_text(self.parent_refs))
        &&& text_reading(e, "tree-ref"@) == Ok::<Option<Seq<char>>, Fault>(opt_text(self.tree_ref))
        &&& text_reading(e, "author-user"@) == Ok::<Option<Seq<char>>, Fault>(opt_text(self.author_user))
        &&& text_reading(e, "committer-user"@) == Ok::<Option<Seq<char>>, Fault>(opt_text(self.committer_user))
    }

    open spec fn first_fault(e: ElementView) -> Option<Fault> {
        or_fault(
            fault_of(text_reading(e, "ref"@)),
            or_fault(
                fault_of(text_reading(e, "message"@)),
                or_fault(
                    fault_of(text_reading(e, "author-name"@)),
                    or_fault(
                        fault_of(text_reading(e, "author-email"@)),
                        or_fault(
                            fault_of(text_reading(e, "authored-at"@)),
                            or_fault(
                                fault_of(text_reading(e, "committer-name"@)),
                                or_fault(
                                    fault_of(text_reading(e, "committer-email"@)),
                                    or_fault(
                                        fault_of(text_reading(e, "committed-at"@)),
                                        or_fault(
                                            fault_of(text_reading(e, "parent-refs"@)),
                                            or_fault(
                                                fault_of(text_reading(e, "tree-ref"@)),
                                                or_fault(
                                                    fault_of(text_reading(e, "author-user"@)),
                                                    or_fault(
                                                        fault_of(text_reading(e, "committer-user"@)),
                                                        None,
                                                    ),
                                                ),
                                            ),
                                        ),
                                    ),
                                ),
                            ),
                        ),
                    ),
                ),
            ),
        )
    }

    fn root() -> (name: &'static str) {
        "commit"
    }

    fn from_element(e: &Element) -> (r: Result<Commit, DecodeError>) {
        let commit_ref = match e.text_field("ref") {
            Ok(v) => v,
            Err(x) => return Err(x),
        };
        let message = match e.text_field("message") {
            Ok(v) => v,
            Err(x) => return Err(x),
        };
        let author_name = match e.text_field("author-name") {
            Ok(v) => v,
            Err(x) => return Err(x),
        };
        let author_email = match e.text_field("author-email") {
            Ok(v) => v,
            Err(x) => return Err(x),
        };
        let authored_at = match e.text_field("authored-at") {
            Ok(v) => v,
            Err(x) => return Err(x),
        };
        let committer_name = match e.text_field("committer-name") {
            Ok(v) => v,
            Err(x) => return Err(x),
        };
        let committer_email = match e.text_field("committer-email") {
            Ok(v) => v,
            Err(x) => return Err(x),
        };
        let committed_at = match e.text_field("committed-at") {
            Ok(v) => v,
            Err(x) => return Err(x),
        };
        let parent_refs = match e.text_field("parent-refs") {
            Ok(v) => v,
            Err(x) => return Err(x),
        };
        let tree_ref = match e.text_field("tree-ref") {
            Ok(v) => v,
            Err(x) => return Err(x),
        };
        let author_user = match e.text_field("author-user") {
            Ok(v) => v,
            Err(x) => return Err(x),
        };
        let committer_user = match e.text_field("committer-user") {
            Ok(v) => v,
            Err(x) => return Err(x),
        };
        Ok(Commit { commit_ref, message, author_name, author_email, authored_at, committer_name, committer_email, committed_at, parent_refs, tree_ref, author_user, committer_user })
    }
}

/// The commits on a ref, newest first as the service sends them.
#[derive(Debug, Clone, PartialEq, Eq)]
pub struct Commits {
    pub commits: Vec<Commit>,
}

impl Record for Commits {
    open spec fn root_name() -> Seq<char> {
        "commits"@
    }

    open spec fn reflects(&self, e: ElementView) -> bool {
        all_reflect(self.commits@, named(e, "commit"@))
    }

    open spec fn first_fault(e: ElementView) -> Option<Fault> {
        first_item_fault::<Commit>(named(e, "commit"@), named(e, "commit"@).len())
    }

    fn root() -> (name: &'static str) {
        "commits"
    }

    fn from_element(e: &Element) -> (r: Result<Commits, DecodeError>) {
        match decode_list(e, "commit") {
            Ok(commits) => Ok(Commits { commits }),
            Err(x) => Err(x),
        }
    }
}

/// A deployment of a revision to servers.
#[derive(Debug, Clone, PartialEq, Eq)]
pub struct Deployment {
    pub branch: Option<String>,
    pub revision: Option<String>,
    pub environment: Option<String>,
    pub servers: Option<String>,
}

impl Record for Deployment {
    open spec fn root_name() -> Seq<char> {
        "deployment"@
    }

    open spec fn reflects(&self, e: ElementView) -> bool {
        &&& text_reading(e, "branch"@) == Ok::<Option<Seq<char>>, Fault>(opt_text(self.branch))
        &&& text_reading(e, "revision"@) == Ok::<Option<Seq<char>>, Fault>(opt_text(self.revision))
        &&& text_reading(e, "environment"@) == Ok::<Option<Seq<char>>, Fault>(opt_text(self.environment))
        &&& text_reading(e, "servers"@) == Ok::<Option<Seq<char>>, Fault>(opt_text(self.servers))
    }

    open spec fn first_fault(e: ElementView) -> Option<Fault> {
        or_fault(
            fault_of(text_reading(e, "branch"@)),
            or_fault(
                fault_of(text_reading(e, "revision"@)),
                or_fault(
                    fault_of(text_reading(e, "environment"@)),
                    or_fault(
                        fault_of(text_reading(e, "servers"@)),
                        None,
                    ),
                ),
            ),
        )
    }

    fn root() -> (name: &'static str) {
        "deployment"
    }

    fn from_element(e: &Element) -> (r: Result<Deployment, DecodeError>) {
        let branch = match e.text_field("branch") {
            Ok(v) => v,
            Err(x) => return Err(x),
        };
        let revision = match e.text_field("revision") {
            Ok(v) => v,
            Err(x) => return Err(x),
        };
        let environment = match e.text_field("environment") {
            Ok(v) => v,
            Err(x) => return Err(x),
        };
        let servers = match e.text_field("servers") {
            Ok(v) => v,
            Err(x) => return Err(x),
        };
        Ok(Deployment { branch, revision, environment, servers })
    }
}

/// A hook that a repository calls after a push.
#[derive(Debug, Clone, PartialEq, Eq)]
pub struct Hook {
    pub id: Option<i64>,
    pub url: Option<String>,
    pub username: Option<String>,
    pub password: Option<String>,
}

impl Record for Hook {
    open spec fn root_name() -> Seq<char> {
        "repository-hook"@
    }

    open spec fn reflects(&self, e: ElementView) -> bool {
        &&& int_reading(e, "id"@) == Ok::<Option<i64>, Fault>(self.id)
        &&& text_reading(e, "url"@) == Ok::<Option<Seq<char>>, Fault>(opt_text(self.url))
        &&& text_reading(e, "username"@) == Ok::<Option<Seq<char>>, Fault>(opt_text(self.username))
        &&& text_reading(e, "password"@) == Ok::<Option<Seq<char>>, Fault>(opt_text(self.password))
    }

    open spec fn first_fault(e: ElementView) -> Option<Fault> {
        or_fault(
            fault_of(int_reading(e, "id"@)),
            or_fault(
                fault_of(text_reading(e, "url"@)),
                or_fault(
                    fault_of(text_reading(e, "username"@)),
                    or_fault(
                        fault_of(text_reading(e, "password"@)),
                        None,
                    ),
                ),
            ),
        )
    }

    fn root() -> (name: &'static str) {
        "repository-hook"
    }

    fn from_element(e: &Element) -> (r: Result<Hook, DecodeError>) {
        let id = match e.int_field("id") {
            Ok(v) => v,
            Err(x) => return Err(x),
        };
        let url = match e.text_field("url") {
            Ok(v) => v,
            Err(x) => return Err(x),
        };
        let username = match e.text_field("username") {
            Ok(v) => v,
            Err(x) => return Err(x),
        };
        let password = match e.text_field("password") {
            Ok(v) => v,
            Err(x) => return Err(x),
        };
        Ok(Hook { id, url, username, password })
    }
}

/// The hooks of a repository.
#[derive(Debug, Clone, PartialEq, Eq)]
pub struct Hooks {
    pub hooks: Vec<Hook>,
}

impl Record for Hooks {
    open spec fn root_name() -> Seq<char> {
        "repository-hooks"@
    }

    open spec fn reflects(&self, e: ElementView) -> bool {
        all_reflect(self.hooks@, named(e, "repository-hook"@))
    }

    open spec fn first_fault(e: ElementView) -> Option<Fault> {
        first_item_fault::<Hook>(named(e, "repository-hook"@), named(e, "repository-hook"@).len())
    }

    fn root() -> (name: &'static str) {
        "repository-hooks"
    }

    fn from_element(e: &Element) -> (r: Result<Hooks, DecodeError>) {
        match decode_list(e, "repository-hook") {
            Ok(hooks) => Ok(Hooks { hooks }),
            Err(x) => Err(x),
        }
    }
}

/// A branch of a repository.
#[derive(Debug, Clone, PartialEq, Eq)]
pub struct Branch {
    pub name: Option<String>,
}

impl Record for Branch {
    open spec fn root_name() -> Seq<char> {
        "branch"@
    }

    open spec fn reflects(&self, e: ElementView) -> bool {
        &&& text_reading(e, "name"@) == Ok::<Option<Seq<char>>, Fault>(opt_text(self.name))
    }

    open spec fn first_fault(e: ElementView) -> Option<Fault> {
        or_fault(
            fault_of(text_reading(e, "name"@)),
            None,
        )
    }

    fn root() -> (name: &'static str) {
        "branch"
    }

    fn from_element(e: &Element) -> (r: Result<Branch, DecodeError>) {
        let name = match e.text_field("name") {
            Ok(v) => v,
            Err(x) => return Err(x),
        };
        Ok(Branch { name })
    }
}

/// The branches of a repository.
#[derive(Debug, Clone, PartialEq, Eq)]
pub struct Branches {
    pub branches: Vec<Branch>,
}

impl Record for Branches {
    open spec fn root_name() -> Seq<char> {
        "branches"@
    }

    open spec fn reflects(&self, e: ElementView) -> bool {
        all_reflect(self.branches@, named(e, "branch"@))
    }

    open spec fn first_fault(e: ElementView) -> Option<Fault> {
        first_item_fault::<Branch>(named(e, "branch"@), named(e, "branch"@).len())
    }

    fn root() -> (name: &'static str) {
        "branches"
    }

    fn from_element(e: &Element) -> (r: Result<Branches, DecodeError>) {
        match decode_list(e, "branch") {
            Ok(branches) => Ok(Branches { branches }),
            Err(x) => Err(x),
        }
    }
}

/// A request to merge one ref into another.
#[derive(Debug, Clone, PartialEq, Eq)]
pub struct MergeRequest {
    pub id: Option<i64>,
    pub source_ref: Option<String>,
    pub target_ref: Option<String>,
    pub subject: Option<String>,
    pub status: Option<String>,
    pub user_id: Option<i64>,
    pub created_at: Option<String>,
    pub updated_at: Option<String>,
    pub can_merge: Option<bool>,
}

impl Record for MergeRequest {
    open spec fn root_name() -> Seq<char> {
        "merge-request"@
    }

    open spec fn reflects(&self, e: ElementView) -> bool {
        &&& int_reading(e, "id"@) == Ok::<Option<i64>, Fault>(self.id)
        &&& text_reading(e, "source-ref"@) == Ok::<Option<Seq<char>>, Fault>(opt_text(self.source_ref))
        &&& text_reading(e, "target-ref"@) == Ok::<Option<Seq<char>>, Fault>(opt_text(self.target_ref))
        &&& text_reading(e, "subject"@) == Ok::<Option<Seq<char>>, Fault>(opt_text(self.subject))
        &&& text_reading(e, "status"@) == Ok::<Option<Seq<char>>, Fault>(opt_text(self.status))
        &&& int_reading(e, "user-id"@) == Ok::<Option<i64>, Fault>(self.user_id)
        &&& text_reading(e, "created-at"@) == Ok::<Option<Seq<char>>, Fault>(opt_text(self.created_at))
        &&& text_reading(e, "updated-at"@) == Ok::<Option<Seq<char>>, Fault>(opt_text(self.updated_at))
        &&& bool_reading(e, "can-merge"@) == Ok::<Option<bool>, Fault>(self.can_merge)
    }

    open spec fn first_fault(e: ElementView) -> Option<Fault> {
        or_fault(
            fault_of(int_reading(e, "id"@)),
            or_fault(
                fault_of(text_reading(e, "source-ref"@)),
                or_fault(
                    fault_of(text_reading(e, "target-ref"@)),
                    or_fault(
                        fault_of(text_reading(e, "subject"@)),
                        or_fault(
                            fault_of(text_reading(e, "status"@)),
                            or_fault(
                                fault_of(int_reading(e, "user-id"@)),
                                or_fault(
                                    fault_of(text_reading(e, "created-at"@)),
                                    or_fault(
                                        fault_of(text_reading(e, "updated-at"@)),
                                        or_fault(
                                            fault_of(bool_reading(e, "can-merge"@)),
                                            None,
                                        ),
                                    ),
                                ),
                            ),
                        ),
                    ),
                ),
            ),
        )
    }

    fn root() -> (name: &'static str) {
        "merge-request"
    }

    fn from_element(e: &Element) -> (r: Result<MergeRequest, DecodeError>) {
        let id = match e.int_field("id") {
            Ok(v) => v,
            Err(x) => return Err(x),
        };
        let source_ref = match e.text_field("source-ref") {
            Ok(v) => v,
            Err(x) => return Err(x),
        };
        let target_ref = match e.text_field("target-ref") {
            Ok(v) => v,
            Err(x) => return Err(x),
        };
        let subject = match e.text_field("subject") {
            Ok(v) => v,
            Err(x) => return Err(x),
        };
        let status = match e.text_field("status") {
            Ok(v) => v,
            Err(x) => return Err(x),
        };
        let user_id = match e.int_field("user-id") {
            Ok(v) => v,
            Err(x) => return Err(x),
        };
        let created_at = match e.text_field("created-at") {
            Ok(v) => v,
            Err(x) => return Err(x),
        };
        let updated_at = match e.text_field("updated-at") {
            Ok(v) => v,
            Err(x) => return Err(x),
        };
        let can_merge = match e.bool_field("can-merge") {
            Ok(v) => v,
            Err(x) => return Err(x),
        };
        Ok(MergeRequest { id, source_ref, target_ref, subject, status, user_id, created_at, updated_at, can_merge })
    }
}

/// The merge requests of a repository.
#[derive(Debug, Clone, PartialEq, Eq)]
pub struct MergeRequests {
    pub merge_requests: Vec<MergeRequest>,
}

impl Record for MergeRequests {
    open spec fn root_name() -> Seq<char> {
        "merge-requests"@
    }

    open spec fn reflects(&self, e: ElementView) -> bool {
        all_reflect(self.merge_requests@, named(e, "merge-request"@))
    }

    open spec fn first_fault(e: ElementView) -> Option<Fault> {
        first_item_fault::<MergeRequest>(named(e, "merge-request"@), named(e, "merge-request"@).len())
    }

    fn root() -> (name: &'static str) {
        "merge-requests"
    }

    fn from_element(e: &Element) -> (r: Result<MergeRequests, DecodeError>) {
        match decode_list(e, "merge-request") {
            Ok(merge_requests) => Ok(MergeRequests { merge_requests }),
            Err(x) => Err(x),
        }
    }
}

/// A comment on a merge request, or an action taken on it.
#[derive(Debug, Clone, PartialEq, Eq)]
pub struct MergeRequestComment {
    pub content: Option<String>,
    pub user_id: Option<i64>,
    pub action: Option<String>,
    pub created_at: Option<String>,
}

impl Record for MergeRequestComment {
    open spec fn root_name() -> Seq<char> {
        "merge-request-comment"@
    }

    open spec fn reflects(&self, e: ElementView) -> bool {
        &&& text_reading(e, "content"@) == Ok::<Option<Seq<char>>, Fault>(opt_text(self.content))
        &&& int_reading(e, "user-id"@) == Ok::<Option<i64>, Fault>(self.user_id)
        &&& text_reading(e, "action"@) == Ok::<Option<Seq<char>>, Fault>(opt_text(self.action))
        &&& text_reading(e, "created-at"@) == Ok::<Option<Seq<char>>, Fault>(opt_text(self.created_at))
    }

    open spec fn first_fault(e: ElementView) -> Option<Fault> {
        or_fault(
            fault_of(text_reading(e, "content"@)),
            or_fault(
                fault_of(int_reading(e, "user-id"@)),
                or_fault(
                    fault_of(text_reading(e, "action"@)),
                    or_fault(
                        fault_of(text_reading(e, "created-at"@)),
                        None,
                    ),
                ),
            ),
        )
    }

    fn root() -> (name: &'static str) {
        "merge-request-comment"
    }

    fn from_element(e: &Element) -> (r: Result<MergeRequestComment, DecodeError>) {
        let content = match e.text_field("content") {
            Ok(v) => v,
            Err(x) => return Err(x),
        };
        let user_id = match e.int_field("user-id") {
            Ok(v) => v,
            Err(x) => return Err(x),
        };
        let action = match e.text_field("action") {
            Ok(v) => v,
            Err(x) => return Err(x),
        };
        let created_at = match e.text_field("created-at") {
            Ok(v) => v,
            Err(x) => return Err(x),
        };
        Ok(MergeRequestComment { content, user_id, action, created_at })
    }
}

/// A ticket of a project.
#[derive(Debug, Clone, PartialEq, Eq)]
pub struct Ticket {
    pub ticket_id: Option<i64>,
    pub summary: Option<String>,
    pub ticket_type: Option<String>,
    pub description: Option<String>,
    pub priority_id: Option<i64>,
    pub status_id: Option<i64>,
    pub category_id: Option<i64>,
    pub milestone_id: Option<i64>,
    pub assignee_id: Option<i64>,
    pub reporter_id: Option<i64>,
    pub assignee: Option<String>,
    pub reporter: Option<String>,
    pub tags: Option<String>,
}

impl Record for Ticket {
    open spec fn root_name() -> Seq<char> {
        "ticket"@
    }

    open spec fn reflects(&self, e: ElementView) -> bool {
        &&& int_reading(e, "ticket-id"@) == Ok::<Option<i64>, Fault>(self.ticket_id)
        &&& text_reading(e, "summary"@) == Ok::<Option<Seq<char>>, Fault>(opt_text(self.summary))
        &&& text_reading(e, "ticket-type"@) == Ok::<Option<Seq<char>>, Fault>(opt_text(self.ticket_type))
        &&& text_reading(e, "description"@) == Ok::<Option<Seq<char>>, Fault>(opt_text(self.description))
        &&& int_reading(e, "priority-id"@) == Ok::<Option<i64>, Fault>(self.priority_id)
        &&& int_reading(e, "status-id"@) == Ok::<Option<i64>, Fault>(self.status_id)
        &&& int_reading(e, "category-id"@) == Ok::<Option<i64>, Fault>(self.category_id)
        &&& int_reading(e, "milestone-id"@) == Ok::<Option<i64>, Fault>(self.milestone_id)
        &&& int_reading(e, "assignee-id"@) == Ok::<Option<i64>, Fault>(self.assignee_id)
        &&& int_reading(e, "reporter-id"@) == Ok::<Option<i64>, Fault>(self.reporter_id)
        &&& text_reading(e, "assignee"@) == Ok::<Option<Seq<char>>, Fault>(opt_text(self.assignee))
        &&& text_reading(e, "reporter"@) == Ok::<Option<Seq<char>>, Fault>(opt_text(self.reporter))
        &&& text_reading(e, "tags"@) == Ok::<Option<Seq<char>>, Fault>(opt_text(self.tags))
    }

    open spec fn first_fault(e: ElementView) -> Option<Fault> {
        or_fault(
            fault_of(int_reading(e, "ticket-id"@)),
            or_fault(
                fault_of(text_reading(e, "summary"@)),
                or_fault(
                    fault_of(text_reading(e, "ticket-type"@)),
                    or_fault(
                        fault_of(text_reading(e, "description"@)),
                        or_fault(
                            fault_of(int_reading(e, "priority-id"@)),
                            or_fault(
                                fault_of(int_reading(e, "status-id"@)),
                                or_fault(
                                    fault_of(int_reading(e, "category-id"@)),
                                    or_fault(
                                        fault_of(int_reading(e, "milestone-id"@)),
                                        or_fault(
                                            fault_of(int_reading(e, "assignee-id"@)),
                                            or_fault(
                                                fault_of(int_reading(e, "reporter-id"@)),
                                                or_fault(
                                                    fault_of(text_reading(e, "assignee"@)),
                                                    or_fault(
                                                        fault_of(text_reading(e, "reporter"@)),
                                                        or_fault(
                                                            fault_of(text_reading(e, "tags"@)),
                                                            None,
                                                        ),
                                                    ),
                                                ),
                                            ),
                                        ),
                                    ),
                                ),
                            ),
                        ),
                    ),
                ),
            ),
        )
    }

    fn root() -> (name: &'static str) {
        "ticket"
    }

    fn from_element(e: &Element) -> (r: Result<Ticket, DecodeError>) {
        let ticket_id = match e.int_field("ticket-id") {
            Ok(v) => v,
            Err(x) => return Err(x),
        };
        let summary = match e.text_field("summary") {
            Ok(v) => v,
            Err(x) => return Err(x),
        };
        let ticket_type = match e.text_field("ticket-type") {
            Ok(v) => v,
            Err(x) => return Err(x),
        };
        let description = match e.text_field("description") {
            Ok(v) => v,
            Err(x) => return Err(x),
        };
        let priority_id = match e.int_field("priority-id") {
            Ok(v) => v,
            Err(x) => return Err(x),
        };
        let status_id = match e.int_field("status-id") {
            Ok(v) => v,
            Err(x) => return Err(x),
        };
        let category_id = match e.int_field("category-id") {
            Ok(v) => v,
            Err(x) => return Err(x),
        };
        let milestone_id = match e.int_field("milestone-id") {
            Ok(v) => v,
            Err(x) => return Err(x),
        };
        let assignee_id = match e.int_field("assignee-id") {
            Ok(v) => v,
            Err(x) => return Err(x),
        };
        let reporter_id = match e.int_field("reporter-id") {
            Ok(v) => v,
            Err(x) => return Err(x),
        };
        let assignee = match e.text_field("assignee") {
            Ok(v) => v,
            Err(x) => return Err(x),
        };
        let reporter = match e.text_field("reporter") {
            Ok(v) => v,
            Err(x) => return Err(x),
        };
        let tags = match e.text_field("tags") {
            Ok(v) => v,
            Err(x) => return Err(x),
        };
        Ok(Ticket { ticket_id, summary, ticket_type, description, priority_id, status_id, category_id, milestone_id, assignee_id, reporter_id, assignee, reporter, tags })
    }
}

/// The tickets of a project, or those that a search found.
#[derive(Debug, Clone, PartialEq, Eq)]
pub struct Tickets {
    pub tickets: Vec<Ticket>,
}

impl Record for Tickets {
    open spec fn root_name() -> Seq<char> {
        "tickets"@
    }

    open spec fn reflects(&self, e: ElementView) -> bool {
        all_reflect(self.tickets@, named(e, "ticket"@))
    }

    open spec fn first_fault(e: ElementView) -> Option<Fault> {
        first_item_fault::<Ticket>(named(e, "ticket"@), named(e, "ticket"@).len())
    }

    fn root() -> (name: &'static str) {
        "tickets"
    }

    fn from_element(e: &Element) -> (r: Result<Tickets, DecodeError>) {
        match decode_list(e, "ticket") {
            Ok(tickets) => Ok(Tickets { tickets }),
            Err(x) => Err(x),
        }
    }
}

/// A note on a ticket, with the changes it made to the ticket.
#[derive(Debug, Clone, PartialEq, Eq)]
pub struct TicketNote {
    pub id: Option<i64>,
    pub content: Option<String>,
    pub time_added: Option<String>,
    pub changes: Option<NoteChanges>,
    pub private: Option<bool>,
}

impl Record for TicketNote {
    open spec fn root_name() -> Seq<char> {
        "ticket-note"@
    }

    open spec fn reflects(&self, e: ElementView) -> bool {
        &&& int_reading(e, "id"@) == Ok::<Option<i64>, Fault>(self.id)
        &&& text_reading(e, "content"@) == Ok::<Option<Seq<char>>, Fault>(opt_text(self.content))
        &&& text_reading(e, "time-added"@) == Ok::<Option<Seq<char>>, Fault>(opt_text(self.time_added))
        &&& match only_child(e, "changes"@) {
            Ok(Some(c)) => self.changes matches Some(v) && v.reflects(c),
            Ok(None) => self.changes is None,
            Err(_) => false,
        }
        &&& bool_reading(e, "private"@) == Ok::<Option<bool>, Fault>(self.private)
    }

    open spec fn first_fault(e: ElementView) -> Option<Fault> {
        or_fault(
            fault_of(int_reading(e, "id"@)),
            or_fault(
                fault_of(text_reading(e, "content"@)),
                or_fault(
                    fault_of(text_reading(e, "time-added"@)),
                    or_fault(
                        match only_child(e, "changes"@) {
                            Err(f) => Some(f),
                            Ok(None) => None,
                            Ok(Some(c)) => NoteChanges::first_fault(c),
                        },
                        or_fault(
                            fault_of(bool_reading(e, "private"@)),
                            None,
                        ),
                    ),
                ),
            ),
        )
    }

    fn root() -> (name: &'static str) {
        "ticket-note"
    }

    fn from_element(e: &Element) -> (r: Result<TicketNote, DecodeError>) {
        let id = match e.int_field("id") {
            Ok(v) => v,
            Err(x) => return Err(x),
        };
        let content = match e.text_field("content") {
            Ok(v) => v,
            Err(x) => return Err(x),
        };
        let time_added = match e.text_field("time-added") {
            Ok(v) => v,
            Err(x) => return Err(x),
        };
        let changes = match e.child("changes") {
            Err(x) => return Err(x),
            Ok(None) => None,
            Ok(Some(c)) => match NoteChanges::from_element(c) {
                Ok(v) => Some(v),
                Err(x) => return Err(x),
            },
        };
        let private = match e.bool_field("private") {
            Ok(v) => v,
            Err(x) => return Err(x),
        };
        Ok(TicketNote { id, content, time_added, changes, private })
    }
}

/// What a note changes on its ticket; a field is `None` where the note leaves it alone.
#[derive(Debug, Clone, PartialEq, Eq)]
pub struct NoteChanges {
    pub status_id: Option<i64>,
    pub priority_id: Option<i64>,
    pub category_id: Option<i64>,
    pub assignee_id: Option<i64>,
    pub milestone_id: Option<i64>,
    pub subject: Option<String>,
}

impl Record for NoteChanges {
    open spec fn root_name() -> Seq<char> {
        "changes"@
    }

    open spec fn reflects(&self, e: ElementView) -> bool {
        &&& int_reading(e, "status-id"@) == Ok::<Option<i64>, Fault>(self.status_id)
        &&& int_reading(e, "priority-id"@) == Ok::<Option<i64>, Fault>(self.priority_id)
        &&& int_reading(e, "category-id"@) == Ok::<Option<i64>, Fault>(self.category_id)
        &&& int_reading(e, "assignee-id"@) == Ok::<Option<i64>, Fault>(self.assignee_id)
        &&& int_reading(e, "milestone-id"@) == Ok::<Option<i64>, Fault>(self.milestone_id)
        &&& text_reading(e, "subject"@) == Ok::<Option<Seq<char>>, Fault>(opt_text(self.subject))
    }

    open spec fn first_fault(e: ElementView) -> Option<Fault> {
        or_fault(
            fault_of(int_reading(e, "status-id"@)),
            or_fault(
                fault_of(int_reading(e, "priority-id"@)),
                or_fault(
                    fault_of(int_reading(e, "category-id"@)),
                    or_fault(
                        fault_of(int_reading(e, "assignee-id"@)),
                        or_fault(
                            fault_of(int_reading(e, "milestone-id"@)),
                            or_fault(
                                fault_of(text_reading(e, "subject"@)),
                                None,
                            ),
                        ),
                    ),
                ),
            ),
        )
    }

    fn root() -> (name: &'static str) {
        "changes"
    }

    fn from_element(e: &Element) -> (r: Result<NoteChanges, DecodeError>) {
        let status_id = match e.int_field("status-id") {
            Ok(v) => v,
            Err(x) => return Err(x),
        };
        let priority_id = match e.int_field("priority-id") {
            Ok(v) => v,
            Err(x) => return Err(x),
        };
        let category_id = match e.int_field("category-id") {
            Ok(v) => v,
            Err(x) => return Err(x),
        };
        let assignee_id = match e.int_field("assignee-id") {
            Ok(v) => v,
            Err(x) => return Err(x),
        };
        let milestone_id = match e.int_field("milestone-id") {
            Ok(v) => v,
            Err(x) => return Err(x),
        };
        let subject = match e.text_field("subject") {
            Ok(v) => v,
            Err(x) => return Err(x),
        };
        Ok(NoteChanges { status_id, priority_id, category_id, assignee_id, milestone_id, subject })
    }
}

/// The notes of a ticket.
#[derive(Debug, Clone, PartialEq, Eq)]
pub struct TicketNotes {
    pub notes: Vec<TicketNote>,
}

impl Record for TicketNotes {
    open spec fn root_name() -> Seq<char> {
        "ticket-notes"@
    }

    open spec fn reflects(&self, e: ElementView) -> bool {
        all_reflect(self.notes@, named(e, "ticket-note"@))
    }

    open spec fn first_fault(e: ElementView) -> Option<Fault> {
        first_item_fault::<TicketNote>(named(e, "ticket-note"@), named(e, "ticket-note"@).len())
    }

    fn root() -> (name: &'static str) {
        "ticket-notes"
    }

    fn from_element(e: &Element) -> (r: Result<TicketNotes, DecodeError>) {
        match decode_list(e, "ticket-note") {
            Ok(notes) => Ok(TicketNotes { notes }),
            Err(x) => Err(x),
        }
    }
}

/// A status that tickets of a project can have.
#[derive(Debug, Clone, PartialEq, Eq)]
pub struct TicketStatus {
    pub id: Option<i64>,
    pub name: Option<String>,
    pub background_colour: Option<String>,
    pub order: Option<i64>,
    pub treat_as_closed: Option<bool>,
}

impl Record for TicketStatus {
    open spec fn root_name() -> Seq<char> {
        "ticketing-status"@
    }

    open spec fn reflects(&self, e: ElementView) -> bool {
        &&& int_reading(e, "id"@) == Ok::<Option<i64>, Fault>(self.id)
        &&& text_reading(e, "name"@) == Ok::<Option<Seq<char>>, Fault>(opt_text(self.name))
        &&& text_reading(e, "background-colour"@) == Ok::<Option<Seq<char>>, Fault>(opt_text(self.background_colour))
        &&& int_reading(e, "order"@) == Ok::<Option<i64>, Fault>(self.order)
        &&& bool_reading(e, "treat-as-closed"@) == Ok::<Option<bool>, Fault>(self.treat_as_closed)
    }

    open spec fn first_fault(e: ElementView) -> Option<Fault> {
        or_fault(
            fault_of(int_reading(e, "id"@)),
            or_fault(
                fault_of(text_reading(e, "name"@)),
                or_fault(
                    fault_of(text_reading(e, "background-colour"@)),
                    or_fault(
                        fault_of(int_reading(e, "order"@)),
                        or_fault(
                            fault_of(bool_reading(e, "treat-as-closed"@)),
                            None,
                        ),
                    ),
                ),
            ),
        )
    }

    fn root() -> (name: &'static str) {
        "ticketing-status"
    }

    fn from_element(e: &Element) -> (r: Result<TicketStatus, DecodeError>) {
        let id = match e.int_field("id") {
            Ok(v) => v,
            Err(x) => return Err(x),
        };
        let name = match e.text_field("name") {
            Ok(v) => v,
            Err(x) => return Err(x),
        };
        let background_colour = match e.text_field("background-colour") {
            Ok(v) => v,
            Err(x) => return Err(x),
        };
        let order = match e.int_field("order") {
            Ok(v) => v,
            Err(x) => return Err(x),
        };
        let treat_as_closed = match e.bool_field("treat-as-closed") {
            Ok(v) => v,
            Err(x) => return Err(x),
        };
        Ok(TicketStatus { id, name, background_colour, order, treat_as_closed })
    }
}

/// The ticket statuses of a project.
#[derive(Debug, Clone, PartialEq, Eq)]
pub struct TicketStatuses {
    pub statuses: Vec<TicketStatus>,
}

impl Record for TicketStatuses {
    open spec fn root_name() -> Seq<char> {
        "ticketing-statuses"@
    }

    open spec fn reflects(&self, e: ElementView) -> bool {
        all_reflect(self.statuses@, named(e, "ticketing-status"@))
    }

    open spec fn first_fault(e: ElementView) -> Option<Fault> {
        first_item_fault::<TicketStatus>(named(e, "ticketing-status"@), named(e, "ticketing-status"@).len())
    }

    fn root() -> (name: &'static str) {
        "ticketing-statuses"
    }

    fn from_element(e: &Element) -> (r: Result<TicketStatuses, DecodeError>) {
        match decode_list(e, "ticketing-status") {
            Ok(statuses) => Ok(TicketStatuses { statuses }),
            Err(x) => Err(x),
        }
    }
}

/// A priority that tickets of a project can have.
#[derive(Debug, Clone, PartialEq, Eq)]
pub struct TicketPriority {
    pub id: Option<i64>,
    pub name: Option<String>,
    pub colour: Option<String>,
    pub default: Option<bool>,
    pub position: Option<i64>,
}

impl Record for TicketPriority {
    open spec fn root_name() -> Seq<char> {
        "ticketing-priority"@
    }

    open spec fn reflects(&self, e: ElementView) -> bool {
        &&& int_reading(e, "id"@) == Ok::<Option<i64>, Fault>(self.id)
        &&& text_reading(e, "name"@) == Ok::<Option<Seq<char>>, Fault>(opt_text(self.name))
        &&& text_reading(e, "colour"@) == Ok::<Option<Seq<char>>, Fault>(opt_text(self.colour))
        &&& bool_reading(e, "default"@) == Ok::<Option<bool>, Fault>(self.default)
        &&& int_reading(e, "position"@) == Ok::<Option<i64>, Fault>(self.position)
    }

    open spec fn first_fault(e: ElementView) -> Option<Fault> {
        or_fault(
            fault_of(int_reading(e, "id"@)),
            or_fault(
                fault_of(text_reading(e, "name"@)),
                or_fault(
                    fault_of(text_reading(e, "colour"@)),
                    or_fault(
                        fault_of(bool_reading(e, "default"@)),
                        or_fault(
                            fault_of(int_reading(e, "position"@)),
                            None,
                        ),
                    ),
                ),
            ),
        )
    }

    fn root() -> (name: &'static str) {
        "ticketing-priority"
    }

    fn from_element(e: &Element) -> (r: Result<TicketPriority, DecodeError>) {
        let id = match e.int_field("id") {
            Ok(v) => v,
            Err(x) => return Err(x),
        };
        let name = match e.text_field("name") {
            Ok(v) => v,
            Err(x) => return Err(x),
        };
        let colour = match e.text_field("colour") {
            Ok(v) => v,
            Err(x) => return Err(x),
        };
        let default = match e.bool_field("default") {
            Ok(v) => v,
            Err(x) => return Err(x),
        };
        let position = match e.int_field("position") {
            Ok(v) => v,
            Err(x) => return Err(x),
        };
        Ok(TicketPriority { id, name, colour, default, position })
    }
}

/// The ticket priorities of a project.
#[derive(Debug, Clone, PartialEq, Eq)]
pub struct TicketPriorities {
    pub priorities: Vec<TicketPriority>,
}

impl Record for TicketPriorities {
    open spec fn root_name() -> Seq<char> {
        "ticketing-priorities"@
    }

    open spec fn reflects(&self, e: ElementView) -> bool {
        all_reflect(self.priorities@, named(e, "ticketing-priority"@))
    }

    open spec fn first_fault(e: ElementView) -> Option<Fault> {
        first_item_fault::<TicketPriority>(named(e, "ticketing-priority"@), named(e, "ticketing-priority"@).len())
    }

    fn root() -> (name: &'static str) {
        "ticketing-priorities"
    }

    fn from_element(e: &Element) -> (r: Result<TicketPriorities, DecodeError>) {
        match decode_list(e, "ticketing-priority") {
            Ok(priorities) => Ok(TicketPriorities { priorities }),
            Err(x) => Err(x),
        }
    }
}

/// A category that tickets of a project can have.
#[derive(Debug, Clone, PartialEq, Eq)]
pub struct TicketCategory {
    pub id: Option<i64>,
    pub name: Option<String>,
}

impl Record for TicketCategory {
    open spec fn root_name() -> Seq<char> {
        "ticketing-category"@
    }

    open spec fn reflects(&self, e: ElementView) -> bool {
        &&& int_reading(e, "id"@) == Ok::<Option<i64>, Fault>(self.id)
        &&& text_reading(e, "name"@) == Ok::<Option<Seq<char>>, Fault>(opt_text(self.name))
    }

    open spec fn first_fault(e: ElementView) -> Option<Fault> {
        or_fault(
            fault_of(int_reading(e, "id"@)),
            or_fault(
                fault_of(text_reading(e, "name"@)),
                None,
            ),
        )
    }

    fn root() -> (name: &'static str) {
        "ticketing-category"
    }

    fn from_element(e: &Element) -> (r: Result<TicketCategory, DecodeError>) {
        let id = match e.int_field("id") {
            Ok(v) => v,
            Err(x) => return Err(x),
        };
        let name = match e.text_field("name") {
            Ok(v) => v,
            Err(x) => return Err(x),
        };
        Ok(TicketCategory { id, name })
    }
}

/// The ticket categories of a project.
#[derive(Debug, Clone, PartialEq, Eq)]
pub struct TicketCategories {
    pub categories: Vec<TicketCategory>,
}

impl Record for TicketCategories {
    open spec fn root_name() -> Seq<char> {
        "ticketing-categories"@
    }

    open spec fn reflects(&self, e: ElementView) -> bool {
        all_reflect(self.categories@, named(e, "ticketing-category"@))
    }

    open spec fn first_fault(e: ElementView) -> Option<Fault> {
        first_item_fault::<TicketCategory>(named(e, "ticketing-category"@), named(e, "ticketing-category"@).len())
    }

    fn root() -> (name: &'static str) {
        "ticketing-categories"
    }

    fn from_element(e: &Element) -> (r: Result<TicketCategories, DecodeError>) {
        match decode_list(e, "ticketing-category") {
            Ok(categories) => Ok(TicketCategories { categories }),
            Err(x) => Err(x),
        }
    }
}

/// A type that tickets of a project can have.
#[derive(Debug, Clone, PartialEq, Eq)]
pub struct TicketType {
    pub id: Option<i64>,
    pub name: Option<String>,
    pub icon: Option<String>,
}

impl Record for TicketType {
    open spec fn root_name() -> Seq<char> {
        "ticketing-type"@
    }

    open spec fn reflects(&self, e: ElementView) -> bool {
        &&& int_reading(e, "id"@) == Ok::<Option<i64>, Fault>(self.id)
        &&& text_reading(e, "name"@) == Ok::<Option<Seq<char>>, Fault>(opt_text(self.name))
        &&& text_reading(e, "icon"@) == Ok::<Option<Seq<char>>, Fault>(opt_text(self.icon))
    }

    open spec fn first_fault(e: ElementView) -> Option<Fault> {
        or_fault(
            fault_of(int_reading(e, "id"@)),
            or_fault(
                fault_of(text_reading(e, "name"@)),
                or_fault(
                    fault_of(text_reading(e, "icon"@)),
                    None,
                ),
            ),
        )
    }

    fn root() -> (name: &'static str) {
        "ticketing-type"
    }

    fn from_element(e: &Element) -> (r: Result<TicketType, DecodeError>) {
        let id = match e.int_field("id") {
            Ok(v) => v,
            Err(x) => return Err(x),
        };
        let name = match e.text_field("name") {
            Ok(v) => v,
            Err(x) => return Err(x),
        };
        let icon = match e.text_field("icon") {
            Ok(v) => v,
            Err(x) => return Err(x),
        };
        Ok(TicketType { id, name, icon })
    }
}

/// The ticket types of a project.
#[derive(Debug, Clone, PartialEq, Eq)]
pub struct TicketTypes {
    pub types: Vec<TicketType>,
}

impl Record for TicketTypes {
    open spec fn root_name() -> Seq<char> {
        "ticketing-types"@
    }

    open spec fn reflects(&self, e: ElementView) -> bool {
        all_reflect(self.types@, named(e, "ticketing-type"@))
    }

    open spec fn first_fault(e: ElementView) -> Option<Fault> {
        first_item_fault::<TicketType>(named(e, "ticketing-type"@), named(e, "ticketing-type"@).len())
    }

    fn root() -> (name: &'static str) {
        "ticketing-types"
    }

    fn from_element(e: &Element) -> (r: Result<TicketTypes, DecodeError>) {
        match decode_list(e, "ticketing-type") {
            Ok(types) => Ok(TicketTypes { types }),
            Err(x) => Err(x),
        }
    }
}

/// A user who watches a ticket.
#[derive(Debug, Clone, PartialEq, Eq)]
pub struct Watcher {
    pub watcher: Option<i64>,
}

impl Record for Watcher {
    open spec fn root_name() -> Seq<char> {
        "watcher"@
    }

    open spec fn reflects(&self, e: ElementView) -> bool {
        &&& int_reading(e, "watcher"@) == Ok::<Option<i64>, Fault>(self.watcher)
    }

    open spec fn first_fault(e: ElementView) -> Option<Fault> {
        or_fault(
            fault_of(int_reading(e, "watcher"@)),
            None,
        )
    }

    fn root() -> (name: &'static str) {
        "watcher"
    }

    fn from_element(e: &Element) -> (r: Result<Watcher, DecodeError>) {
        let watcher = match e.int_field("watcher") {
            Ok(v) => v,
            Err(x) => return Err(x),
        };
        Ok(Watcher { watcher })
    }
}

/// The watchers of a ticket.
#[derive(Debug, Clone, PartialEq, Eq)]
pub struct Watchers {
    pub watchers: Vec<Watcher>,
}

impl Record for Watchers {
    open spec fn root_name() -> Seq<char> {
        "watchers"@
    }

    open spec fn reflects(&self, e: ElementView) -> bool {
        all_reflect(self.watchers@, named(e, "watcher"@))
    }

    open spec fn first_fault(e: ElementView) -> Option<Fault> {
        first_item_fault::<Watcher>(named(e, "watcher"@), named(e, "watcher"@).len())
    }

    fn root() -> (name: &'static str) {
        "watchers"
    }

    fn from_element(e: &Element) -> (r: Result<Watchers, DecodeError>) {
        match decode_list(e, "watcher") {
            Ok(watchers) => Ok(Watchers { watchers }),
            Err(x) => Err(x),
        }
    }
}

/// A milestone of a project. The estimated time is kept as the text that writes it.
#[derive(Debug, Clone, PartialEq, Eq)]
pub struct Milestone {
    pub id: Option<i64>,
    pub name: Option<String>,
    pub description: Option<String>,
    pub start_at: Option<String>,
    pub deadline: Option<String>,
    pub parent_id: Option<i64>,
    pub estimated_time: Option<String>,
    pub responsible_user_id: Option<i64>,
    pub status: Option<String>,
}

impl Record for Milestone {
    open spec fn root_name() -> Seq<char> {
        "ticketing-milestone"@
    }

    open spec fn reflects(&self, e: ElementView) -> bool {
        &&& int_reading(e, "id"@) == Ok::<Option<i64>, Fault>(self.id)
        &&& text_reading(e, "name"@) == Ok::<Option<Seq<char>>, Fault>(opt_text(self.name))
        &&& text_reading(e, "description"@) == Ok::<Option<Seq<char>>, Fault>(opt_text(self.description))
        &&& text_reading(e, "start-at"@) == Ok::<Option<Seq<char>>, Fault>(opt_text(self.start_at))
        &&& text_reading(e, "deadline"@) == Ok::<Option<Seq<char>>, Fault>(opt_text(self.deadline))
        &&& int_reading(e, "parent-id"@) == Ok::<Option<i64>, Fault>(self.parent_id)
        &&& number_reading(e, "estimated-time"@) == Ok::<Option<Seq<char>>, Fault>(opt_text(self.estimated_time))
        &&& int_reading(e, "responsible-user-id"@) == Ok::<Option<i64>, Fault>(self.responsible_user_id)
        &&& text_reading(e, "status"@) == Ok::<Option<Seq<char>>, Fault>(opt_text(self.status))
    }

    open spec fn first_fault(e: ElementView) -> Option<Fault> {
        or_fault(
            fault_of(int_reading(e, "id"@)),
            or_fault(
                fault_of(text_reading(e, "name"@)),
                or_fault(
                    fault_of(text_reading(e, "description"@)),
                    or_fault(
                        fault_of(text_reading(e, "start-at"@)),
                        or_fault(
                            fault_of(text_reading(e, "deadline"@)),
                            or_fault(
                                fault_of(int_reading(e, "parent-id"@)),
                                or_fault(
                                    fault_of(number_reading(e, "estimated-time"@)),
                                    or_fault(
                                        fault_of(int_reading(e, "responsible-user-id"@)),
                                        or_fault(
                                            fault_of(text_reading(e, "status"@)),
                                            None,
                                        ),
                                    ),
                                ),
                            ),
                        ),
                    ),
                ),
            ),
        )
    }

    fn root() -> (name: &'static str) {
        "ticketing-milestone"
    }

    fn from_element(e: &Element) -> (r: Result<Milestone, DecodeError>) {
        let id = match e.int_field("id") {
            Ok(v) => v,
            Err(x) => return Err(x),
        };
        let name = match e.text_field("name") {
            Ok(v) => v,
            Err(x) => return Err(x),
        };
        let description = match e.text_field("description") {
            Ok(v) => v,
            Err(x) => return Err(x),
        };
        let start_at = match e.text_field("start-at") {
            Ok(v) => v,
            Err(x) => return Err(x),
        };
        let deadline = match e.text_field("deadline") {
            Ok(v) => v,
            Err(x) => return Err(x),
        };
        let parent_id = match e.int_field("parent-id") {
            Ok(v) => v,
            Err(x) => return Err(x),
        };
        let estimated_time = match e.number_field("estimated-time") {
            Ok(v) => v,
            Err(x) => return Err(x),
        };
        let responsible_user_id = match e.int_field("responsible-user-id") {
            Ok(v) => v,
            Err(x) => return Err(x),
        };
        let status = match e.text_field("status") {
            Ok(v) => v,
            Err(x) => return Err(x),
        };
        Ok(Milestone { id, name, description, start_at, deadline, parent_id, estimated_time, responsible_user_id, status })
    }
}

/// The milestones of a project.
#[derive(Debug, Clone, PartialEq, Eq)]
pub struct Milestones {
    pub milestones: Vec<Milestone>,
}

impl Record for Milestones {
    open spec fn root_name() -> Seq<char> {
        "ticketing-milestones"@
    }

    open spec fn reflects(&self, e: ElementView) -> bool {
        all_reflect(self.milestones@, named(e, "ticketing-milestone"@))
    }

    open spec fn first_fault(e: ElementView) -> Option<Fault> {
        first_item_fault::<Milestone>(named(e, "ticketing-milestone"@), named(e, "ticketing-milestone"@).len())
    }

    fn root() -> (name: &'static str) {
        "ticketing-milestones"
    }

    fn from_element(e: &Element) -> (r: Result<Milestones, DecodeError>) {
        match decode_list(e, "ticketing-milestone") {
            Ok(milestones) => Ok(Milestones { milestones }),
            Err(x) => Err(x),
        }
    }
}

/// An entry of an activity feed.
#[derive(Debug, Clone, PartialEq, Eq)]
pub struct Event {
    pub title: Option<String>,
    pub event_type: Option<String>,
    pub timestamp: Option<String>,
    pub html_title: Option<String>,
    pub html_text: Option<String>,
    pub content: Option<String>,
    pub project_permalink: Option<String>,
    pub project_name: Option<String>,
    pub subject: Option<String>,
    pub number: Option<i64>,
    pub name: Option<String>,
}

impl Record for Event {
    open spec fn root_name() -> Seq<char> {
        "event"@
    }

    open spec fn reflects(&self, e: ElementView) -> bool {
        &&& text_reading(e, "title"@) == Ok::<Option<Seq<char>>, Fault>(opt_text(self.title))
        &&& text_reading(e, "type"@) == Ok::<Option<Seq<char>>, Fault>(opt_text(self.event_type))
        &&& text_reading(e, "timestamp"@) == Ok::<Option<Seq<char>>, Fault>(opt_text(self.timestamp))
        &&& text_reading(e, "html-title"@) == Ok::<Option<Seq<char>>, Fault>(opt_text(self.html_title))
        &&& text_reading(e, "html-text"@) == Ok::<Option<Seq<char>>, Fault>(opt_text(self.html_text))
        &&& text_reading(e, "content"@) == Ok::<Option<Seq<char>>, Fault>(opt_text(self.content))
        &&& text_reading(e, "project-permalink"@) == Ok::<Option<Seq<char>>, Fault>(opt_text(self.project_permalink))
        &&& text_reading(e, "project-name"@) == Ok::<Option<Seq<char>>, Fault>(opt_text(self.project_name))
        &&& text_reading(e, "subject"@) == Ok::<Option<Seq<char>>, Fault>(opt_text(self.subject))
        &&& int_reading(e, "number"@) == Ok::<Option<i64>, Fault>(self.number)
        &&& text_reading(e, "name"@) == Ok::<Option<Seq<char>>, Fault>(opt_text(self.name))
    }

    open spec fn first_fault(e: ElementView) -> Option<Fault> {
        or_fault(
            fault_of(text_reading(e, "title"@)),
            or_fault(
                fault_of(text_reading(e, "type"@)),
                or_fault(
                    fault_of(text_reading(e, "timestamp"@)),
                    or_fault(
                        fault_of(text_reading(e, "html-title"@)),
                        or_fault(
                            fault_of(text_reading(e, "html-text"@)),
                            or_fault(
                                fault_of(text_reading(e, "content"@)),
                                or_fault(
                                    fault_of(text_reading(e, "project-permalink"@)),
                                    or_fault(
                                        fault_of(text_reading(e, "project-name"@)),
                                        or_fault(
                                            fault_of(text_reading(e, "subject"@)),
                                            or_fault(
                                                fault_of(int_reading(e, "number"@)),
                                                or_fault(
                                                    fault_of(text_reading(e, "name"@)),
                                                    None,
                                                ),
                                            ),
                                        ),
                                    ),
                                ),
                            ),
                        ),
                    ),
                ),
            ),
        )
    }

    fn root() -> (name: &'static str) {
        "event"
    }

    fn from_element(e: &Element) -> (r: Result<Event, DecodeError>) {
        let title = match e.text_field("title") {
            Ok(v) => v,
            Err(x) => return Err(x),
        };
        let event_type = match e.text_field("type") {
            Ok(v) => v,
            Err(x) => return Err(x),
        };
        let timestamp = match e.text_field("timestamp") {
            Ok(v) => v,
            Err(x) => return Err(x),
        };
        let html_title = match e.text_field("html-title") {
            Ok(v) => v,
            Err(x) => return Err(x),
        };
        let html_text = match e.text_field("html-text") {
            Ok(v) => v,
            Err(x) => return Err(x),
        };
        let content = match e.text_field("content") {
            Ok(v) => v,
            Err(x) => return Err(x),
        };
        let project_permalink = match e.text_field("project-permalink") {
            Ok(v) => v,
            Err(x) => return Err(x),
        };
        let project_name = match e.text_field("project-name") {
            Ok(v) => v,
            Err(x) => return Err(x),
        };
        let subject = match e.text_field("subject") {
            Ok(v) => v,
            Err(x) => return Err(x),
        };
        let number = match e.int_field("number") {
            Ok(v) => v,
            Err(x) => return Err(x),
        };
        let name = match e.text_field("name") {
            Ok(v) => v,
            Err(x) => return Err(x),
        };
        Ok(Event { title, event_type, timestamp, html_title, html_text, content, project_permalink, project_name, subject, number, name })
    }
}

/// An activity feed.
#[derive(Debug, Clone, PartialEq, Eq)]
pub struct Events {
    pub events: Vec<Event>,
}

impl Record for Events {
    open spec fn root_name() -> Seq<char> {
        "events"@
    }

    open spec fn reflects(&self, e: ElementView) -> bool {
        all_reflect(self.events@, named(e, "event"@))
    }

    open spec fn first_fault(e: ElementView) -> Option<Fault> {
        first_item_fault::<Event>(named(e, "event"@), named(e, "event"@).len())
    }

    fn root() -> (name: &'static str) {
        "events"
    }

    fn from_element(e: &Element) -> (r: Result<Events, DecodeError>) {
        match decode_list(e, "event") {
            Ok(events) => Ok(Events { events }),
            Err(x) => Err(x),
        }
    }
}

} // verus!
