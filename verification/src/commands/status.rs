//! The dashboard of the `status` command: a line for each project and the
//! latest entries of the account's activity.

use vstd::prelude::*;
use vstd::string::*;
use crate::api::models::{Event, Project};

verus! {

/// How many entries of the activity feed the dashboard shows.
pub const RECENT_EVENTS: usize = 10;

/// A project on the dashboard.
#[derive(Debug, Clone, PartialEq, Eq)]
pub struct ProjectSummary {
    pub name: String,
    pub permalink: String,
    pub status: String,
    pub open_tickets: i64,
    pub closed_tickets: i64,
    pub total_tickets: i64,
}

/// An entry of the activity feed on the dashboard.
#[derive(Debug, Clone, PartialEq, Eq)]
pub struct ActivityItem {
    pub event_type: String,
    pub timestamp: String,
    pub title: String,
}

/// The dashboard.
#[derive(Debug, Clone, PartialEq, Eq)]
pub struct StatusDashboard {
    pub projects: Vec<ProjectSummary>,
    pub recent_activity: Vec<ActivityItem>,
}

/// The text of an optional field, empty where there is none.
pub open spec fn text_or_empty(s: Option<String>) -> Seq<char> {
    match s {
        Some(t) => t@,
        None => Seq::empty(),
    }
}

/// The number of an optional field, 0 where there is none.
pub open spec fn number_or_zero(n: Option<i64>) -> i64 {
    match n {
        Some(v) => v,
        None => 0,
    }
}

/// Whether `summary` is the line of `project`: its name, permalink and
/// status, empty where absent, and its ticket counts, 0 where absent.
pub open spec fn summarizes(summary: ProjectSummary, project: Project) -> bool {
    &&& summary.name@ == text_or_empty(project.name)
    &&& summary.permalink@ == text_or_empty(project.permalink)
    &&& summary.status@ == text_or_empty(project.status)
    &&& summary.open_tickets == number_or_zero(project.open_tickets)
    &&& summary.closed_tickets == number_or_zero(project.closed_tickets)
    &&& summary.total_tickets == number_or_zero(project.total_tickets)
}

/// Whether `item` is the entry of `event`: its type, time and title, each
/// empty where absent.
pub open spec fn recounts(item: ActivityItem, event: Event) -> bool {
    &&& item.event_type@ == text_or_empty(event.event_type)
    &&& item.timestamp@ == text_or_empty(event.timestamp)
    &&& item.title@ == text_or_empty(event.title)
}

fn text_of(s: &Option<String>) -> (r: String)
    ensures
        r@ == text_or_empty(*s),
{
    match s {
        Some(t) => t.clone(),
        None => String::new(),
    }
}

fn number_of(n: Option<i64>) -> (r: i64)
    ensures
        r == number_or_zero(n),
{
    match n {
        Some(v) => v,
        None => 0,
    }
}

/// The dashboard for `projects` and `events`: every project in order,
/// and the first ten events in order, or all where there are fewer.
pub fn summarize(projects: &Vec<Project>, events: &Vec<Event>) -> (d: StatusDashboard)
    ensures
        d.projects@.len() == projects@.len(),
        forall|i: int| 0 <= i < projects@.len() ==> summarizes(#[trigger] d.projects@[i], projects@[i]),
        d.recent_activity@.len() == if events@.len() < RECENT_EVENTS {
            events@.len()
        } else {
            RECENT_EVENTS as nat
        },
        forall|i: int|
            0 <= i < d.recent_activity@.len() ==> recounts(
                #[trigger] d.recent_activity@[i],
                events@[i],
            ),
{
    let mut summaries: Vec<ProjectSummary> = Vec::new();
    let mut i: usize = 0;
    while i < projects.len()
        invariant
            i <= projects.len(),
            summaries@.len() == i,
            forall|k: int| 0 <= k < i ==> summarizes(#[trigger] summaries@[k], projects@[k]),
        decreases projects.len() - i,
    {
        let p = &projects[i];
        summaries.push(
            ProjectSummary {
                name: text_of(&p.name),
                permalink: text_of(&p.permalink),
                status: text_of(&p.status),
                open_tickets: number_of(p.open_tickets),
                closed_tickets: number_of(p.closed_tickets),
                total_tickets: number_of(p.total_tickets),
            },
        );
        i += 1;
    }
    let shown: usize = if events.len() < RECENT_EVENTS {
        events.len()
    } else {
        RECENT_EVENTS
    };
    let mut items: Vec<ActivityItem> = Vec::new();
    let mut j: usize = 0;
    while j < shown
        invariant
            j <= shown <= events.len(),
            items@.len() == j,
            forall|k: int| 0 <= k < j ==> recounts(#[trigger] items@[k], events@[k]),
        decreases shown - j,
    {
        let e = &events[j];
        items.push(
            ActivityItem {
                event_type: text_of(&e.event_type),
                timestamp: text_of(&e.timestamp),
                title: text_of(&e.title),
            },
        );
        j += 1;
    }
    StatusDashboard { projects: summaries, recent_activity: items }
}

} // verus!
