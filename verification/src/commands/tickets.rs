//! What the ticket commands decide.

use vstd::prelude::*;
use vstd::string::*;
use crate::api::models::NoteChanges;

verus! {

/// The changes that a note makes: `None` where no change is asked for,
/// else all six fields as given.
pub fn note_changes(
    status_id: Option<i64>,
    priority_id: Option<i64>,
    assignee_id: Option<i64>,
    category_id: Option<i64>,
    milestone_id: Option<i64>,
    subject: Option<String>,
) -> (r: Option<NoteChanges>)
    ensures
        r is None <==> (status_id is None && priority_id is None && assignee_id is None
            && category_id is None && milestone_id is None && subject is None),
        r matches Some(ch) ==> ch == (NoteChanges {
            status_id,
            priority_id,
            category_id,
            assignee_id,
            milestone_id,
            subject,
        }),
{
    if status_id.is_some() || priority_id.is_some() || assignee_id.is_some()
        || category_id.is_some() || milestone_id.is_some() || subject.is_some() {
        Some(NoteChanges { status_id, priority_id, category_id, assignee_id, milestone_id, subject })
    } else {
        None
    }
}

} // verus!
