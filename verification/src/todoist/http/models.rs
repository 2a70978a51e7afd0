//! The records that the task service's HTTP API returns.

use crate::text::concat_str;
use vstd::prelude::*;

verus! {

/// One page of a cursor-paginated listing.
#[derive(Debug, Clone)]
pub struct CursorResponse<T> {
    pub results: Vec<T>,
    pub next_cursor: Option<String>,
}

#[derive(Debug, Clone)]
pub struct Project {
    pub id: String,
    pub can_assign_tasks: bool,
    pub child_order: i64,
    pub color: String,
    pub creator_uid: Option<String>,
    pub created_at: String,
    pub is_archived: bool,
    pub is_deleted: bool,
    pub is_favorite: bool,
    pub is_frozen: bool,
    pub name: String,
    pub updated_at: Option<String>,
    pub view_style: String,
    pub default_order: i64,
    pub description: String,
    pub public_key: String,
    pub role: Option<String>,
    pub parent_id: Option<String>,
    pub inbox_project: bool,
    pub is_collapsed: bool,
    pub is_shared: bool,
}

/// When a task is due, as the service writes it.
#[derive(Debug, Clone)]
pub struct Due {
    pub date: String,
    pub timezone: Option<String>,
    pub string: String,
    pub lang: String,
    pub is_recurring: bool,
}

/// Whether `NaiveDate::parse_from_str` of `chrono` reads `date` as a calendar
/// date in the format `%Y-%m-%d`.
pub uninterp spec fn parses_as_date(date: Seq<char>) -> bool;

/// Calls `NaiveDate::parse_from_str` with the format `%Y-%m-%d` and says
/// whether it returned a date, which `parses_as_date` names.
#[verifier::external_body]
fn date_parses(date: &str) -> (ok: bool)
    ensures
        ok == parses_as_date(date@),
{
    chrono::NaiveDate::parse_from_str(date, "%Y-%m-%d").is_ok()
}

impl Due {
    /// Whether the due date is a day without a time of day.
    pub fn is_date_only(&self) -> (r: bool)
        ensures
            r == parses_as_date(self.date@),
    {
        date_parses(self.date.as_str())
    }
}

/// Why a due date could not be read.
#[derive(Debug, Clone, Copy, PartialEq, Eq, Structural)]
pub enum DueParseError {
    InvalidFormat,
}

impl DueParseError {
    /// The message that describes this error.
    pub fn message(&self) -> (r: &'static str)
        ensures
            r@ == "Failed to parse date"@,
    {
        "Failed to parse date"
    }
}

#[derive(Debug, Clone)]
pub struct Deadline {
    pub date: String,
    pub lang: String,
}

#[derive(Debug, Clone)]
pub struct Duration {
    pub amount: i64,
    pub unit: String,
}

#[derive(Debug, Clone)]
pub struct Task {
    pub user_id: String,
    pub id: String,
    pub project_id: String,
    pub section_id: Option<String>,
    pub parent_id: Option<String>,
    pub added_by_uid: Option<String>,
    pub assigned_by_uid: Option<String>,
    pub responsible_uid: Option<String>,
    pub labels: Vec<String>,
    pub deadline: Option<Deadline>,
    pub duration: Option<Duration>,
    pub checked: bool,
    pub is_deleted: bool,
    pub added_at: String,
    pub completed_at: Option<String>,
    pub updated_at: Option<String>,
    pub due: Option<Due>,
    pub priority: i64,
    pub child_order: i64,
    pub content: String,
    pub description: String,
    pub day_order: i64,
    pub is_collapsed: bool,
}

/// The address under which the web application shows tasks, before the task's id.
pub open spec fn task_url_prefix() -> Seq<char> {
    "https://app.todoist.com/app/task/"@
}

impl Task {
    /// Where the web application shows the task.
    pub fn get_url(&self) -> (r: String)
        ensures
            r@ == task_url_prefix() + self.id@,
    {
        concat_str("https://app.todoist.com/app/task/", self.id.as_str())
    }
}

#[derive(Debug, Clone)]
pub struct Section {
    pub id: String,
    pub user_id: String,
    pub project_id: String,
    pub added_at: String,
    pub updated_at: Option<String>,
    pub archived_at: Option<String>,
    pub name: String,
    pub section_order: i64,
    pub is_archived: bool,
    pub is_deleted: bool,
    pub is_collapsed: bool,
}

} // verus!
