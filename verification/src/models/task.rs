//! The task, the payloads that create and change one, and the envelope that
//! every response travels in.

use crate::validators::text::{title_violations, valid_title, validate_title};
use crate::validators::{FieldErrors, FieldErrorsView, ValidationErrors};
use vstd::prelude::*;

verus! {

/// A short text with a completion flag, known by its identifier.
#[derive(Debug, PartialEq, Eq)]
pub struct Task {
    pub id: u32,
    pub title: String,
    pub done: bool,
}

/// What a `Task` holds, as plain values.
pub struct TaskView {
    pub id: u32,
    pub title: Seq<char>,
    pub done: bool,
}

impl View for Task {
    type V = TaskView;

    open spec fn view(&self) -> TaskView {
        TaskView { id: self.id, title: self.title@, done: self.done }
    }
}

impl Clone for Task {
    fn clone(&self) -> (r: Self)
        ensures
            r == *self,
    {
        Task { id: self.id, title: self.title.clone(), done: self.done }
    }
}

/// The views of a list of tasks, in order.
pub open spec fn task_views(v: Seq<Task>) -> Seq<TaskView> {
    Seq::new(v.len(), |i: int| v[i]@)
}

/// Appending a task appends its view.
pub proof fn lemma_task_views_push(v: Seq<Task>, task: Task)
    ensures
        task_views(v.push(task)) == task_views(v).push(task@),
{
    assert(task_views(v.push(task)) =~= task_views(v).push(task@));
}

/// Replacing a task replaces its view.
pub proof fn lemma_task_views_update(v: Seq<Task>, i: int, task: Task)
    requires
        0 <= i < v.len(),
    ensures
        task_views(v.update(i, task)) == task_views(v).update(i, task@),
{
    assert(task_views(v.update(i, task)) =~= task_views(v).update(i, task@));
}

/// Taking a task out takes its view out.
pub proof fn lemma_task_views_remove(v: Seq<Task>, i: int)
    requires
        0 <= i < v.len(),
    ensures
        task_views(v.remove(i)) == task_views(v).remove(i),
{
    assert(task_views(v.remove(i)) =~= task_views(v).remove(i));
}

/// The key of the title in a payload.
pub open spec fn title_key() -> Seq<char> {
    "title"@
}

/// What is wrong with a payload whose title is `title`, filed under the
/// title's key.
pub open spec fn title_errors(title: Seq<char>) -> Seq<FieldErrorsView> {
    seq![FieldErrorsView { field: title_key(), errors: title_violations(title) }]
}

/// Files what `validate_title` says of `title` under the title's key.
fn check_title(title: &str) -> (r: Result<(), ValidationErrors>)
    ensures
        match r {
            Ok(()) => valid_title(title@),
            Err(e) => !valid_title(title@) && e@ == title_errors(title@),
        },
{
    match validate_title(title) {
        Ok(()) => Ok(()),
        Err(errors) => {
            let mut fields: Vec<FieldErrors> = Vec::new();
            fields.push(FieldErrors { field: String::from_str("title"), errors });
            let e = ValidationErrors { fields };
            assert(e@ == title_errors(title@));
            Err(e)
        },
    }
}

/// The payload that asks for a new task.
#[derive(Debug, PartialEq, Eq)]
pub struct CreateTask {
    pub title: String,
}

impl CreateTask {
    /// Accepts the payload when its title is acceptable, and says what is
    /// wrong with it otherwise.
    pub fn validate(&self) -> (r: Result<(), ValidationErrors>)
        ensures
            match r {
                Ok(()) => valid_title(self.title@),
                Err(e) => !valid_title(self.title@) && e@ == title_errors(self.title@),
            },
    {
        check_title(self.title.as_str())
    }
}

/// The payload that replaces a task's title and completion flag.
#[derive(Debug, PartialEq, Eq)]
pub struct UpdateTask {
    pub title: String,
    pub done: bool,
}

impl UpdateTask {
    /// Accepts the payload when its title is acceptable, and says what is
    /// wrong with it otherwise. Either value of the flag is acceptable.
    pub fn validate(&self) -> (r: Result<(), ValidationErrors>)
        ensures
            match r {
                Ok(()) => valid_title(self.title@),
                Err(e) => !valid_title(self.title@) && e@ == title_errors(self.title@),
            },
    {
        check_title(self.title.as_str())
    }
}

/// The envelope of a response: what was asked for, or why it was refused.
#[derive(Debug, PartialEq, Eq)]
pub enum ApiResponse<T> {
    Success(T),
    Error { message: String },
}

} // verus!
