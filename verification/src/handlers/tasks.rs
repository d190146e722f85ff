//! The five requests on tasks. Each one takes the store as the caller got
//! hold of it, `None` where exclusive access could not be had, and returns the
//! status and the envelope of the response. A payload is validated before the
//! store is looked at, so a rejected payload never changes it.

use crate::error::{fails_with, AppError, AppErrorView, StatusCode};
use crate::models::task::{
    task_views, title_errors, ApiResponse, CreateTask, Task, TaskView, UpdateTask,
};
use crate::store::{created, deleted, lookup, new_task, position, updated, TaskStore};
use crate::strings::{join, join_strings, texts};
use crate::validators::text::valid_title;
use crate::validators::{
    violation_views, FieldErrorsView, ValidationErrors, Violation, ViolationView,
};
use vstd::prelude::*;

verus! {

/// The sentences of a list of violations, in order.
pub open spec fn messages(errors: Seq<ViolationView>) -> Seq<Seq<char>> {
    Seq::new(errors.len(), |i: int| errors[i].message)
}

/// What is said of one field: its key, a colon, and its violations' sentences
/// with a comma between them.
pub open spec fn field_message(field: FieldErrorsView) -> Seq<char> {
    field.field + ": "@ + join(messages(field.errors), ", "@)
}

/// What is said of each field, in order.
pub open spec fn field_messages(errors: Seq<FieldErrorsView>) -> Seq<Seq<char>> {
    Seq::new(errors.len(), |i: int| field_message(errors[i]))
}

/// The details of a rejection: what is said of each field, with a semicolon
/// between fields.
pub open spec fn validation_message(errors: Seq<FieldErrorsView>) -> Seq<char> {
    join(field_messages(errors), "; "@)
}

/// The error that a payload with an unacceptable `title` is rejected with.
pub open spec fn title_rejection(title: Seq<char>) -> AppErrorView {
    AppErrorView::ValidationError(validation_message(title_errors(title)))
}

/// The sentence that confirms that the task with `title` was deleted.
pub open spec fn deleted_message(title: Seq<char>) -> Seq<char> {
    "Task '"@ + title + "' deletada!"@
}

/// Whether `response` has `status` and carries `task`.
pub open spec fn carries_task(
    response: (StatusCode, ApiResponse<Task>),
    status: StatusCode,
    task: TaskView,
) -> bool {
    &&& response.0 == status
    &&& response.1 matches ApiResponse::Success(t)
    &&& t@ == task
}

/// Whether `response` has the status `Okay` and carries `tasks`, in order.
pub open spec fn carries_tasks(
    response: (StatusCode, ApiResponse<Vec<Task>>),
    tasks: Seq<TaskView>,
) -> bool {
    &&& response.0 == StatusCode::Okay
    &&& response.1 matches ApiResponse::Success(list)
    &&& task_views(list@) == tasks
}

/// Whether `response` has the status `Okay` and carries `text`.
pub open spec fn carries_text(response: (StatusCode, ApiResponse<String>), text: Seq<char>) -> bool {
    &&& response.0 == StatusCode::Okay
    &&& response.1 matches ApiResponse::Success(t)
    &&& t@ == text
}

/// The sentences of `errors`, copied.
fn collect_messages(errors: &Vec<Violation>) -> (out: Vec<String>)
    ensures
        texts(out@) == messages(violation_views(errors@)),
{
    let mut out: Vec<String> = Vec::new();
    let mut i: usize = 0;
    while i < errors.len()
        invariant
            i <= errors.len(),
            out@.len() == i,
            forall|k: int| 0 <= k < i ==> (#[trigger] out@[k])@ == errors@[k].message@,
        decreases errors.len() - i,
    {
        out.push(errors[i].message.clone());
        i += 1;
    }
    assert(texts(out@) =~= messages(violation_views(errors@)));
    out
}

/// Words a rejection: for each field its key, a colon and its violations'
/// sentences with a comma between them; fields are set apart by a semicolon.
pub fn format_validation_errors(errors: &ValidationErrors) -> (message: String)
    ensures
        message@ == validation_message(errors@),
{
    let mut lines: Vec<String> = Vec::new();
    let mut i: usize = 0;
    while i < errors.fields.len()
        invariant
            i <= errors.fields.len(),
            lines@.len() == i,
            forall|k: int| 0 <= k < i ==> (#[trigger] lines@[k])@ == field_message(errors@[k]),
        decreases errors.fields.len() - i,
    {
        let field = &errors.fields[i];
        let sentences = collect_messages(&field.errors);
        let joined = join_strings(&sentences, ", ");
        let mut line = field.field.clone();
        line.append(": ");
        line.append(joined.as_str());
        lines.push(line);
        i += 1;
    }
    assert(texts(lines@) =~= field_messages(errors@));
    join_strings(&lines, "; ")
}

/// Creates a task from `payload`. An unacceptable title is rejected with the
/// store untouched; without access to the store the request fails; otherwise
/// the task is created and returned with the status `Created`.
pub fn create_task(state: Option<&mut TaskStore>, payload: CreateTask) -> (response: (
    StatusCode,
    ApiResponse<Task>,
))
    requires
        state matches Some(store) ==> store.wf() && store@.len() < u32::MAX,
    ensures
        state matches Some(store) ==> final(store).wf(),
        !valid_title(payload.title@) ==> fails_with(response, title_rejection(payload.title@)),
        !valid_title(payload.title@) ==> (state matches Some(store) ==> final(store)@ == store@),
        valid_title(payload.title@) && state is None ==> fails_with(
            response,
            AppErrorView::MutexError,
        ),
        valid_title(payload.title@) ==> (state matches Some(store) ==> {
            &&& final(store)@ == created(store@, payload.title@)
            &&& carries_task(response, StatusCode::Created, new_task(store@, payload.title@))
        }),
{
    if let Err(errors) = payload.validate() {
        let details = format_validation_errors(&errors);
        return AppError::ValidationError(details).into_response();
    }
    match state {
        None => AppError::MutexError.into_response(),
        Some(store) => {
            let task = store.create(payload.title);
            (StatusCode::Created, ApiResponse::Success(task))
        },
    }
}

/// Copies of all tasks, in the order in which they stand in the store; an
/// empty store gives an empty list.
pub fn list_tasks(state: Option<&TaskStore>) -> (response: (StatusCode, ApiResponse<Vec<Task>>))
    ensures
        match state {
            Some(store) => carries_tasks(response, store@),
            None => fails_with(response, AppErrorView::MutexError),
        },
{
    match state {
        None => AppError::MutexError.into_response(),
        Some(store) => (StatusCode::Okay, ApiResponse::Success(store.list())),
    }
}

/// A copy of the first task that goes by `id`.
pub fn get_task(id: u32, state: Option<&TaskStore>) -> (response: (StatusCode, ApiResponse<Task>))
    ensures
        match state {
            Some(store) => match lookup(store@, id) {
                Some(task) => carries_task(response, StatusCode::Okay, task),
                None => fails_with(response, AppErrorView::NotFound),
            },
            None => fails_with(response, AppErrorView::MutexError),
        },
{
    match state {
        None => AppError::MutexError.into_response(),
        Some(store) => match store.get(id) {
            Ok(task) => (StatusCode::Okay, ApiResponse::Success(task)),
            Err(e) => e.into_response(),
        },
    }
}

/// Gives the first task that goes by `id` the title and flag of `payload`. An
/// unacceptable title is rejected with the store untouched; without access to
/// the store the request fails; an `id` that no task goes by is not found and
/// leaves the store as it was.
pub fn update_task(id: u32, state: Option<&mut TaskStore>, payload: UpdateTask) -> (response: (
    StatusCode,
    ApiResponse<Task>,
))
    requires
        state matches Some(store) ==> store.wf(),
    ensures
        state matches Some(store) ==> final(store).wf(),
        !valid_title(payload.title@) ==> fails_with(response, title_rejection(payload.title@)),
        !valid_title(payload.title@) ==> (state matches Some(store) ==> final(store)@ == store@),
        valid_title(payload.title@) && state is None ==> fails_with(
            response,
            AppErrorView::MutexError,
        ),
        valid_title(payload.title@) ==> (state matches Some(store) ==> {
            &&& final(store)@ == updated(store@, id, payload.title@, payload.done)
            &&& match position(store@, id) {
                Some(_) => carries_task(
                    response,
                    StatusCode::Okay,
                    TaskView { id, title: payload.title@, done: payload.done },
                ),
                None => fails_with(response, AppErrorView::NotFound),
            }
        }),
{
    if let Err(errors) = payload.validate() {
        let details = format_validation_errors(&errors);
        return AppError::ValidationError(details).into_response();
    }
    match state {
        None => AppError::MutexError.into_response(),
        Some(store) => match store.update(id, payload.title, payload.done) {
            Ok(task) => (StatusCode::Okay, ApiResponse::Success(task)),
            Err(e) => e.into_response(),
        },
    }
}

/// Takes the first task that goes by `id` out of the store and confirms it
/// with a sentence that names the task's title. Without access to the store
/// the request fails; an `id` that no task goes by is not found and leaves the
/// store as it was.
pub fn delete_task(id: u32, state: Option<&mut TaskStore>) -> (response: (
    StatusCode,
    ApiResponse<String>,
))
    requires
        state matches Some(store) ==> store.wf(),
    ensures
        state is None ==> fails_with(response, AppErrorView::MutexError),
        state matches Some(store) ==> {
            &&& final(store).wf()
            &&& final(store)@ == deleted(store@, id)
            &&& match lookup(store@, id) {
                Some(task) => carries_text(response, deleted_message(task.title)),
                None => fails_with(response, AppErrorView::NotFound),
            }
        },
{
    match state {
        None => AppError::MutexError.into_response(),
        Some(store) => match store.delete(id) {
            Ok(task) => {
                let mut message = String::from_str("Task '");
                message.append(task.title.as_str());
                message.append("' deletada!");
                (StatusCode::Okay, ApiResponse::Success(message))
            },
            Err(e) => e.into_response(),
        },
    }
}

} // verus!
