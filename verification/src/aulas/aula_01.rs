//! Lesson one: a task list kept in a plain vector, where a task is addressed
//! by its place in the list, counted from one.

use crate::models::task::{
    lemma_task_views_push, lemma_task_views_remove, lemma_task_views_update, task_views, Task,
    TaskView,
};
use crate::store::created;
use crate::strings::{decimal, push_decimal, texts};
use vstd::prelude::*;

verus! {

/// How a task reads on one line: its identifier in brackets, an `x` where it
/// is done and a space where it is not, a dash, and its title.
pub open spec fn task_line(task: TaskView) -> Seq<char> {
    "["@ + decimal(task.id as nat) + "] "@ + (if task.done {
        "x"@
    } else {
        " "@
    }) + " - "@ + task.title
}

/// The lines of a list of tasks, in order.
pub open spec fn task_lines(s: Seq<TaskView>) -> Seq<Seq<char>> {
    Seq::new(s.len(), |i: int| task_line(s[i]))
}

/// Whether a task stands at place `id`, counted from one.
pub open spec fn has_place(s: Seq<TaskView>, id: u32) -> bool {
    1 <= id <= s.len()
}

/// The tasks after the one at place `id` was marked as done.
pub open spec fn marked_done(s: Seq<TaskView>, id: u32) -> Seq<TaskView> {
    if has_place(s, id) {
        s.update(id - 1, TaskView { done: true, ..s[id - 1] })
    } else {
        s
    }
}

/// The tasks after the one at place `id` was removed.
pub open spec fn removed(s: Seq<TaskView>, id: u32) -> Seq<TaskView> {
    if has_place(s, id) {
        s.remove(id - 1)
    } else {
        s
    }
}

/// What a failed removal says.
pub open spec fn missing_message(id: u32) -> Seq<char> {
    "Task "@ + decimal(id as nat) + " não existe"@
}

/// Appends a task for `title`: its identifier is the number of tasks plus one,
/// and it is not done.
pub fn add_task(tasks: &mut Vec<Task>, title: String)
    requires
        task_views(old(tasks)@).len() < u32::MAX,
    ensures
        task_views(final(tasks)@) == created(task_views(old(tasks)@), title@),
{
    let id: u32 = tasks.len() as u32 + 1;
    let task = Task { id, title, done: false };
    proof {
        lemma_task_views_push(tasks@, task);
    }
    tasks.push(task);
}

/// One line for each task, in order.
pub fn list_tasks(tasks: &Vec<Task>) -> (lines: Vec<String>)
    ensures
        texts(lines@) == task_lines(task_views(tasks@)),
{
    let mut lines: Vec<String> = Vec::new();
    let mut i: usize = 0;
    while i < tasks.len()
        invariant
            i <= tasks.len(),
            lines@.len() == i,
            forall|k: int| 0 <= k < i ==> (#[trigger] lines@[k])@ == task_line(tasks@[k]@),
        decreases tasks.len() - i,
    {
        let task = &tasks[i];
        let mut line = String::from_str("[");
        push_decimal(&mut line, task.id as u64);
        line.append("] ");
        if task.done {
            line.append("x");
        } else {
            line.append(" ");
        }
        line.append(" - ");
        line.append(task.title.as_str());
        lines.push(line);
        i += 1;
    }
    assert(texts(lines@) =~= task_lines(task_views(tasks@)));
    lines
}

/// Marks the task at place `id` as done. Where no task stands there, nothing
/// changes.
pub fn mark_done(tasks: &mut Vec<Task>, id: u32)
    ensures
        task_views(final(tasks)@) == marked_done(task_views(old(tasks)@), id),
{
    if id >= 1 && ((id - 1) as usize) < tasks.len() {
        let index = (id - 1) as usize;
        let task = Task { id: tasks[index].id, title: tasks[index].title.clone(), done: true };
        proof {
            lemma_task_views_update(tasks@, index as int, task);
        }
        tasks.set(index, task);
    }
}

/// Removes the task at place `id`; the tasks behind it move up. Where no task
/// stands there, nothing changes and the error says so.
pub fn remove_task(tasks: &mut Vec<Task>, id: u32) -> (r: Result<(), String>)
    ensures
        match r {
            Ok(()) => has_place(task_views(old(tasks)@), id),
            Err(message) => !has_place(task_views(old(tasks)@), id) && message@ == missing_message(
                id,
            ),
        },
        task_views(final(tasks)@) == removed(task_views(old(tasks)@), id),
{
    if id == 0 || ((id - 1) as usize) >= tasks.len() {
        let mut message = String::from_str("Task ");
        push_decimal(&mut message, id as u64);
        message.append(" não existe");
        return Err(message);
    }
    proof {
        lemma_task_views_remove(tasks@, id - 1);
    }
    tasks.remove((id - 1) as usize);
    Ok(())
}

} // verus!
