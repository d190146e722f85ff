//! The task store: the one owner of the tasks. Every operation takes the store
//! by reference for its whole duration, hands out copies only, and says what
//! it did in terms of the sequence of tasks before and after.

use crate::error::{AppError, AppErrorView};
use crate::models::task::{
    lemma_task_views_push, lemma_task_views_remove, lemma_task_views_update, task_views, Task,
    TaskView,
};
use crate::validators::text::valid_title;
use vstd::prelude::*;

verus! {

/// Whether some task of `s` goes by `id`.
pub open spec fn holds_id(s: Seq<TaskView>, id: u32) -> bool {
    exists|i: int| 0 <= i < s.len() && (#[trigger] s[i]).id == id
}

/// Whether the task at `i` is the first of `s` that goes by `id`.
pub open spec fn is_first_with_id(s: Seq<TaskView>, id: u32, i: int) -> bool {
    &&& 0 <= i < s.len()
    &&& s[i].id == id
    &&& forall|j: int| 0 <= j < i ==> (#[trigger] s[j]).id != id
}

/// Where a search from the front finds `id`.
pub open spec fn position(s: Seq<TaskView>, id: u32) -> Option<int>
    decreases s.len(),
{
    if s.len() == 0 {
        None
    } else if s.first().id == id {
        Some(0)
    } else {
        match position(s.drop_first(), id) {
            Some(i) => Some(i + 1),
            None => None,
        }
    }
}

/// The task that a search from the front finds under `id`.
pub open spec fn lookup(s: Seq<TaskView>, id: u32) -> Option<TaskView> {
    match position(s, id) {
        Some(i) => Some(s[i]),
        None => None,
    }
}

/// The identifier that the next task gets: one more than the number of tasks.
pub open spec fn next_id(s: Seq<TaskView>) -> u32 {
    (s.len() + 1) as u32
}

/// The task that is made for `title`.
pub open spec fn new_task(s: Seq<TaskView>, title: Seq<char>) -> TaskView {
    TaskView { id: next_id(s), title, done: false }
}

/// The tasks after one is created: the new one stands last.
pub open spec fn created(s: Seq<TaskView>, title: Seq<char>) -> Seq<TaskView> {
    s.push(new_task(s, title))
}

/// The tasks after the first one that goes by `id` got a new title and flag.
pub open spec fn updated(s: Seq<TaskView>, id: u32, title: Seq<char>, done: bool) -> Seq<
    TaskView,
> {
    match position(s, id) {
        Some(i) => s.update(i, TaskView { id, title, done }),
        None => s,
    }
}

/// The tasks after the first one that goes by `id` was taken out; those behind
/// it move up and keep their identifiers.
pub open spec fn deleted(s: Seq<TaskView>, id: u32) -> Seq<TaskView> {
    match position(s, id) {
        Some(i) => s.remove(i),
        None => s,
    }
}

/// The tasks after one was created for each of `titles`, in that order.
pub open spec fn after_creates(s: Seq<TaskView>, titles: Seq<Seq<char>>) -> Seq<TaskView>
    decreases titles.len(),
{
    if titles.len() == 0 {
        s
    } else {
        created(after_creates(s, titles.drop_last()), titles.last())
    }
}

/// No two tasks share an identifier.
pub open spec fn unique_ids(s: Seq<TaskView>) -> bool {
    forall|i: int, j: int| 0 <= i < j < s.len() ==> (#[trigger] s[i]).id != (#[trigger] s[j]).id
}

/// Each task's identifier is its place in the sequence, counted from one.
pub open spec fn sequential_ids(s: Seq<TaskView>) -> bool {
    forall|i: int| 0 <= i < s.len() ==> (#[trigger] s[i]).id == i + 1
}

/// Every task has a positive identifier and an acceptable title.
pub open spec fn valid_tasks(s: Seq<TaskView>) -> bool {
    forall|i: int| 0 <= i < s.len() ==> (#[trigger] s[i]).id >= 1 && valid_title(s[i].title)
}

/// `position` finds the first task that goes by `id`, and finds none only
/// where there is none.
pub proof fn lemma_position(s: Seq<TaskView>, id: u32)
    ensures
        match position(s, id) {
            Some(i) => is_first_with_id(s, id, i),
            None => !holds_id(s, id),
        },
    decreases s.len(),
{
    if s.len() > 0 && s.first().id != id {
        let rest = s.drop_first();
        lemma_position(rest, id);
        match position(rest, id) {
            Some(i) => {
                assert(s[i + 1] == rest[i]);
                assert forall|j: int| 0 <= j < i + 1 implies (#[trigger] s[j]).id != id by {
                    if j > 0 {
                        assert(s[j] == rest[j - 1]);
                    }
                }
            },
            None => {
                assert forall|j: int| 0 <= j < s.len() implies (#[trigger] s[j]).id != id by {
                    if j > 0 {
                        assert(s[j] == rest[j - 1]);
                    }
                }
            },
        }
    }
}

/// The first task that goes by `id` is where `position` says.
pub proof fn lemma_first_is_position(s: Seq<TaskView>, id: u32, i: int)
    requires
        is_first_with_id(s, id, i),
    ensures
        position(s, id) == Some(i),
{
    lemma_position(s, id);
}

/// Identifiers that follow the places are positive, differ from each other,
/// and stop at the number of tasks.
pub proof fn lemma_sequential_ids(s: Seq<TaskView>)
    requires
        sequential_ids(s),
    ensures
        unique_ids(s),
        !holds_id(s, 0),
        forall|id: u32| id > s.len() ==> !holds_id(s, id),
        forall|i: int| 0 <= i < s.len() ==> position(s, (i + 1) as u32) == Some(i),
{
    assert forall|i: int| 0 <= i < s.len() implies position(s, (i + 1) as u32) == Some(i) by {
        lemma_first_is_position(s, (i + 1) as u32, i);
    }
}

/// Creates that run one at a time, in whatever order they were admitted, on
/// a store that has seen no delete: the store grows by exactly one task for
/// each of them, what it held stays, and the create that ran as number `k`
/// got the next free identifier, its own title and a cleared flag.
pub proof fn lemma_serial_creates(s: Seq<TaskView>, titles: Seq<Seq<char>>)
    requires
        sequential_ids(s),
        s.len() + titles.len() <= u32::MAX,
    ensures
        after_creates(s, titles).len() == s.len() + titles.len(),
        sequential_ids(after_creates(s, titles)),
        forall|k: int| 0 <= k < s.len() ==> (#[trigger] after_creates(s, titles)[k]) == s[k],
        forall|k: int|
            0 <= k < titles.len() ==> (#[trigger] after_creates(s, titles)[s.len() + k]) == (
            TaskView { id: (s.len() + k + 1) as u32, title: titles[k], done: false }),
    decreases titles.len(),
{
    if titles.len() > 0 {
        lemma_serial_creates(s, titles.drop_last());
    }
}

/// Uniqueness: whatever titles are created one after the other, in an empty
/// store or in one that has seen no delete, no two of the tasks share an
/// identifier.
pub proof fn lemma_creates_keep_ids_unique(s: Seq<TaskView>, titles: Seq<Seq<char>>)
    requires
        sequential_ids(s),
        s.len() + titles.len() <= u32::MAX,
    ensures
        unique_ids(after_creates(s, titles)),
{
    lemma_serial_creates(s, titles);
    lemma_sequential_ids(after_creates(s, titles));
}

/// Creates on an empty store: after `n` of them the store holds exactly `n`
/// tasks, and each create got an identifier that no other got.
pub proof fn lemma_creates_from_empty(titles: Seq<Seq<char>>)
    requires
        titles.len() <= u32::MAX,
    ensures
        after_creates(Seq::empty(), titles).len() == titles.len(),
        unique_ids(after_creates(Seq::empty(), titles)),
        forall|k: int|
            0 <= k < titles.len() ==> (#[trigger] after_creates(Seq::empty(), titles)[k]).id == k
                + 1,
{
    lemma_serial_creates(Seq::empty(), titles);
    lemma_creates_keep_ids_unique(Seq::empty(), titles);
}

/// Creating keeps what the store's tasks have in common: acceptable titles,
/// positive identifiers, and identifiers that follow the places.
pub proof fn lemma_created_keeps(s: Seq<TaskView>, title: Seq<char>)
    requires
        s.len() < u32::MAX,
        valid_title(title),
    ensures
        valid_tasks(s) ==> valid_tasks(created(s, title)),
        sequential_ids(s) ==> sequential_ids(created(s, title)),
        unique_ids(s) && !holds_id(s, next_id(s)) ==> unique_ids(created(s, title)),
{
    let after = created(s, title);
    if unique_ids(s) && !holds_id(s, next_id(s)) {
        assert forall|a: int, b: int| 0 <= a < b < after.len() implies (#[trigger] after[a]).id
            != (#[trigger] after[b]).id by {
            assert(after[a] == s[a]);
            if b < s.len() {
                assert(after[b] == s[b]);
            }
        }
    }
}

/// Round trip: a task that was just created is found under its identifier,
/// with its title and a cleared flag. The one exception is a store in which an
/// older task already goes by that identifier and differs from the new one:
/// there the search stops at the older task.
pub proof fn lemma_create_then_get(s: Seq<TaskView>, title: Seq<char>)
    requires
        s.len() < u32::MAX,
        holds_id(s, next_id(s)) ==> lookup(s, next_id(s)) == Some(new_task(s, title)),
    ensures
        lookup(created(s, title), next_id(s)) == Some(new_task(s, title)),
{
    let after = created(s, title);
    lemma_position(s, next_id(s));
    if holds_id(s, next_id(s)) {
        let i = position(s, next_id(s))->0;
        assert forall|j: int| 0 <= j < i implies (#[trigger] after[j]).id != next_id(s) by {
            assert(after[j] == s[j]);
        }
        assert(after[i] == s[i]);
        lemma_first_is_position(after, next_id(s), i);
    } else {
        assert forall|j: int| 0 <= j < s.len() implies (#[trigger] after[j]).id != next_id(s) by {
            assert(after[j] == s[j]);
        }
        lemma_first_is_position(after, next_id(s), s.len() as int);
    }
}

/// Round trip in a store that has only seen creates and updates: the new
/// task's identifier is free, so the task is found under it.
pub proof fn lemma_create_then_get_sequential(s: Seq<TaskView>, title: Seq<char>)
    requires
        s.len() < u32::MAX,
        sequential_ids(s),
    ensures
        lookup(created(s, title), next_id(s)) == Some(new_task(s, title)),
{
    lemma_sequential_ids(s);
    lemma_create_then_get(s, title);
}

/// An update keeps identity: the task stays where it was and keeps its
/// identifier, every other task is untouched, and a search for the identifier
/// then finds the new title and flag.
pub proof fn lemma_update_then_get(s: Seq<TaskView>, id: u32, title: Seq<char>, done: bool)
    requires
        holds_id(s, id),
    ensures
        updated(s, id, title, done).len() == s.len(),
        forall|k: int| 0 <= k < s.len() ==> (#[trigger] updated(s, id, title, done)[k]).id == s[k].id,
        forall|k: int|
            0 <= k < s.len() && position(s, id) != Some(k) ==> (#[trigger] updated(
                s,
                id,
                title,
                done,
            )[k]) == s[k],
        position(updated(s, id, title, done), id) == position(s, id),
        lookup(updated(s, id, title, done), id) == Some((TaskView { id, title, done })),
{
    lemma_position(s, id);
    let i = position(s, id)->0;
    let after = updated(s, id, title, done);
    assert forall|j: int| 0 <= j < i implies (#[trigger] after[j]).id != id by {
        assert(after[j] == s[j]);
    }
    lemma_first_is_position(after, id, i);
}

/// An update keeps what the store's tasks have in common.
pub proof fn lemma_updated_keeps(s: Seq<TaskView>, id: u32, title: Seq<char>, done: bool)
    requires
        valid_title(title),
    ensures
        valid_tasks(s) ==> valid_tasks(updated(s, id, title, done)),
        sequential_ids(s) ==> sequential_ids(updated(s, id, title, done)),
        unique_ids(s) ==> unique_ids(updated(s, id, title, done)),
{
    lemma_position(s, id);
    if holds_id(s, id) {
        lemma_update_then_get(s, id, title, done);
        let i = position(s, id)->0;
        let after = updated(s, id, title, done);
        if valid_tasks(s) {
            assert(s[i].id >= 1);
            assert forall|k: int| 0 <= k < after.len() implies (#[trigger] after[k]).id >= 1
                && valid_title(after[k].title) by {
                if k != i {
                    assert(after[k] == s[k]);
                }
            }
        }
        if unique_ids(s) {
            assert forall|a: int, b: int| 0 <= a < b < after.len() implies (#[trigger] after[a]).id
                != (#[trigger] after[b]).id by {
                assert(after[a].id == s[a].id);
                assert(after[b].id == s[b].id);
            }
        }
    }
}

/// A delete removes: where the identifier belongs to one task only, one task
/// fewer is left and a search for the identifier then finds nothing.
pub proof fn lemma_delete_then_get(s: Seq<TaskView>, id: u32)
    requires
        holds_id(s, id),
        forall|i: int, j: int|
            0 <= i < s.len() && 0 <= j < s.len() && (#[trigger] s[i]).id == id && (
            #[trigger] s[j]).id == id ==> i == j,
    ensures
        deleted(s, id).len() == s.len() - 1,
        !holds_id(deleted(s, id), id),
        lookup(deleted(s, id), id) is None,
{
    lemma_position(s, id);
    let i = position(s, id)->0;
    let after = deleted(s, id);
    assert forall|k: int| 0 <= k < after.len() implies (#[trigger] after[k]).id != id by {
        if k < i {
            assert(after[k] == s[k]);
        } else {
            assert(after[k] == s[k + 1]);
        }
    }
    lemma_position(after, id);
}

/// A delete keeps acceptable titles and positive identifiers, and keeps
/// identifiers apart where they were apart.
pub proof fn lemma_deleted_keeps(s: Seq<TaskView>, id: u32)
    ensures
        valid_tasks(s) ==> valid_tasks(deleted(s, id)),
        unique_ids(s) ==> unique_ids(deleted(s, id)),
{
    lemma_position(s, id);
    if holds_id(s, id) {
        let i = position(s, id)->0;
        let after = deleted(s, id);
        // where the task at place `k` of what is left stood before
        let from = |k: int| if k < i { k } else { k + 1 };
        if valid_tasks(s) {
            assert forall|k: int| 0 <= k < after.len() implies (#[trigger] after[k]).id >= 1
                && valid_title(after[k].title) by {
                assert(after[k] == s[from(k)]);
            }
        }
        if unique_ids(s) {
            assert forall|a: int, b: int| 0 <= a < b < after.len() implies (#[trigger] after[a]).id
                != (#[trigger] after[b]).id by {
                assert(after[a] == s[from(a)]);
                assert(after[b] == s[from(b)]);
            }
        }
    }
}

/// An identifier that no task goes by is not found, and an update or a delete
/// under it leaves the tasks as they were.
pub proof fn lemma_missing_id(s: Seq<TaskView>, id: u32, title: Seq<char>, done: bool)
    requires
        !holds_id(s, id),
    ensures
        lookup(s, id) is None,
        updated(s, id, title, done) == s,
        deleted(s, id) == s,
{
    lemma_position(s, id);
}

/// No task of a store goes by zero.
pub proof fn lemma_zero_is_missing(s: Seq<TaskView>)
    requires
        valid_tasks(s),
    ensures
        !holds_id(s, 0),
{
}

/// The tasks, in the order in which they were created.
///
/// Identifiers follow the count of tasks. As long as nothing is deleted they
/// are the places `1, 2, 3, ...` and no two tasks share one. After a delete a
/// later create can hand out an identifier that a task in the store still
/// has; a search then stops at the older of the two.
pub struct TaskStore {
    tasks: Vec<Task>,
}

impl View for TaskStore {
    type V = Seq<TaskView>;

    closed spec fn view(&self) -> Seq<TaskView> {
        task_views(self.tasks@)
    }
}

impl Default for TaskStore {
    fn default() -> (store: Self)
        ensures
            store@ == Seq::<TaskView>::empty(),
            store.wf(),
    {
        TaskStore::new()
    }
}

impl TaskStore {
    /// What holds of every store: positive identifiers and acceptable titles.
    pub open spec fn wf(&self) -> bool {
        valid_tasks(self@)
    }

    /// A store without tasks.
    pub fn new() -> (store: Self)
        ensures
            store@ == Seq::<TaskView>::empty(),
            store.wf(),
    {
        TaskStore { tasks: Vec::new() }
    }

    /// The number of tasks.
    pub fn len(&self) -> (n: usize)
        ensures
            n == self@.len(),
    {
        self.tasks.len()
    }

    /// Whether the store holds no task.
    pub fn is_empty(&self) -> (b: bool)
        ensures
            b == (self@.len() == 0),
    {
        self.tasks.len() == 0
    }

    /// Where the first task that goes by `id` stands.
    fn find(&self, id: u32) -> (r: Option<usize>)
        ensures
            match r {
                Some(i) => i < self@.len() && position(self@, id) == Some(i as int),
                None => position(self@, id) is None,
            },
    {
        let mut i: usize = 0;
        while i < self.tasks.len()
            invariant
                i <= self.tasks.len(),
                forall|j: int| 0 <= j < i ==> (#[trigger] self@[j]).id != id,
            decreases self.tasks.len() - i,
        {
            if self.tasks[i].id == id {
                proof {
                    lemma_first_is_position(self@, id, i as int);
                }
                return Some(i);
            }
            i += 1;
        }
        proof {
            lemma_position(self@, id);
        }
        None
    }

    /// Creates a task for `title`, which the caller has validated: it gets the
    /// number of tasks plus one as its identifier and a cleared flag, and
    /// stands last. Returns a copy of it.
    pub fn create(&mut self, title: String) -> (task: Task)
        requires
            old(self).wf(),
            old(self)@.len() < u32::MAX,
            valid_title(title@),
        ensures
            final(self).wf(),
            final(self)@ == created(old(self)@, title@),
            task@ == new_task(old(self)@, title@),
    {
        let id: u32 = self.tasks.len() as u32 + 1;
        let task = Task { id, title, done: false };
        let copy = task.clone();
        self.tasks.push(task);
        proof {
            lemma_task_views_push(old(self).tasks@, task);
        }
        copy
    }

    /// Copies of all tasks, in the order in which they stand.
    pub fn list(&self) -> (tasks: Vec<Task>)
        ensures
            task_views(tasks@) == self@,
    {
        let mut out: Vec<Task> = Vec::new();
        let mut i: usize = 0;
        while i < self.tasks.len()
            invariant
                i <= self.tasks.len(),
                task_views(out@) == self@.take(i as int),
            decreases self.tasks.len() - i,
        {
            let ghost before = out@;
            out.push(self.tasks[i].clone());
            proof {
                lemma_task_views_push(before, self.tasks@[i as int]);
                assert(self@.take(i + 1) == self@.take(i as int).push(self@[i as int]));
            }
            i += 1;
        }
        assert(self@.take(i as int) == self@);
        out
    }

    /// A copy of the first task that goes by `id`.
    pub fn get(&self, id: u32) -> (r: Result<Task, AppError>)
        ensures
            match lookup(self@, id) {
                Some(found) => r matches Ok(task) && task@ == found,
                None => r matches Err(e) && e@ == AppErrorView::NotFound,
            },
    {
        match self.find(id) {
            Some(i) => Ok(self.tasks[i].clone()),
            None => Err(AppError::NotFound),
        }
    }

    /// Gives the first task that goes by `id` the title, which the caller has
    /// validated, and the flag; its identifier and place stay. Returns a copy
    /// of the task as it then is. Where no task goes by `id`, nothing changes.
    pub fn update(&mut self, id: u32, title: String, done: bool) -> (r: Result<Task, AppError>)
        requires
            old(self).wf(),
            valid_title(title@),
        ensures
            final(self).wf(),
            final(self)@ == updated(old(self)@, id, title@, done),
            match position(old(self)@, id) {
                Some(_) => r matches Ok(task) && task@ == (TaskView { id, title: title@, done }),
                None => r matches Err(e) && e@ == AppErrorView::NotFound,
            },
    {
        proof {
            lemma_updated_keeps(self@, id, title@, done);
        }
        match self.find(id) {
            Some(i) => {
                let task = Task { id, title, done };
                let copy = task.clone();
                self.tasks.set(i, task);
                proof {
                    lemma_task_views_update(old(self).tasks@, i as int, task);
                }
                Ok(copy)
            },
            None => Err(AppError::NotFound),
        }
    }

    /// Takes the first task that goes by `id` out of the store and returns it;
    /// the tasks behind it move up. Where no task goes by `id`, nothing
    /// changes.
    pub fn delete(&mut self, id: u32) -> (r: Result<Task, AppError>)
        requires
            old(self).wf(),
        ensures
            final(self).wf(),
            final(self)@ == deleted(old(self)@, id),
            match lookup(old(self)@, id) {
                Some(found) => r matches Ok(task) && task@ == found,
                None => r matches Err(e) && e@ == AppErrorView::NotFound,
            },
    {
        proof {
            lemma_deleted_keeps(self@, id);
        }
        match self.find(id) {
            Some(i) => {
                let task = self.tasks.remove(i);
                proof {
                    lemma_task_views_remove(old(self).tasks@, i as int);
                }
                Ok(task)
            },
            None => Err(AppError::NotFound),
        }
    }
}

} // verus!
