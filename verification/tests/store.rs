use tasks_api::error::AppError;
use tasks_api::models::task::Task;
use tasks_api::store::TaskStore;

fn task(id: u32, title: &str, done: bool) -> Task {
    Task { id, title: String::from(title), done }
}

fn store_of(titles: &[&str]) -> TaskStore {
    let mut store = TaskStore::new();
    for title in titles {
        store.create(String::from(*title));
    }
    store
}

#[test]
fn new_store_is_empty() {
    let store = TaskStore::new();
    assert_eq!(store.len(), 0);
    assert!(store.is_empty());
    assert_eq!(store.list(), vec![]);
    assert!(TaskStore::default().is_empty());
}

#[test]
fn create_assigns_count_plus_one() {
    let mut store = TaskStore::new();
    assert_eq!(store.create(String::from("Aprender Rust")), task(1, "Aprender Rust", false));
    assert_eq!(store.create(String::from("Fazer API REST")), task(2, "Fazer API REST", false));
    assert_eq!(store.create(String::from("Deploy")), task(3, "Deploy", false));
    assert_eq!(store.len(), 3);
    assert!(!store.is_empty());
}

#[test]
fn create_then_get_round_trip() {
    let mut store = store_of(&["primeira", "segunda"]);
    let created = store.create(String::from("terceira"));
    assert_eq!(created.id, 3);
    assert_eq!(store.get(created.id), Ok(task(3, "terceira", false)));
}

#[test]
fn list_keeps_insertion_order() {
    let mut store = store_of(&["zeta", "alfa", "meio"]);
    store.update(1, String::from("zeta"), true).unwrap();
    assert_eq!(
        store.list(),
        vec![task(1, "zeta", true), task(2, "alfa", false), task(3, "meio", false)]
    );
}

#[test]
fn list_hands_out_copies() {
    let store = store_of(&["intacta"]);
    let mut copy = store.list();
    copy[0].title = String::from("mudado");
    copy[0].done = true;
    copy.clear();
    assert_eq!(store.list(), vec![task(1, "intacta", false)]);

    let mut one = store.get(1).unwrap();
    one.title.push_str("!!");
    assert_eq!(store.get(1), Ok(task(1, "intacta", false)));
}

#[test]
fn update_changes_title_and_flag_but_not_identity() {
    let mut store = store_of(&["primeira", "segunda", "terceira"]);
    assert_eq!(store.update(2, String::from("outra"), true), Ok(task(2, "outra", true)));
    assert_eq!(store.get(2), Ok(task(2, "outra", true)));
    assert_eq!(
        store.list(),
        vec![task(1, "primeira", false), task(2, "outra", true), task(3, "terceira", false)]
    );
    // the flag can be cleared again
    assert_eq!(store.update(2, String::from("outra"), false), Ok(task(2, "outra", false)));
    assert_eq!(store.get(2), Ok(task(2, "outra", false)));
}

#[test]
fn delete_returns_the_task_and_removes_it() {
    let mut store = store_of(&["primeira", "segunda", "terceira"]);
    assert_eq!(store.delete(2), Ok(task(2, "segunda", false)));
    assert_eq!(store.get(2), Err(AppError::NotFound));
    assert_eq!(store.len(), 2);
    // those behind move up and keep their identifiers
    assert_eq!(store.list(), vec![task(1, "primeira", false), task(3, "terceira", false)]);
    assert_eq!(store.get(3), Ok(task(3, "terceira", false)));
}

#[test]
fn missing_id_is_not_found_and_changes_nothing() {
    let mut store = store_of(&["primeira", "segunda"]);
    let before = store.list();
    for id in [0, 3, 4, 1000, u32::MAX] {
        assert_eq!(store.get(id), Err(AppError::NotFound));
        assert_eq!(store.update(id, String::from("nova"), true), Err(AppError::NotFound));
        assert_eq!(store.delete(id), Err(AppError::NotFound));
        assert_eq!(store.list(), before);
    }
}

#[test]
fn missing_id_on_empty_store() {
    let mut store = TaskStore::new();
    assert_eq!(store.get(1), Err(AppError::NotFound));
    assert_eq!(store.update(1, String::from("nova"), false), Err(AppError::NotFound));
    assert_eq!(store.delete(1), Err(AppError::NotFound));
    assert!(store.is_empty());
}

#[test]
fn creates_alone_give_distinct_ids() {
    let mut store = TaskStore::new();
    let mut seen = Vec::new();
    for n in 0..200u32 {
        let created = store.create(format!("tarefa {}", n));
        assert_eq!(created.id, n + 1);
        assert!(!seen.contains(&created.id));
        seen.push(created.id);
    }
    assert_eq!(store.len(), 200);
    let listed = store.list();
    for (i, a) in listed.iter().enumerate() {
        for b in &listed[i + 1..] {
            assert_ne!(a.id, b.id);
        }
    }
}

#[test]
fn identifier_follows_the_count_after_a_delete() {
    let mut store = store_of(&["primeira", "segunda"]);
    store.delete(1).unwrap();
    // one task is left, so the next identifier is two again
    let created = store.create(String::from("terceira"));
    assert_eq!(created, task(2, "terceira", false));
    assert_eq!(store.list(), vec![task(2, "segunda", false), task(2, "terceira", false)]);
    // a search stops at the first task that goes by the identifier
    assert_eq!(store.get(2), Ok(task(2, "segunda", false)));
    assert_eq!(store.delete(2), Ok(task(2, "segunda", false)));
    assert_eq!(store.get(2), Ok(task(2, "terceira", false)));
}

#[test]
fn update_reaches_the_first_of_two_tasks_with_one_id() {
    let mut store = store_of(&["primeira", "segunda"]);
    store.delete(1).unwrap();
    store.create(String::from("terceira"));
    assert_eq!(store.update(2, String::from("mudada"), true), Ok(task(2, "mudada", true)));
    assert_eq!(store.list(), vec![task(2, "mudada", true), task(2, "terceira", false)]);
}
