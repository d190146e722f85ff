use std::sync::{Arc, Mutex};
use tasks_api::error::StatusCode;
use tasks_api::handlers::tasks::{create_task, delete_task, get_task, list_tasks, update_task};
use tasks_api::models::task::{ApiResponse, CreateTask, Task, UpdateTask};
use tasks_api::store::TaskStore;

fn task(id: u32, title: &str, done: bool) -> Task {
    Task { id, title: String::from(title), done }
}

fn create(title: &str) -> CreateTask {
    CreateTask { title: String::from(title) }
}

fn update(title: &str, done: bool) -> UpdateTask {
    UpdateTask { title: String::from(title), done }
}

fn error<T>(message: &str) -> ApiResponse<T> {
    ApiResponse::Error { message: String::from(message) }
}

fn store_of(titles: &[&str]) -> TaskStore {
    let mut store = TaskStore::new();
    for title in titles {
        store.create(String::from(*title));
    }
    store
}

const SHORT: &str = "title: Título deve ter entre 4 e 100 caracteres";
const BLANK: &str = "title: Título não pode estar vazio";
const SHORT_AND_BLANK: &str =
    "title: Título deve ter entre 4 e 100 caracteres, Título não pode estar vazio";

#[test]
fn create_answers_created_with_the_task() {
    let mut store = TaskStore::new();
    let response = create_task(Some(&mut store), create("Aprender Rust"));
    assert_eq!(response.0, StatusCode::Created);
    assert_eq!(response.0.as_u16(), 201);
    assert_eq!(response.1, ApiResponse::Success(task(1, "Aprender Rust", false)));
    assert_eq!(store.list(), vec![task(1, "Aprender Rust", false)]);
}

#[test]
fn create_accepts_titles_at_both_bounds() {
    let mut store = TaskStore::new();
    assert_eq!(create_task(Some(&mut store), create("abcd")).0, StatusCode::Created);
    assert_eq!(create_task(Some(&mut store), create(&"b".repeat(100))).0, StatusCode::Created);
    assert_eq!(store.len(), 2);
}

#[test]
fn create_rejects_short_title_and_leaves_store_alone() {
    let mut store = store_of(&["primeira"]);
    let response = create_task(Some(&mut store), create("abc"));
    assert_eq!(response.0, StatusCode::BadRequest);
    assert_eq!(response.0.as_u16(), 400);
    assert_eq!(response.1, error(SHORT));
    assert_eq!(store.list(), vec![task(1, "primeira", false)]);
}

#[test]
fn create_rejects_long_title_and_leaves_store_alone() {
    let mut store = store_of(&["primeira"]);
    let response = create_task(Some(&mut store), create(&"a".repeat(101)));
    assert_eq!(response.0, StatusCode::BadRequest);
    assert_eq!(response.1, error(SHORT));
    assert_eq!(store.list(), vec![task(1, "primeira", false)]);
}

#[test]
fn create_rejects_blank_title_and_leaves_store_alone() {
    let mut store = store_of(&["primeira"]);
    let response = create_task(Some(&mut store), create("        "));
    assert_eq!(response.0, StatusCode::BadRequest);
    assert_eq!(response.1, error(BLANK));
    let response = create_task(Some(&mut store), create(""));
    assert_eq!(response.0, StatusCode::BadRequest);
    assert_eq!(response.1, error(SHORT_AND_BLANK));
    assert_eq!(store.list(), vec![task(1, "primeira", false)]);
}

#[test]
fn create_without_access_fails() {
    let response = create_task(None, create("Aprender Rust"));
    assert_eq!(response.0, StatusCode::InternalServerError);
    assert_eq!(response.0.as_u16(), 500);
    assert_eq!(response.1, error("Erro ao travar mutex"));
}

#[test]
fn validation_comes_before_access() {
    let response = create_task(None, create("abc"));
    assert_eq!(response.0, StatusCode::BadRequest);
    assert_eq!(response.1, error(SHORT));
    let response = update_task(1, None, update("    ", true));
    assert_eq!(response.0, StatusCode::BadRequest);
    assert_eq!(response.1, error(BLANK));
}

#[test]
fn list_answers_ok_with_all_tasks_in_order() {
    let store = store_of(&["primeira", "segunda"]);
    let response = list_tasks(Some(&store));
    assert_eq!(response.0, StatusCode::Okay);
    assert_eq!(response.0.as_u16(), 200);
    assert_eq!(
        response.1,
        ApiResponse::Success(vec![task(1, "primeira", false), task(2, "segunda", false)])
    );
}

#[test]
fn list_of_empty_store_is_ok_and_empty() {
    let store = TaskStore::new();
    let response = list_tasks(Some(&store));
    assert_eq!(response.0, StatusCode::Okay);
    assert_eq!(response.1, ApiResponse::Success(vec![]));
}

#[test]
fn list_without_access_fails() {
    let response = list_tasks(None);
    assert_eq!(response.0, StatusCode::InternalServerError);
    assert_eq!(response.1, error("Erro ao travar mutex"));
}

#[test]
fn get_answers_ok_with_the_task() {
    let store = store_of(&["primeira", "segunda"]);
    let response = get_task(2, Some(&store));
    assert_eq!(response.0, StatusCode::Okay);
    assert_eq!(response.1, ApiResponse::Success(task(2, "segunda", false)));
}

#[test]
fn get_of_missing_id_is_not_found() {
    let store = store_of(&["primeira", "segunda"]);
    for id in [0, 3, u32::MAX] {
        let response = get_task(id, Some(&store));
        assert_eq!(response.0, StatusCode::NotFound);
        assert_eq!(response.0.as_u16(), 404);
        assert_eq!(response.1, error("Task não encontrada"));
    }
}

#[test]
fn get_without_access_fails() {
    let response = get_task(1, None);
    assert_eq!(response.0, StatusCode::InternalServerError);
    assert_eq!(response.1, error("Erro ao travar mutex"));
}

#[test]
fn update_answers_ok_with_the_changed_task() {
    let mut store = store_of(&["primeira", "segunda"]);
    let response = update_task(1, Some(&mut store), update("revista", true));
    assert_eq!(response.0, StatusCode::Okay);
    assert_eq!(response.1, ApiResponse::Success(task(1, "revista", true)));
    let response = get_task(1, Some(&store));
    assert_eq!(response.1, ApiResponse::Success(task(1, "revista", true)));
    assert_eq!(store.list(), vec![task(1, "revista", true), task(2, "segunda", false)]);
}

#[test]
fn update_rejects_bad_title_and_leaves_store_alone() {
    let mut store = store_of(&["primeira", "segunda"]);
    for (title, message) in [
        ("abc", SHORT),
        ("", SHORT_AND_BLANK),
        ("     ", BLANK),
        ("\u{3000}\u{3000}\u{3000}\u{3000}", BLANK),
    ] {
        let response = update_task(1, Some(&mut store), update(title, true));
        assert_eq!(response.0, StatusCode::BadRequest);
        assert_eq!(response.1, error(message));
    }
    let response = update_task(2, Some(&mut store), update(&"z".repeat(101), true));
    assert_eq!(response.0, StatusCode::BadRequest);
    assert_eq!(response.1, error(SHORT));
    assert_eq!(store.list(), vec![task(1, "primeira", false), task(2, "segunda", false)]);
}

#[test]
fn update_rejects_bad_title_even_for_a_missing_id() {
    let mut store = store_of(&["primeira"]);
    let response = update_task(9, Some(&mut store), update("x", false));
    assert_eq!(response.0, StatusCode::BadRequest);
    assert_eq!(response.1, error(SHORT));
}

#[test]
fn update_of_missing_id_is_not_found_and_leaves_store_alone() {
    let mut store = store_of(&["primeira", "segunda"]);
    for id in [0, 3, u32::MAX] {
        let response = update_task(id, Some(&mut store), update("revista", true));
        assert_eq!(response.0, StatusCode::NotFound);
        assert_eq!(response.1, error("Task não encontrada"));
    }
    assert_eq!(store.list(), vec![task(1, "primeira", false), task(2, "segunda", false)]);
}

#[test]
fn update_without_access_fails() {
    let response = update_task(1, None, update("revista", true));
    assert_eq!(response.0, StatusCode::InternalServerError);
    assert_eq!(response.1, error("Erro ao travar mutex"));
}

#[test]
fn delete_confirms_with_the_title() {
    let mut store = store_of(&["primeira", "segunda"]);
    let response = delete_task(1, Some(&mut store));
    assert_eq!(response.0, StatusCode::Okay);
    assert_eq!(response.1, ApiResponse::Success(String::from("Task 'primeira' deletada!")));
    let response = get_task(1, Some(&store));
    assert_eq!(response.0, StatusCode::NotFound);
    assert_eq!(store.list(), vec![task(2, "segunda", false)]);
}

#[test]
fn delete_names_the_title_as_it_was_last_set() {
    let mut store = store_of(&["primeira"]);
    update_task(1, Some(&mut store), update("O'Reilly & cia", true));
    let response = delete_task(1, Some(&mut store));
    assert_eq!(response.1, ApiResponse::Success(String::from("Task 'O'Reilly & cia' deletada!")));
    assert!(store.is_empty());
}

#[test]
fn delete_of_missing_id_is_not_found_and_leaves_store_alone() {
    let mut store = store_of(&["primeira", "segunda"]);
    for id in [0, 3, u32::MAX] {
        let response = delete_task(id, Some(&mut store));
        assert_eq!(response.0, StatusCode::NotFound);
        assert_eq!(response.1, error("Task não encontrada"));
    }
    assert_eq!(store.list(), vec![task(1, "primeira", false), task(2, "segunda", false)]);
}

#[test]
fn delete_twice_is_not_found_the_second_time() {
    let mut store = store_of(&["primeira", "segunda"]);
    assert_eq!(delete_task(2, Some(&mut store)).0, StatusCode::Okay);
    assert_eq!(delete_task(2, Some(&mut store)).0, StatusCode::NotFound);
    assert_eq!(store.len(), 1);
}

#[test]
fn delete_without_access_fails() {
    let response = delete_task(1, None);
    assert_eq!(response.0, StatusCode::InternalServerError);
    assert_eq!(response.1, error("Erro ao travar mutex"));
}

#[test]
fn store_behind_a_lock_serves_requests() {
    let state = Arc::new(Mutex::new(TaskStore::new()));
    let response = create_task(state.lock().ok().as_deref_mut(), create("Aprender Rust"));
    assert_eq!(response.0, StatusCode::Created);
    let response = get_task(1, state.lock().ok().as_deref());
    assert_eq!(response.1, ApiResponse::Success(task(1, "Aprender Rust", false)));
}

#[test]
fn creates_admitted_in_any_order_get_distinct_ids() {
    // sixteen requesters with twenty-five payloads each; the lock admits their
    // creates one at a time, here in an order that mixes the requesters
    let state = Arc::new(Mutex::new(TaskStore::new()));
    let mut received: Vec<Vec<u32>> = vec![Vec::new(); 16];
    for round in 0..25usize {
        for step in 0..16usize {
            let requester = (step * 7 + round * 3) % 16;
            let handle = Arc::clone(&state);
            let payload = create(&format!("tarefa {} de {}", round, requester));
            let response = create_task(handle.lock().ok().as_deref_mut(), payload);
            assert_eq!(response.0, StatusCode::Created);
            match response.1 {
                ApiResponse::Success(task) => received[requester].push(task.id),
                ApiResponse::Error { message } => panic!("{}", message),
            }
        }
    }
    let mut ids: Vec<u32> = received.concat();
    assert_eq!(ids.len(), 400);
    ids.sort();
    assert_eq!(ids, (1..=400).collect::<Vec<u32>>());
    let guard = state.lock().unwrap();
    assert_eq!(guard.len(), 400);
    for (i, task) in guard.list().iter().enumerate() {
        assert_eq!(task.id, i as u32 + 1);
    }
}
