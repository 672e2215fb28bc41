use choretle::overseer::persistence::memory::Memory;
use choretle::overseer::persistence::{Config as StoreConfig, RepositoryError};
use choretle::overseer::id::TaskId;
use choretle::overseer::{
    create_task_response, delete_task_response, error_to_response, get_all_tasks_response,
    get_task_response, update_task_response, Body, Config, Effort, Service, Task, TaskData,
};

fn data(name: &str, effort: Effort) -> TaskData {
    TaskData { name: String::from(name), effort }
}

fn service() -> Service<Memory> {
    let config = Config {
        name: String::from("overseer"),
        port: 8081,
        db: StoreConfig { conn: String::from("mongodb://localhost:27017"), db: String::from("choretle") },
    };
    Service::create(config, Memory::new())
}

fn sample() -> Task {
    Task {
        id: TaskId { bytes: [0x53, 0xe3, 0x7d, 0x08, 0x77, 0x6f, 0x72, 0x4e, 0x42, 0x00, 0x00, 0x0a] },
        data: data("buy milk", Effort::Low),
    }
}

#[test]
fn create_keeps_the_settings() {
    let service = service();
    assert_eq!(service.config.name, "overseer");
    assert_eq!(service.config.port, 8081);
    assert_eq!(service.config.db.conn, "mongodb://localhost:27017");
    assert_eq!(service.config.db.db, "choretle");
}

#[test]
fn errors_map_to_status_codes() {
    let invalid = error_to_response(RepositoryError::InvalidIdentifier);
    assert_eq!(invalid.status, 400);
    assert!(matches!(invalid.body, Body::Empty));
    let missing = error_to_response(RepositoryError::NotFound);
    assert_eq!(missing.status, 404);
    assert!(matches!(missing.body, Body::Empty));
    let unavailable = error_to_response(RepositoryError::StorageUnavailable);
    assert_eq!(unavailable.status, 500);
    assert!(matches!(unavailable.body, Body::Empty));
}

#[test]
fn a_created_task_is_answered_with_201() {
    let resp = create_task_response(Ok(sample()));
    assert_eq!(resp.status, 201);
    match resp.body {
        Body::Task(json) => {
            assert_eq!(json.id, "53e37d08776f724e4200000a");
            assert_eq!(json.data, data("buy milk", Effort::Low));
        },
        other => panic!("unexpected body {:?}", other),
    }
    let failed = create_task_response(Err(RepositoryError::StorageUnavailable));
    assert_eq!(failed.status, 500);
    assert!(matches!(failed.body, Body::Empty));
}

#[test]
fn a_found_task_is_answered_with_200() {
    let resp = get_task_response(Ok(sample()));
    assert_eq!(resp.status, 200);
    match resp.body {
        Body::Task(json) => {
            assert_eq!(json.id, "53e37d08776f724e4200000a");
            assert_eq!(json.data, data("buy milk", Effort::Low));
        },
        other => panic!("unexpected body {:?}", other),
    }
    assert_eq!(get_task_response(Err(RepositoryError::NotFound)).status, 404);
    assert_eq!(get_task_response(Err(RepositoryError::InvalidIdentifier)).status, 400);
    assert_eq!(get_task_response(Err(RepositoryError::StorageUnavailable)).status, 500);
}

#[test]
fn a_listing_is_answered_in_its_order() {
    let mut second = sample();
    second.id.bytes[11] = 0x0b;
    second.data = data("walk dog", Effort::High);
    let resp = get_all_tasks_response(Ok(vec![sample(), second]));
    assert_eq!(resp.status, 200);
    match resp.body {
        Body::Tasks(list) => {
            assert_eq!(list.len(), 2);
            assert_eq!(list[0].id, "53e37d08776f724e4200000a");
            assert_eq!(list[0].data, data("buy milk", Effort::Low));
            assert_eq!(list[1].id, "53e37d08776f724e4200000b");
            assert_eq!(list[1].data, data("walk dog", Effort::High));
        },
        other => panic!("unexpected body {:?}", other),
    }
    let empty = get_all_tasks_response(Ok(Vec::new()));
    assert_eq!(empty.status, 200);
    assert!(matches!(empty.body, Body::Tasks(ref list) if list.is_empty()));
    let failed = get_all_tasks_response(Err(RepositoryError::StorageUnavailable));
    assert_eq!(failed.status, 500);
    assert!(matches!(failed.body, Body::Empty));
}

#[test]
fn writes_are_answered_without_a_body() {
    for resp in [update_task_response(Ok(())), delete_task_response(Ok(()))] {
        assert_eq!(resp.status, 200);
        assert!(matches!(resp.body, Body::Empty));
    }
    assert_eq!(update_task_response(Err(RepositoryError::InvalidIdentifier)).status, 400);
    assert_eq!(update_task_response(Err(RepositoryError::StorageUnavailable)).status, 500);
    assert_eq!(delete_task_response(Err(RepositoryError::InvalidIdentifier)).status, 400);
    assert_eq!(delete_task_response(Err(RepositoryError::StorageUnavailable)).status, 500);
}

#[test]
fn a_task_lives_from_post_to_delete() {
    let mut service = service();

    let created = service.create_task(data("buy milk", Effort::Low));
    assert_eq!(created.status, 201);
    let id = match created.body {
        Body::Task(json) => {
            assert_eq!(json.id.len(), 24);
            assert!(json.id.chars().all(|c| c.is_ascii_hexdigit()));
            assert_eq!(json.data.name, "buy milk");
            assert_eq!(json.data.effort.wire_name(), "low");
            json.id
        },
        other => panic!("unexpected body {:?}", other),
    };

    let updated = service.update_task(&id, data("buy milk", Effort::High));
    assert_eq!(updated.status, 200);
    assert!(matches!(updated.body, Body::Empty));

    let read = service.get_task(&id);
    assert_eq!(read.status, 200);
    match read.body {
        Body::Task(json) => {
            assert_eq!(json.id, id);
            assert_eq!(json.data.name, "buy milk");
            assert_eq!(json.data.effort.wire_name(), "high");
        },
        other => panic!("unexpected body {:?}", other),
    }

    let deleted = service.delete_task(&id);
    assert_eq!(deleted.status, 200);
    assert!(matches!(deleted.body, Body::Empty));

    let gone = service.get_task(&id);
    assert_eq!(gone.status, 404);
    assert!(matches!(gone.body, Body::Empty));
}

#[test]
fn the_service_lists_what_it_stored() {
    let mut service = service();
    let empty = service.get_all_tasks();
    assert_eq!(empty.status, 200);
    assert!(matches!(empty.body, Body::Tasks(ref list) if list.is_empty()));
    for name in ["a", "b", "c"] {
        assert_eq!(service.create_task(data(name, Effort::Medium)).status, 201);
    }
    match service.get_all_tasks().body {
        Body::Tasks(list) => {
            let mut names: Vec<String> = list.iter().map(|json| json.data.name.clone()).collect();
            names.sort();
            assert_eq!(names, vec!["a", "b", "c"]);
            let mut ids: Vec<String> = list.iter().map(|json| json.id.clone()).collect();
            ids.sort();
            ids.dedup();
            assert_eq!(ids.len(), 3);
        },
        other => panic!("unexpected body {:?}", other),
    }
}

#[test]
fn the_service_refuses_malformed_identifiers() {
    let mut service = service();
    assert_eq!(service.get_task("42").status, 400);
    assert_eq!(service.update_task("42", data("a", Effort::Low)).status, 400);
    assert_eq!(service.delete_task("42").status, 400);
}

#[test]
fn the_service_tells_missing_from_malformed() {
    let mut service = service();
    let missing = "53e37d08776f724e4200000a";
    assert_eq!(service.get_task(missing).status, 404);
    assert_eq!(service.update_task(missing, data("a", Effort::Low)).status, 200);
    assert_eq!(service.delete_task(missing).status, 200);
    assert_eq!(service.get_task(missing).status, 404);
}
