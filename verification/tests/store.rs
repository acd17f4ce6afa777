use todo_store::{Status, StoreError, Todo, TodoRecord, TodoStore, UpdateTodo};

fn only_status(status: Status) -> UpdateTodo {
    UpdateTodo { status: Some(status), description: None, start_date: None, end_date: None }
}

fn record(id: u32, title: &str, status: &str) -> TodoRecord {
    TodoRecord {
        id,
        title: title.to_string(),
        status: status.to_string(),
        description: String::new(),
        start_date: String::new(),
        end_date: String::new(),
    }
}

fn ids(store: &TodoStore) -> Vec<u32> {
    let mut out: Vec<u32> = Vec::new();
    for todo in store.get_todos() {
        out.push(todo.id);
    }
    out
}

#[test]
fn new_store_is_empty() {
    let store = TodoStore::new();
    assert_eq!(store.len(), 0);
    assert_eq!(store.get_todos(), Vec::<Todo>::new());
    assert_eq!(store.next_id(), Some(1));
}

#[test]
fn buy_milk_scenario() {
    let mut store = TodoStore::new();

    let milk = store.add_todo("Buy milk".to_string());
    assert_eq!(
        milk,
        Todo {
            id: 1,
            title: "Buy milk".to_string(),
            status: Status::Todo,
            description: String::new(),
            start_date: String::new(),
            end_date: String::new(),
        }
    );
    assert_eq!(milk.status.as_str(), "todo");

    let report = store.add_todo("Write report".to_string());
    assert_eq!(report.id, 2);
    assert_eq!(report.title, "Write report");

    let changed = store.update_todo(1, &only_status(Status::Completed)).unwrap();
    assert_eq!(changed.id, 1);
    assert_eq!(changed.status, Status::Completed);
    assert_eq!(changed.status.as_str(), "completed");
    assert_eq!(changed.title, "Buy milk");
    assert_eq!(store.get_todo_by_id(1), Ok(changed.clone()));

    assert_eq!(store.delete_todo(2), Ok(()));
    assert_eq!(ids(&store), vec![1]);

    let listed = store.get_todos();
    assert_eq!(listed, vec![changed]);
}

#[test]
fn created_ids_are_pairwise_distinct() {
    let mut store = TodoStore::new();
    let mut given: Vec<u32> = Vec::new();
    for n in 0..40 {
        given.push(store.add_todo(format!("item {}", n)).id);
    }
    for a in 0..given.len() {
        for b in 0..given.len() {
            if a != b {
                assert_ne!(given[a], given[b]);
            }
        }
    }
    assert_eq!(given, (1..=40).collect::<Vec<u32>>());
    assert_eq!(ids(&store), given);
}

#[test]
fn first_id_is_one() {
    let mut store = TodoStore::new();
    assert_eq!(store.add_todo("a".to_string()).id, 1);
}

#[test]
fn next_id_follows_the_largest_in_use() {
    let records = vec![record(3, "c", "todo"), record(10, "j", "todo"), record(7, "g", "todo")];
    let mut store = TodoStore::restore(&records).unwrap();
    assert_eq!(store.next_id(), Some(11));
    let todo = store.add_todo("k".to_string());
    assert_eq!(todo.id, 11);
    assert_eq!(ids(&store), vec![3, 10, 7, 11]);
}

#[test]
fn deleting_below_the_largest_frees_no_id() {
    let mut store = TodoStore::new();
    store.add_todo("a".to_string());
    store.add_todo("b".to_string());
    store.add_todo("c".to_string());
    assert_eq!(store.delete_todo(1), Ok(()));
    assert_eq!(store.add_todo("d".to_string()).id, 4);
    assert_eq!(ids(&store), vec![2, 3, 4]);
}

#[test]
fn deleting_the_largest_frees_its_id() {
    let mut store = TodoStore::new();
    store.add_todo("a".to_string());
    store.add_todo("b".to_string());
    store.add_todo("c".to_string());
    assert_eq!(store.delete_todo(3), Ok(()));
    let again = store.add_todo("d".to_string());
    assert_eq!(again.id, 3);
    assert_eq!(again.title, "d");
    assert_eq!(ids(&store), vec![1, 2, 3]);
}

#[test]
fn deleting_everything_starts_again_at_one() {
    let mut store = TodoStore::new();
    store.add_todo("a".to_string());
    store.add_todo("b".to_string());
    assert_eq!(store.delete_todo(2), Ok(()));
    assert_eq!(store.delete_todo(1), Ok(()));
    assert_eq!(store.len(), 0);
    assert_eq!(store.add_todo("c".to_string()).id, 1);
}

#[test]
fn no_next_id_after_the_largest_that_fits() {
    let records = vec![record(u32::MAX, "last", "todo")];
    let store = TodoStore::restore(&records).unwrap();
    assert_eq!(store.next_id(), None);

    let records = vec![record(u32::MAX - 1, "last but one", "todo")];
    let mut store = TodoStore::restore(&records).unwrap();
    assert_eq!(store.next_id(), Some(u32::MAX));
    assert_eq!(store.add_todo("last".to_string()).id, u32::MAX);
    assert_eq!(store.next_id(), None);
}

#[test]
fn an_empty_title_is_taken() {
    let mut store = TodoStore::new();
    let todo = store.add_todo(String::new());
    assert_eq!(todo.id, 1);
    assert_eq!(todo.title, "");
}

#[test]
fn status_only_update_leaves_the_rest() {
    let mut store = TodoStore::new();
    store.add_todo("a".to_string());
    let filled = UpdateTodo {
        status: None,
        description: Some("two litres".to_string()),
        start_date: Some("2024-01-01".to_string()),
        end_date: Some("2024-01-02".to_string()),
    };
    store.update_todo(1, &filled).unwrap();

    let after = store.update_todo(1, &only_status(Status::InProgress)).unwrap();
    assert_eq!(after.status, Status::InProgress);
    assert_eq!(after.description, "two litres");
    assert_eq!(after.start_date, "2024-01-01");
    assert_eq!(after.end_date, "2024-01-02");
    assert_eq!(after.title, "a");
    assert_eq!(after.id, 1);
    assert_eq!(store.get_todos(), vec![after]);
}

#[test]
fn update_writes_each_given_field() {
    let mut store = TodoStore::new();
    store.add_todo("a".to_string());

    let description = UpdateTodo {
        status: None,
        description: Some("d".to_string()),
        start_date: None,
        end_date: None,
    };
    let after = store.update_todo(1, &description).unwrap();
    assert_eq!(
        (after.status, after.description.as_str(), after.start_date.as_str(), after.end_date.as_str()),
        (Status::Todo, "d", "", "")
    );

    let start = UpdateTodo {
        status: None,
        description: None,
        start_date: Some("s".to_string()),
        end_date: None,
    };
    let after = store.update_todo(1, &start).unwrap();
    assert_eq!(
        (after.status, after.description.as_str(), after.start_date.as_str(), after.end_date.as_str()),
        (Status::Todo, "d", "s", "")
    );

    let end = UpdateTodo {
        status: None,
        description: None,
        start_date: None,
        end_date: Some("e".to_string()),
    };
    let after = store.update_todo(1, &end).unwrap();
    assert_eq!(
        (after.status, after.description.as_str(), after.start_date.as_str(), after.end_date.as_str()),
        (Status::Todo, "d", "s", "e")
    );

    let all = UpdateTodo {
        status: Some(Status::Completed),
        description: Some(String::new()),
        start_date: Some("x".to_string()),
        end_date: Some("y".to_string()),
    };
    let after = store.update_todo(1, &all).unwrap();
    assert_eq!(
        (after.status, after.description.as_str(), after.start_date.as_str(), after.end_date.as_str()),
        (Status::Completed, "", "x", "y")
    );
}

#[test]
fn empty_update_changes_nothing() {
    let mut store = TodoStore::new();
    store.add_todo("a".to_string());
    store.update_todo(1, &only_status(Status::InProgress)).unwrap();
    let before = store.get_todos();
    let after = store.update_todo(1, &UpdateTodo::none()).unwrap();
    assert_eq!(store.get_todos(), before);
    assert_eq!(after, before[0]);
}

#[test]
fn any_status_may_follow_any_other() {
    let all = [Status::Todo, Status::InProgress, Status::Completed];
    for from in all {
        for to in all {
            let mut store = TodoStore::new();
            store.add_todo("a".to_string());
            store.update_todo(1, &only_status(from)).unwrap();
            let after = store.update_todo(1, &only_status(to)).unwrap();
            assert_eq!(after.status, to);
        }
    }
}

#[test]
fn update_touches_only_the_named_item() {
    let mut store = TodoStore::new();
    store.add_todo("a".to_string());
    store.add_todo("b".to_string());
    store.add_todo("c".to_string());
    let before = store.get_todos();
    store.update_todo(2, &only_status(Status::Completed)).unwrap();
    let after = store.get_todos();
    assert_eq!(after.len(), 3);
    assert_eq!(after[0], before[0]);
    assert_eq!(after[2], before[2]);
    assert_eq!(after[1].status, Status::Completed);
    assert_eq!(after[1].title, "b");
    assert_eq!(after[1].id, 2);
}

#[test]
fn update_of_a_missing_id_is_not_found() {
    let mut store = TodoStore::new();
    store.add_todo("a".to_string());
    store.add_todo("b".to_string());
    let before = store.get_todos();
    let all = UpdateTodo {
        status: Some(Status::Completed),
        description: Some("d".to_string()),
        start_date: Some("s".to_string()),
        end_date: Some("e".to_string()),
    };
    assert_eq!(store.update_todo(3, &all), Err(StoreError::NotFound));
    assert_eq!(store.update_todo(0, &all), Err(StoreError::NotFound));
    assert_eq!(store.get_todos(), before);

    let mut empty = TodoStore::new();
    assert_eq!(empty.update_todo(1, &all), Err(StoreError::NotFound));
    assert_eq!(empty.len(), 0);
}

#[test]
fn delete_removes_exactly_one() {
    let mut store = TodoStore::new();
    for title in ["a", "b", "c", "d"] {
        store.add_todo(title.to_string());
    }
    let before = store.get_todos();
    assert_eq!(store.delete_todo(2), Ok(()));
    let after = store.get_todos();
    assert_eq!(after.len(), before.len() - 1);
    assert_eq!(after, vec![before[0].clone(), before[2].clone(), before[3].clone()]);
    assert_eq!(store.get_todo_by_id(2), Err(StoreError::NotFound));
}

#[test]
fn delete_of_the_first_and_of_the_last() {
    let mut store = TodoStore::new();
    for title in ["a", "b", "c"] {
        store.add_todo(title.to_string());
    }
    assert_eq!(store.delete_todo(1), Ok(()));
    assert_eq!(ids(&store), vec![2, 3]);
    assert_eq!(store.delete_todo(3), Ok(()));
    assert_eq!(ids(&store), vec![2]);
    assert_eq!(store.delete_todo(2), Ok(()));
    assert_eq!(ids(&store), Vec::<u32>::new());
}

#[test]
fn delete_of_a_missing_id_is_not_found() {
    let mut store = TodoStore::new();
    store.add_todo("a".to_string());
    store.add_todo("b".to_string());
    let before = store.get_todos();
    assert_eq!(store.delete_todo(9), Err(StoreError::NotFound));
    assert_eq!(store.len(), 2);
    assert_eq!(store.get_todos(), before);
    assert_eq!(store.delete_todo(1), Ok(()));
    assert_eq!(store.delete_todo(1), Err(StoreError::NotFound));
    assert_eq!(store.len(), 1);

    let mut empty = TodoStore::new();
    assert_eq!(empty.delete_todo(1), Err(StoreError::NotFound));
}

#[test]
fn get_by_id_finds_the_item() {
    let mut store = TodoStore::new();
    store.add_todo("a".to_string());
    let second = store.add_todo("b".to_string());
    store.add_todo("c".to_string());
    assert_eq!(store.get_todo_by_id(2), Ok(second));
    assert_eq!(store.get_todo_by_id(3).unwrap().title, "c");
    assert_eq!(store.len(), 3);
}

#[test]
fn get_by_id_of_a_missing_id_is_not_found() {
    let mut store = TodoStore::new();
    assert_eq!(store.get_todo_by_id(1), Err(StoreError::NotFound));
    store.add_todo("a".to_string());
    assert_eq!(store.get_todo_by_id(0), Err(StoreError::NotFound));
    assert_eq!(store.get_todo_by_id(2), Err(StoreError::NotFound));
    assert_eq!(store.get_todo_by_id(u32::MAX), Err(StoreError::NotFound));
}

#[test]
fn list_keeps_the_order_of_creation() {
    let mut store = TodoStore::new();
    for title in ["z", "m", "a"] {
        store.add_todo(title.to_string());
    }
    let titles: Vec<String> = store.get_todos().into_iter().map(|todo| todo.title).collect();
    assert_eq!(titles, vec!["z", "m", "a"]);
}

#[test]
fn list_is_a_snapshot() {
    let mut store = TodoStore::new();
    store.add_todo("a".to_string());
    let snapshot = store.get_todos();
    store.update_todo(1, &only_status(Status::Completed)).unwrap();
    store.add_todo("b".to_string());
    assert_eq!(snapshot.len(), 1);
    assert_eq!(snapshot[0].status, Status::Todo);
    assert_eq!(store.len(), 2);
}

#[test]
fn new_todo_has_the_defaults() {
    let todo = Todo::new(5, "t".to_string());
    assert_eq!(todo.id, 5);
    assert_eq!(todo.title, "t");
    assert_eq!(todo.status, Status::Todo);
    assert_eq!(todo.status, Status::default());
    assert_eq!(todo.description, "");
    assert_eq!(todo.start_date, "");
    assert_eq!(todo.end_date, "");
}

#[test]
fn clone_copies_every_field() {
    let todo = Todo {
        id: 9,
        title: "t".to_string(),
        status: Status::InProgress,
        description: "d".to_string(),
        start_date: "s".to_string(),
        end_date: "e".to_string(),
    };
    let copy = todo.clone();
    assert_eq!(copy.id, 9);
    assert_eq!(copy.title, "t");
    assert_eq!(copy.status, Status::InProgress);
    assert_eq!(copy.description, "d");
    assert_eq!(copy.start_date, "s");
    assert_eq!(copy.end_date, "e");
    assert_eq!(copy, todo);
}

#[test]
fn apply_leaves_id_and_title() {
    let mut todo = Todo::new(4, "t".to_string());
    let all = UpdateTodo {
        status: Some(Status::Completed),
        description: Some("d".to_string()),
        start_date: Some("s".to_string()),
        end_date: Some("e".to_string()),
    };
    all.apply(&mut todo);
    assert_eq!(
        todo,
        Todo {
            id: 4,
            title: "t".to_string(),
            status: Status::Completed,
            description: "d".to_string(),
            start_date: "s".to_string(),
            end_date: "e".to_string(),
        }
    );
    UpdateTodo::none().apply(&mut todo);
    assert_eq!(todo.status, Status::Completed);
    assert_eq!(todo.description, "d");
}

#[test]
fn request_fields_become_an_update() {
    let update = UpdateTodo::from_fields(
        Some("in_progress".to_string()),
        Some("d".to_string()),
        None,
        Some("e".to_string()),
    );
    assert_eq!(
        update,
        Some(UpdateTodo {
            status: Some(Status::InProgress),
            description: Some("d".to_string()),
            start_date: None,
            end_date: Some("e".to_string()),
        })
    );
    assert_eq!(UpdateTodo::from_fields(None, None, None, None), Some(UpdateTodo::none()));
    assert_eq!(
        UpdateTodo::from_fields(Some("todo".to_string()), None, None, None),
        Some(only_status(Status::Todo))
    );
    assert_eq!(
        UpdateTodo::from_fields(Some("completed".to_string()), None, None, None),
        Some(only_status(Status::Completed))
    );
}

#[test]
fn request_with_an_unknown_status_is_no_update() {
    assert_eq!(UpdateTodo::from_fields(Some("done".to_string()), None, None, None), None);
    assert_eq!(
        UpdateTodo::from_fields(
            Some(String::new()),
            Some("d".to_string()),
            Some("s".to_string()),
            Some("e".to_string()),
        ),
        None
    );
}
