use todo_service::errors::AppError;
use todo_service::handlers::{
    create_todo, create_todo_at, delete_todo, get_todo_by_id, get_todos, update_todo,
    update_todo_at,
};
use todo_service::models::{CreateTodo, UpdateTodo};
use todo_service::store::TodoStore;

fn create_req(title: &str, description: Option<&str>) -> CreateTodo {
    CreateTodo {
        title: title.to_string(),
        description: description.map(|d| d.to_string()),
    }
}

#[test]
fn create_sets_defaults_and_get_returns_identical() {
    let mut store = TodoStore::new();
    let created = create_todo(&mut store, create_req("Buy milk", None)).unwrap();
    assert_eq!(created.title, "Buy milk");
    assert_eq!(created.description, None);
    assert!(!created.completed);
    assert_eq!(created.created_at, created.updated_at);

    let fetched = get_todo_by_id(&store, created.id).unwrap();
    assert_eq!(fetched.id, created.id);
    assert_eq!(fetched.title, created.title);
    assert_eq!(fetched.description, created.description);
    assert_eq!(fetched.completed, created.completed);
    assert_eq!(fetched.created_at, created.created_at);
    assert_eq!(fetched.updated_at, created.updated_at);
}

#[test]
fn create_mints_distinct_ids() {
    let mut store = TodoStore::new();
    let first = create_todo(&mut store, create_req("one", None)).unwrap();
    let second = create_todo(&mut store, create_req("two", None)).unwrap();
    let third = create_todo(&mut store, create_req("three", None)).unwrap();
    assert_ne!(first.id, second.id);
    assert_ne!(first.id, third.id);
    assert_ne!(second.id, third.id);
}

#[test]
fn create_empty_title_rejected_and_no_row_created() {
    let mut store = TodoStore::new();
    let err = create_todo(&mut store, create_req("", Some("ignored"))).unwrap_err();
    assert_eq!(err.status_code(), 400);
    assert_eq!(
        err.client_message().as_str(),
        "Input validation failed: Title cannot be empty"
    );
    assert!(matches!(err, AppError::ValidationError(_)));
    assert!(get_todos(&store).is_empty());
}

#[test]
fn whitespace_title_is_accepted_untrimmed() {
    let mut store = TodoStore::new();
    let created = create_todo(&mut store, create_req("   ", None)).unwrap();
    assert_eq!(created.title, "   ");
}

#[test]
fn scenario_buy_milk_lifecycle() {
    let mut store = TodoStore::new();
    let created = create_todo(&mut store, create_req("Buy milk", None)).unwrap();
    assert!(!created.completed);
    assert_eq!(created.description, None);

    let update = UpdateTodo {
        title: None,
        description: None,
        completed: Some(true),
    };
    let updated = update_todo(&mut store, created.id, update).unwrap();
    assert_eq!(updated.title, "Buy milk");
    assert!(updated.completed);

    delete_todo(&mut store, created.id).unwrap();
    let err = get_todo_by_id(&store, created.id).unwrap_err();
    assert!(matches!(err, AppError::NotFound));
    assert_eq!(err.status_code(), 404);
}

#[test]
fn repeated_delete_and_get_on_missing_id_not_found() {
    let mut store = TodoStore::new();
    let absent: u128 = 42;
    let first = delete_todo(&mut store, absent).unwrap_err();
    let second = delete_todo(&mut store, absent).unwrap_err();
    assert!(matches!(first, AppError::NotFound));
    assert!(matches!(second, AppError::NotFound));
    assert!(matches!(
        get_todo_by_id(&store, absent).unwrap_err(),
        AppError::NotFound
    ));
    assert!(matches!(
        get_todo_by_id(&store, absent).unwrap_err(),
        AppError::NotFound
    ));

    let kept = create_todo_at(&mut store, create_req("keep", None), 7, 10).unwrap();
    delete_todo(&mut store, kept.id).unwrap();
    let again = delete_todo(&mut store, kept.id).unwrap_err();
    assert!(matches!(again, AppError::NotFound));
}

#[test]
fn update_with_only_completed_keeps_title_and_overwrites_description() {
    let mut store = TodoStore::new();
    create_todo_at(&mut store, create_req("task", Some("note")), 1, 10).unwrap();

    let update = UpdateTodo {
        title: None,
        description: None,
        completed: Some(true),
    };
    let updated = update_todo_at(&mut store, 1, update, 20).unwrap();
    assert_eq!(updated.title, "task");
    assert!(updated.completed);
    assert_eq!(updated.description, None);

    let update = UpdateTodo {
        title: None,
        description: Some("fresh note".to_string()),
        completed: None,
    };
    let updated = update_todo_at(&mut store, 1, update, 30).unwrap();
    assert_eq!(updated.title, "task");
    assert!(updated.completed);
    assert_eq!(updated.description, Some("fresh note".to_string()));
}

#[test]
fn update_advances_updated_at_and_keeps_created_at() {
    let mut store = TodoStore::new();
    let created = create_todo_at(&mut store, create_req("task", None), 1, 10).unwrap();
    assert_eq!(created.created_at, 10);
    assert_eq!(created.updated_at, 10);

    let update = UpdateTodo {
        title: Some("renamed".to_string()),
        description: None,
        completed: None,
    };
    let updated = update_todo_at(&mut store, 1, update, 25).unwrap();
    assert_eq!(updated.created_at, 10);
    assert_eq!(updated.updated_at, 25);
    assert!(updated.updated_at > created.updated_at);
    assert_eq!(updated.title, "renamed");
}

#[test]
fn update_with_clock_before_creation_clamps_to_created_at() {
    let mut store = TodoStore::new();
    create_todo_at(&mut store, create_req("task", None), 1, 100).unwrap();

    let update = UpdateTodo {
        title: None,
        description: None,
        completed: Some(true),
    };
    let updated = update_todo_at(&mut store, 1, update, 40).unwrap();
    assert_eq!(updated.created_at, 100);
    assert_eq!(updated.updated_at, 100);
    assert!(updated.created_at <= updated.updated_at);
}

#[test]
fn update_missing_id_not_found_and_empty_title_rejected() {
    let mut store = TodoStore::new();
    let update = UpdateTodo {
        title: None,
        description: None,
        completed: Some(true),
    };
    let err = update_todo(&mut store, 9, update).unwrap_err();
    assert!(matches!(err, AppError::NotFound));

    create_todo_at(&mut store, create_req("task", None), 9, 10).unwrap();
    let update = UpdateTodo {
        title: Some(String::new()),
        description: None,
        completed: None,
    };
    let err = update_todo(&mut store, 9, update).unwrap_err();
    assert_eq!(err.status_code(), 400);
    assert_eq!(
        err.client_message().as_str(),
        "Input validation failed: Title cannot be empty"
    );
    let unchanged = get_todo_by_id(&store, 9).unwrap();
    assert_eq!(unchanged.title, "task");
}

#[test]
fn list_returns_most_recently_created_first() {
    let mut store = TodoStore::new();
    create_todo_at(&mut store, create_req("first", None), 1, 10).unwrap();
    create_todo_at(&mut store, create_req("second", None), 2, 20).unwrap();
    create_todo_at(&mut store, create_req("third", None), 3, 30).unwrap();

    let listed = get_todos(&store);
    let ids: Vec<u128> = listed.iter().map(|t| t.id).collect();
    assert_eq!(ids, vec![3, 2, 1]);
    assert_eq!(listed[0].title, "third");
    assert_eq!(listed[2].title, "first");
}

#[test]
fn list_with_equal_creation_times_shows_later_insertion_first() {
    let mut store = TodoStore::new();
    create_todo_at(&mut store, create_req("earlier", None), 1, 10).unwrap();
    create_todo_at(&mut store, create_req("later", None), 2, 10).unwrap();

    let listed = get_todos(&store);
    let ids: Vec<u128> = listed.iter().map(|t| t.id).collect();
    assert_eq!(ids, vec![2, 1]);
}

#[test]
fn list_of_empty_store_is_empty() {
    let store = TodoStore::new();
    assert!(get_todos(&store).is_empty());
}

#[test]
fn duplicate_id_surfaces_as_storage_failure() {
    let mut store = TodoStore::new();
    create_todo_at(&mut store, create_req("one", None), 5, 10).unwrap();
    let err = create_todo_at(&mut store, create_req("two", None), 5, 20).unwrap_err();
    assert!(matches!(err, AppError::SqlxError(_)));
    assert_eq!(err.status_code(), 500);
    assert_eq!(
        err.client_message().as_str(),
        "An internal database error occurred."
    );
    let listed = get_todos(&store);
    assert_eq!(listed.len(), 1);
    assert_eq!(listed[0].title, "one");
}
