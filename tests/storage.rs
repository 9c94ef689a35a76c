use hexarch_example::model::{
    Author, AuthorName, CreateAuthorError, CreateAuthorRequest, DeleteAuthorError,
    DeleteAuthorRequest, EmailAddress, FindAuthorError, FindAuthorRequest, UpdateAuthorError,
    UpdateAuthorRequest,
};
use hexarch_example::storage::{
    author_from_row, create_author_outcome, delete_author_outcome, find_all_authors_outcome,
    find_author_outcome, is_unique_constraint_violation, row_id, update_author_outcome,
    update_statement, StoreFailure,
};

fn tolkien() -> CreateAuthorRequest {
    CreateAuthorRequest::new(
        AuthorName::new("JRR Tolkien").unwrap(),
        EmailAddress::new("jrr.tolkien@example.com").unwrap(),
    )
}

fn unique_violation() -> StoreFailure {
    StoreFailure::Database {
        code: Some("2067".to_string()),
        message: "UNIQUE constraint failed: author.name".to_string(),
    }
}

#[test]
fn unique_violation_is_recognised_by_code() {
    assert!(is_unique_constraint_violation(&unique_violation()));
    let other = StoreFailure::Database { code: Some("787".to_string()), message: "fk".to_string() };
    assert!(!is_unique_constraint_violation(&other));
    let none = StoreFailure::Database { code: None, message: "x".to_string() };
    assert!(!is_unique_constraint_violation(&none));
    assert!(!is_unique_constraint_violation(&StoreFailure::RowNotFound));
}

#[test]
fn create_outcome_maps_failures() {
    match create_author_outcome(&tolkien(), Err(unique_violation())) {
        Err(CreateAuthorError::Duplicate { name }) => assert_eq!(name, "JRR Tolkien"),
        other => panic!("expected duplicate, got {other:?}"),
    }
    match create_author_outcome(&tolkien(), Err(StoreFailure::Other("pool closed".to_string()))) {
        Err(CreateAuthorError::Unknown(cause)) => {
            assert_eq!(cause, "Failed to create author with name \"JRR Tolkien\": pool closed")
        }
        other => panic!("expected unknown, got {other:?}"),
    }
    let stored = author_from_row(3, "JRR Tolkien", "jrr.tolkien@example.com").unwrap();
    let created = create_author_outcome(&tolkien(), Ok(stored)).unwrap();
    assert_eq!(created.id(), 3);
}

#[test]
fn find_outcome_maps_failures() {
    match find_author_outcome(&FindAuthorRequest::new(999999), Err(StoreFailure::RowNotFound)) {
        Err(FindAuthorError::NotFound { id }) => assert_eq!(id, 999999),
        other => panic!("expected not found, got {other:?}"),
    }
    match find_author_outcome(&FindAuthorRequest::new(12), Err(unique_violation())) {
        Err(FindAuthorError::Unknown(cause)) => assert_eq!(
            cause,
            "Failed to retrieve author with id \"12\": UNIQUE constraint failed: author.name"
        ),
        other => panic!("expected unknown, got {other:?}"),
    }
}

#[test]
fn find_all_outcome_maps_failures() {
    let err = find_all_authors_outcome(Err(StoreFailure::RowNotFound)).unwrap_err();
    assert_eq!(err.0, "Failed to retrieve all authors: no matching row");
    let list: Vec<Author> = vec![author_from_row(1, "A", "a@b.com").unwrap()];
    assert_eq!(find_all_authors_outcome(Ok(list)).unwrap().len(), 1);
}

#[test]
fn update_and_delete_outcomes_count_rows() {
    let req = UpdateAuthorRequest::new(8);
    assert!(matches!(update_author_outcome(&req, Ok(0)), Err(UpdateAuthorError::NotFound { id: 8 })));
    assert!(update_author_outcome(&req, Ok(1)).is_ok());
    match update_author_outcome(&req, Err(StoreFailure::Other("io".to_string()))) {
        Err(UpdateAuthorError::Unknown(c)) => {
            assert_eq!(c, "Failed to update author with id \"8\": io")
        }
        other => panic!("expected unknown, got {other:?}"),
    }
    let req = DeleteAuthorRequest::new(5);
    assert!(matches!(delete_author_outcome(&req, Ok(0)), Err(DeleteAuthorError::NotFound { id: 5 })));
    assert!(matches!(
        delete_author_outcome(&req, Err(StoreFailure::RowNotFound)),
        Err(DeleteAuthorError::NotFound { id: 5 })
    ));
    assert!(delete_author_outcome(&req, Ok(1)).is_ok());
    match delete_author_outcome(&req, Err(StoreFailure::Other("io".to_string()))) {
        Err(DeleteAuthorError::Unknown(c)) => {
            assert_eq!(c, "Failed to delete author with id \"5\": io")
        }
        other => panic!("expected unknown, got {other:?}"),
    }
}

#[test]
fn rows_become_authors() {
    let a = author_from_row(7, " raw ", "raw").unwrap();
    assert_eq!(a.id(), 7);
    assert_eq!(a.name().to_string(), " raw ");
    assert_eq!(a.email().to_string(), "raw");
    assert!(matches!(author_from_row(-1, "a", "b"), Err(StoreFailure::Other(_))));
}

#[test]
fn ids_map_to_stored_integers() {
    assert_eq!(row_id(0), Some(0));
    assert_eq!(row_id(9223372036854775807), Some(i64::MAX));
    assert_eq!(row_id(9223372036854775808), None);
}

#[test]
fn update_statement_sets_only_given_fields() {
    let mut req = UpdateAuthorRequest::new(1);
    assert!(update_statement(&req).is_none());
    req.set_email(EmailAddress::new("e@x.io").unwrap());
    let st = update_statement(&req).unwrap();
    assert_eq!(st.sql, "UPDATE author SET email = ? WHERE id = ?");
    assert_eq!(st.binds, vec!["e@x.io".to_string()]);
    req.set_name(AuthorName::new("N").unwrap());
    let st = update_statement(&req).unwrap();
    assert_eq!(st.sql, "UPDATE author SET name = ?, email = ? WHERE id = ?");
    assert_eq!(st.binds, vec!["N".to_string(), "e@x.io".to_string()]);
    let mut only_name = UpdateAuthorRequest::new(2);
    only_name.set_name(AuthorName::new("M").unwrap());
    let st = update_statement(&only_name).unwrap();
    assert_eq!(st.sql, "UPDATE author SET name = ? WHERE id = ?");
    assert_eq!(st.binds, vec!["M".to_string()]);
}
