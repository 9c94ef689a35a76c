use hexarch_example::http::{
    create_author, delete_author, find_all_authors, find_author, AppState,
    CreateAuthorHttpRequest, CreateAuthorHttpResponse, FindAllAuthorsHttpResponse,
    FindAuthorHttpResponse, HttpServerConfig, HttpSuccess, BAD_REQUEST, CONFLICT, CREATED,
    NOT_FOUND, NO_CONTENT, OK, UNPROCESSABLE_ENTITY,
};
use hexarch_example::memory::InMemoryAuthorRepository;
use hexarch_example::model::{AuthorName, CreateAuthorRequest, EmailAddress};
use hexarch_example::repository::AuthorRepository;

fn repo_with_tolkien() -> InMemoryAuthorRepository {
    let mut repo = InMemoryAuthorRepository::new();
    let name = AuthorName::new("JRR Tolkien").unwrap();
    let email = EmailAddress::new("jrr.tolkien@example.com").unwrap();
    repo.create_author(&CreateAuthorRequest::new(name, email)).unwrap();
    repo
}

#[test]
fn create_author_handler_success() {
    let author_id = 1;
    let author_name = AuthorName::new("JRR Tolkien").unwrap();
    let author_email = EmailAddress::new("jrr.tolkien@example.com").unwrap();
    let mut state = AppState::new(InMemoryAuthorRepository::new());
    let body = CreateAuthorHttpRequest {
        name: author_name.to_string(),
        email: author_email.to_string(),
    };
    let expected = HttpSuccess::new(CREATED, CreateAuthorHttpResponse { id: author_id });
    let actual = create_author(&mut state, body);
    assert!(
        actual.is_ok(),
        "expected create author to succeed, but got {actual:?}",
    );
    let actual = actual.unwrap();
    assert_eq!(
        expected, actual,
        "expected ApiSuccess {expected:?}, but got {actual:?}",
    );
}

#[test]
fn find_author_handler_success() {
    let author_id = 1;
    let author_name = AuthorName::new("JRR Tolkien").unwrap();
    let author_email = EmailAddress::new("jrr.tolkien@example.com").unwrap();
    let state = AppState::new(repo_with_tolkien());
    let path = author_id.to_string();
    let expected = HttpSuccess::new(
        OK,
        FindAuthorHttpResponse {
            id: author_id,
            name: author_name.to_string(),
            email: author_email.to_string(),
        },
    );
    let actual = find_author(path, &state);
    assert!(
        actual.is_ok(),
        "expected find author to succeed, but got {actual:?}",
    );
    let actual = actual.unwrap();
    assert_eq!(
        expected, actual,
        "expected ApiSuccess {expected:?}, but got {actual:?}",
    );
}

#[test]
fn find_all_authors_handler_success() {
    let author_id = 1;
    let author_name = AuthorName::new("JRR Tolkien").unwrap();
    let author_email = EmailAddress::new("jrr.tolkien@example.com").unwrap();
    let state = AppState::new(repo_with_tolkien());
    let expected = HttpSuccess::new(
        OK,
        FindAllAuthorsHttpResponse(vec![FindAuthorHttpResponse {
            id: author_id,
            name: author_name.to_string(),
            email: author_email.to_string(),
        }]),
    );
    let actual = find_all_authors(&state);
    assert!(
        actual.is_ok(),
        "expected find author to succeed, but got {actual:?}",
    );
    let actual = actual.unwrap();
    assert_eq!(
        expected, actual,
        "expected ApiSuccess {expected:?}, but got {actual:?}",
    );
}

#[test]
fn delete_author_handler_success() {
    let author_id = 1;
    let mut state = AppState::new(repo_with_tolkien());
    let path = author_id.to_string();
    let expected = HttpSuccess::new(NO_CONTENT, ());
    let actual = delete_author(path, &mut state);
    assert!(
        actual.is_ok(),
        "expected delete author to succeed, but got {actual:?}",
    );
    let actual = actual.unwrap();
    assert_eq!(
        expected, actual,
        "expected ApiSuccess {expected:?}, but got {actual:?}",
    );
}

#[test]
fn create_handler_refuses_blank_name() {
    let mut state = AppState::new(InMemoryAuthorRepository::new());
    let body = CreateAuthorHttpRequest { name: "   ".to_string(), email: "a@b.com".to_string() };
    let err = create_author(&mut state, body).unwrap_err();
    assert_eq!(err.status, UNPROCESSABLE_ENTITY);
    assert_eq!(err.message, "Author name cannot be empty");
}

#[test]
fn create_handler_refuses_bad_email() {
    let mut state = AppState::new(InMemoryAuthorRepository::new());
    let body =
        CreateAuthorHttpRequest { name: "Ann".to_string(), email: " not-an-email ".to_string() };
    let err = create_author(&mut state, body).unwrap_err();
    assert_eq!(err.status, UNPROCESSABLE_ENTITY);
    assert_eq!(err.message, "not-an-email is not a valid email address");
    let body = CreateAuthorHttpRequest { name: "Ann".to_string(), email: "  ".to_string() };
    let err = create_author(&mut state, body).unwrap_err();
    assert_eq!(err.status, UNPROCESSABLE_ENTITY);
    assert_eq!(err.message, "Email address cannot be empty");
}

#[test]
fn create_handler_reports_duplicate_as_conflict() {
    let mut state = AppState::new(repo_with_tolkien());
    let body = CreateAuthorHttpRequest {
        name: " JRR Tolkien ".to_string(),
        email: "other@example.com".to_string(),
    };
    let err = create_author(&mut state, body).unwrap_err();
    assert_eq!(err.status, CONFLICT);
    assert_eq!(err.message, "author with name \"JRR Tolkien\" already exists");
}

#[test]
fn find_handler_reports_missing_and_malformed_ids() {
    let state = AppState::new(repo_with_tolkien());
    let err = find_author("999999".to_string(), &state).unwrap_err();
    assert_eq!(err.status, NOT_FOUND);
    assert_eq!(err.message, "author with id \"999999\" does not exist");
    let err = find_author("abc".to_string(), &state).unwrap_err();
    assert_eq!(err.status, BAD_REQUEST);
    assert_eq!(err.message, "Cannot parse id from \"abc\"");
    let err = find_author("-1".to_string(), &state).unwrap_err();
    assert_eq!(err.status, BAD_REQUEST);
}

#[test]
fn delete_handler_reports_missing_id() {
    let mut state = AppState::new(InMemoryAuthorRepository::new());
    let err = delete_author("7".to_string(), &mut state).unwrap_err();
    assert_eq!(err.status, NOT_FOUND);
    assert_eq!(err.message, "author with id \"7\" does not exist");
}

#[test]
fn delete_then_find_is_not_found_through_handlers() {
    let mut state = AppState::new(repo_with_tolkien());
    delete_author("1".to_string(), &mut state).unwrap();
    let err = find_author("1".to_string(), &state).unwrap_err();
    assert_eq!(err.status, NOT_FOUND);
    let listed = find_all_authors(&state).unwrap();
    assert_eq!(listed.data, FindAllAuthorsHttpResponse(vec![]));
}

#[test]
fn server_config_keeps_port() {
    assert_eq!(HttpServerConfig::new(8080).port(), 8080);
}
