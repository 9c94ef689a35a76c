use hexarch_example::memory::InMemoryAuthorRepository;
use hexarch_example::model::{
    AuthorName, CreateAuthorError, CreateAuthorRequest, DeleteAuthorError, DeleteAuthorRequest,
    EmailAddress, FindAuthorError, FindAuthorRequest, UpdateAuthorError, UpdateAuthorRequest,
};
use hexarch_example::repository::AuthorRepository;

fn request(name: &str, email: &str) -> CreateAuthorRequest {
    CreateAuthorRequest::new(AuthorName::new(name).unwrap(), EmailAddress::new(email).unwrap())
}

#[test]
fn create_then_find_returns_submitted_author() {
    let mut repo = InMemoryAuthorRepository::new();
    let created = repo.create_author(&request("JRR Tolkien", "jrr.tolkien@example.com")).unwrap();
    assert!(created.id() >= 1);
    let found = repo.find_author(&FindAuthorRequest::new(created.id())).unwrap();
    assert_eq!(found.id(), created.id());
    assert_eq!(found.name().to_string(), "JRR Tolkien");
    assert_eq!(found.email().to_string(), "jrr.tolkien@example.com");
}

#[test]
fn same_name_twice_is_duplicate() {
    let mut repo = InMemoryAuthorRepository::new();
    repo.create_author(&request("JRR Tolkien", "jrr.tolkien@example.com")).unwrap();
    let second = repo.create_author(&request("JRR Tolkien", "other@example.com"));
    match second {
        Err(CreateAuthorError::Duplicate { name }) => assert_eq!(name, "JRR Tolkien"),
        other => panic!("expected a duplicate, got {other:?}"),
    }
    assert_eq!(repo.find_all_authors().unwrap().len(), 1);
}

#[test]
fn find_never_created_id_is_not_found() {
    let repo = InMemoryAuthorRepository::new();
    match repo.find_author(&FindAuthorRequest::new(999999)) {
        Err(FindAuthorError::NotFound { id }) => assert_eq!(id, 999999),
        other => panic!("expected not found, got {other:?}"),
    }
}

#[test]
fn find_all_lists_each_created_author_once() {
    let mut repo = InMemoryAuthorRepository::new();
    let a = repo.create_author(&request("Ann", "ann@example.com")).unwrap();
    let b = repo.create_author(&request("Bob", "bob@example.com")).unwrap();
    let _ = repo.create_author(&request("Ann", "ann2@example.com"));
    let c = repo.create_author(&request("Cy", "cy@example.com")).unwrap();
    let all = repo.find_all_authors().unwrap();
    let ids: Vec<u64> = all.iter().map(|x| x.id()).collect();
    assert_eq!(ids, vec![a.id(), b.id(), c.id()]);
    assert_eq!(ids, vec![1, 2, 3]);
    let names: Vec<String> = all.iter().map(|x| x.name().to_string()).collect();
    assert_eq!(names, vec!["Ann", "Bob", "Cy"]);
}

#[test]
fn empty_repository_lists_nothing() {
    let repo = InMemoryAuthorRepository::new();
    assert!(repo.find_all_authors().unwrap().is_empty());
}

#[test]
fn delete_missing_is_not_found() {
    let mut repo = InMemoryAuthorRepository::new();
    match repo.delete_author(&DeleteAuthorRequest::new(5)) {
        Err(DeleteAuthorError::NotFound { id }) => assert_eq!(id, 5),
        other => panic!("expected not found, got {other:?}"),
    }
}

#[test]
fn delete_existing_then_find_is_not_found() {
    let mut repo = InMemoryAuthorRepository::new();
    let a = repo.create_author(&request("Ann", "ann@example.com")).unwrap();
    let b = repo.create_author(&request("Bob", "bob@example.com")).unwrap();
    repo.delete_author(&DeleteAuthorRequest::new(a.id())).unwrap();
    assert!(matches!(
        repo.find_author(&FindAuthorRequest::new(a.id())),
        Err(FindAuthorError::NotFound { id }) if id == a.id()
    ));
    assert_eq!(repo.find_author(&FindAuthorRequest::new(b.id())).unwrap().name().to_string(), "Bob");
    // a deleted name is free again, and ids are not reused
    let again = repo.create_author(&request("Ann", "ann@example.com")).unwrap();
    assert_eq!(again.id(), 3);
}

#[test]
fn update_sets_only_given_fields() {
    let mut repo = InMemoryAuthorRepository::new();
    let a = repo.create_author(&request("Ann", "ann@example.com")).unwrap();
    let mut req = UpdateAuthorRequest::new(a.id());
    req.set_email(EmailAddress::new("ann@new-host.org").unwrap());
    repo.update_author(&req).unwrap();
    let found = repo.find_author(&FindAuthorRequest::new(a.id())).unwrap();
    assert_eq!(found.name().to_string(), "Ann");
    assert_eq!(found.email().to_string(), "ann@new-host.org");
    let mut req = UpdateAuthorRequest::new(a.id());
    req.set_name(AuthorName::new("Anne").unwrap());
    repo.update_author(&req).unwrap();
    let found = repo.find_author(&FindAuthorRequest::new(a.id())).unwrap();
    assert_eq!(found.name().to_string(), "Anne");
    assert_eq!(found.email().to_string(), "ann@new-host.org");
}

#[test]
fn update_missing_is_not_found() {
    let mut repo = InMemoryAuthorRepository::new();
    match repo.update_author(&UpdateAuthorRequest::new(3)) {
        Err(UpdateAuthorError::NotFound { id }) => assert_eq!(id, 3),
        other => panic!("expected not found, got {other:?}"),
    }
}

#[test]
fn update_to_taken_name_is_unknown() {
    let mut repo = InMemoryAuthorRepository::new();
    let a = repo.create_author(&request("Ann", "ann@example.com")).unwrap();
    repo.create_author(&request("Bob", "bob@example.com")).unwrap();
    let mut req = UpdateAuthorRequest::new(a.id());
    req.set_name(AuthorName::new("Bob").unwrap());
    assert!(matches!(repo.update_author(&req), Err(UpdateAuthorError::Unknown(_))));
    let found = repo.find_author(&FindAuthorRequest::new(a.id())).unwrap();
    assert_eq!(found.name().to_string(), "Ann");
}

#[test]
fn update_request_accessors() {
    let mut req = UpdateAuthorRequest::new(9);
    assert_eq!(req.id(), 9);
    assert!(req.name().is_none());
    assert!(req.email().is_none());
    req.set_name(AuthorName::new("Ann").unwrap());
    assert_eq!(req.name().unwrap().to_string(), "Ann");
    assert!(req.email().is_none());
}
