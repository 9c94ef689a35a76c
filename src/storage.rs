//! The decisions of a relational storage adapter: which backend failures
//! are a taken name or a missing row, how a stored row becomes an author,
//! and which statement a partial update runs. The adapter runs the
//! statements and hands the backend's answers to these functions.

use vstd::prelude::*;
use vstd::string::StringExecFns;
use crate::model::{
    Author, AuthorName, AuthorView, CreateAuthorError, CreateAuthorRequest, DeleteAuthorError,
    DeleteAuthorRequest, EmailAddress, FindAllAuthorsError, FindAuthorError, FindAuthorRequest,
    UpdateAuthorError, UpdateAuthorRequest,
};
use crate::text::{decimal, decimal_string};

verus! {

/// The error code that SQLite gives for a violated unique constraint.
pub const UNIQUE_CONSTRAINT_VIOLATION_CODE: &'static str = "2067";

/// A failure that the storage backend reported, as plain values.
#[derive(Debug, Clone)]
pub enum StoreFailure {
    /// The query returned no row where it expected one.
    RowNotFound,
    /// The database refused the statement, with its error code if it gave one.
    Database { code: Option<String>, message: String },
    /// Any other failure (connection, pool, decoding), described.
    Other(String),
}

/// The failure is the database reporting a violated unique constraint.
pub open spec fn is_unique_violation(f: StoreFailure) -> bool {
    f matches StoreFailure::Database { code: Some(c), .. } && c@ == UNIQUE_CONSTRAINT_VIOLATION_CODE@
}

/// The description of a failure that an `Unknown` error keeps as its cause.
pub open spec fn failure_text(f: StoreFailure) -> Seq<char> {
    match f {
        StoreFailure::RowNotFound => "no matching row"@,
        StoreFailure::Database { message, .. } => message@,
        StoreFailure::Other(message) => message@,
    }
}

/// Whether the failure is a violated unique constraint.
pub fn is_unique_constraint_violation(f: &StoreFailure) -> (r: bool)
    ensures
        r == is_unique_violation(*f),
{
    match f {
        StoreFailure::Database { code: Some(c), .. } => {
            let expected = String::from_str(UNIQUE_CONSTRAINT_VIOLATION_CODE);
            *c == expected
        },
        _ => false,
    }
}

fn describe(f: &StoreFailure) -> (r: String)
    ensures
        r@ == failure_text(*f),
{
    match f {
        StoreFailure::RowNotFound => String::from_str("no matching row"),
        StoreFailure::Database { message, .. } => message.clone(),
        StoreFailure::Other(message) => message.clone(),
    }
}

/// `context`, then the failure's description.
pub open spec fn cause_text(context: Seq<char>, f: StoreFailure) -> Seq<char> {
    context + ": "@ + failure_text(f)
}

fn cause(context: String, f: &StoreFailure) -> (r: String)
    ensures
        r@ == cause_text(context@, *f),
{
    let text = describe(f);
    context.concat(": ").concat(text.as_str())
}

/// The context of a failed creation.
pub open spec fn create_context(name: Seq<char>) -> Seq<char> {
    "Failed to create author with name \""@ + name + "\""@
}

/// The context of a failed operation on the author with id `id`; `verb`
/// names the operation.
pub open spec fn id_context(verb: Seq<char>, id: u64) -> Seq<char> {
    "Failed to "@ + verb + " author with id \""@ + decimal(id as nat) + "\""@
}

fn id_context_string(verb: &str, id: u64) -> (r: String)
    ensures
        r@ == id_context(verb@, id),
{
    let digits = decimal_string(id);
    String::from_str("Failed to ").concat(verb).concat(" author with id \"").concat(
        digits.as_str(),
    ).concat("\"")
}

/// What creation returns once the backend answered: the stored author; a
/// violated unique constraint is `Duplicate` with the request's name; any
/// other failure is `Unknown` with its cause.
pub fn create_author_outcome(req: &CreateAuthorRequest, stored: Result<Author, StoreFailure>) -> (r:
    Result<Author, CreateAuthorError>)
    ensures
        match stored {
            Ok(a) => r matches Ok(b) && b@ == a@,
            Err(f) => if is_unique_violation(f) {
                r matches Err(CreateAuthorError::Duplicate { name }) && name@ == req.spec_name()
            } else {
                r matches Err(CreateAuthorError::Unknown(c)) && c@ == cause_text(
                    create_context(req.spec_name()),
                    f,
                )
            },
        },
{
    match stored {
        Ok(a) => Ok(a),
        Err(f) => {
            if is_unique_constraint_violation(&f) {
                Err(CreateAuthorError::Duplicate { name: req.name().to_string() })
            } else {
                let context = String::from_str("Failed to create author with name \"").concat(
                    req.name().as_str(),
                ).concat("\"");
                Err(CreateAuthorError::Unknown(cause(context, &f)))
            }
        },
    }
}

/// What finding returns once the backend answered: no row is `NotFound`
/// with the request's id; any other failure is `Unknown` with its cause.
pub fn find_author_outcome(req: &FindAuthorRequest, stored: Result<Author, StoreFailure>) -> (r:
    Result<Author, FindAuthorError>)
    ensures
        match stored {
            Ok(a) => r matches Ok(b) && b@ == a@,
            Err(StoreFailure::RowNotFound) => r matches Err(FindAuthorError::NotFound { id })
                && id == req.spec_id(),
            Err(f) => r matches Err(FindAuthorError::Unknown(c)) && c@ == cause_text(
                id_context("retrieve"@, req.spec_id()),
                f,
            ),
        },
{
    match stored {
        Ok(a) => Ok(a),
        Err(StoreFailure::RowNotFound) => Err(FindAuthorError::NotFound { id: req.id() }),
        Err(f) => {
            let context = id_context_string("retrieve", req.id());
            Err(FindAuthorError::Unknown(cause(context, &f)))
        },
    }
}

/// What listing returns once the backend answered.
pub fn find_all_authors_outcome(stored: Result<Vec<Author>, StoreFailure>) -> (r: Result<
    Vec<Author>,
    FindAllAuthorsError,
>)
    ensures
        match stored {
            Ok(list) => r matches Ok(l) && l@ == list@,
            Err(f) => r matches Err(FindAllAuthorsError(c)) && c@ == cause_text(
                "Failed to retrieve all authors"@,
                f,
            ),
        },
{
    match stored {
        Ok(list) => Ok(list),
        Err(f) => Err(
            FindAllAuthorsError(cause(String::from_str("Failed to retrieve all authors"), &f)),
        ),
    }
}

/// What an update returns once the backend answered with the number of
/// rows it changed: none, or no row, is `NotFound`; any other failure is
/// `Unknown` with its cause.
pub fn update_author_outcome(req: &UpdateAuthorRequest, changed: Result<u64, StoreFailure>) -> (r:
    Result<(), UpdateAuthorError>)
    ensures
        match changed {
            Ok(n) => if n == 0 {
                r matches Err(UpdateAuthorError::NotFound { id }) && id == req.spec_id()
            } else {
                r is Ok
            },
            Err(StoreFailure::RowNotFound) => r matches Err(UpdateAuthorError::NotFound { id })
                && id == req.spec_id(),
            Err(f) => r matches Err(UpdateAuthorError::Unknown(c)) && c@ == cause_text(
                id_context("update"@, req.spec_id()),
                f,
            ),
        },
{
    match changed {
        Ok(n) => {
            if n == 0 {
                Err(UpdateAuthorError::NotFound { id: req.id() })
            } else {
                Ok(())
            }
        },
        Err(StoreFailure::RowNotFound) => Err(UpdateAuthorError::NotFound { id: req.id() }),
        Err(f) => {
            let context = id_context_string("update", req.id());
            Err(UpdateAuthorError::Unknown(cause(context, &f)))
        },
    }
}

/// What a deletion returns once the backend answered with the number of
/// rows it removed: none, or no row, is `NotFound`; any other failure is
/// `Unknown` with its cause.
pub fn delete_author_outcome(req: &DeleteAuthorRequest, removed: Result<u64, StoreFailure>) -> (r:
    Result<(), DeleteAuthorError>)
    ensures
        match removed {
            Ok(n) => if n == 0 {
                r matches Err(DeleteAuthorError::NotFound { id }) && id == req.spec_id()
            } else {
                r is Ok
            },
            Err(StoreFailure::RowNotFound) => r matches Err(DeleteAuthorError::NotFound { id })
                && id == req.spec_id(),
            Err(f) => r matches Err(DeleteAuthorError::Unknown(c)) && c@ == cause_text(
                id_context("delete"@, req.spec_id()),
                f,
            ),
        },
{
    match removed {
        Ok(n) => {
            if n == 0 {
                Err(DeleteAuthorError::NotFound { id: req.id() })
            } else {
                Ok(())
            }
        },
        Err(StoreFailure::RowNotFound) => Err(DeleteAuthorError::NotFound { id: req.id() }),
        Err(f) => {
            let context = id_context_string("delete", req.id());
            Err(DeleteAuthorError::Unknown(cause(context, &f)))
        },
    }
}

/// The stored form of an id: ids above the largest stored integer match no
/// row.
pub fn row_id(id: u64) -> (r: Option<i64>)
    ensures
        r is Some <==> id <= i64::MAX,
        r matches Some(v) ==> v as int == id as int,
{
    if id <= i64::MAX as u64 {
        Some(id as i64)
    } else {
        None
    }
}

/// The author that a stored row holds. The row's text was validated when
/// it was stored and is taken as it stands; a negative id is a malformed row.
pub fn author_from_row(id: i64, name: &str, email: &str) -> (r: Result<Author, StoreFailure>)
    ensures
        r is Ok <==> id >= 0,
        r matches Ok(a) ==> a@ == (AuthorView { id: id as u64, name: name@, email: email@ }),
        r matches Err(f) ==> f is Other,
{
    if id < 0 {
        Err(StoreFailure::Other(String::from_str("a stored author has a negative id")))
    } else {
        Ok(Author::new(id as u64, AuthorName::new_unchecked(name), EmailAddress::new_unchecked(email)))
    }
}

/// An `UPDATE` statement and the values bound to its placeholders, in order,
/// before the id.
#[derive(Debug, Clone)]
pub struct UpdateStatement {
    pub sql: String,
    pub binds: Vec<String>,
}

/// The assignments of a partial update, in the order name, email.
pub open spec fn set_clause(name: Option<Seq<char>>, email: Option<Seq<char>>) -> Seq<char> {
    match (name, email) {
        (Some(_), Some(_)) => "name = ?, email = ?"@,
        (Some(_), None) => "name = ?"@,
        (None, Some(_)) => "email = ?"@,
        (None, None) => Seq::empty(),
    }
}

/// The values that the assignments bind, in the same order.
pub open spec fn set_values(name: Option<Seq<char>>, email: Option<Seq<char>>) -> Seq<Seq<char>> {
    match (name, email) {
        (Some(n), Some(e)) => seq![n, e],
        (Some(n), None) => seq![n],
        (None, Some(e)) => seq![e],
        (None, None) => Seq::empty(),
    }
}

/// The statement that applies a partial update: it assigns exactly the
/// fields that the request sets, and there is none when it sets no field.
pub fn update_statement(req: &UpdateAuthorRequest) -> (r: Option<UpdateStatement>)
    ensures
        r is None <==> (req.spec_name() is None && req.spec_email() is None),
        r matches Some(st) ==> st.sql@ == "UPDATE author SET "@ + set_clause(
            req.spec_name(),
            req.spec_email(),
        ) + " WHERE id = ?"@ && st.binds@.map_values(|b: String| b@) == set_values(
            req.spec_name(),
            req.spec_email(),
        ),
{
    let mut binds: Vec<String> = Vec::new();
    let clause = match (req.name(), req.email()) {
        (Some(n), Some(e)) => {
            binds.push(n.to_string());
            binds.push(e.to_string());
            "name = ?, email = ?"
        },
        (Some(n), None) => {
            binds.push(n.to_string());
            "name = ?"
        },
        (None, Some(e)) => {
            binds.push(e.to_string());
            "email = ?"
        },
        (None, None) => {
            return None;
        },
    };
    assert(binds@.map_values(|b: String| b@) =~= set_values(req.spec_name(), req.spec_email()));
    let sql = String::from_str("UPDATE author SET ").concat(clause).concat(" WHERE id = ?");
    Some(UpdateStatement { sql, binds })
}

} // verus!
