//! The transport's view of the domain: wire request and response records,
//! parsing of identifiers, the mapping of domain errors onto status codes
//! and messages, and the handlers that tie them to a repository.

use vstd::prelude::*;
use vstd::string::StringExecFns;
use crate::email::is_email_shape;
use crate::model::{
    missing_author_message, Author, AuthorName, AuthorNameEmptyError, CreateAuthorError,
    CreateAuthorRequest, DeleteAuthorError, DeleteAuthorRequest, EmailAddress, EmailAddressError,
    FindAllAuthorsError, FindAuthorError, FindAuthorRequest,
};
use crate::repository::AuthorRepository;
use crate::text::{decimal, decimal_string, parse_unsigned, trimmed, unsigned_value};

verus! {

pub const OK: u16 = 200;
pub const CREATED: u16 = 201;
pub const NO_CONTENT: u16 = 204;
pub const BAD_REQUEST: u16 = 400;
pub const NOT_FOUND: u16 = 404;
pub const CONFLICT: u16 = 409;
pub const UNPROCESSABLE_ENTITY: u16 = 422;
pub const INTERNAL_SERVER_ERROR: u16 = 500;

/// The message of an internal failure; its cause is never shown.
pub open spec fn internal_error_message() -> Seq<char> {
    "Internal server error"@
}

/// The message of a name that is taken.
pub open spec fn duplicate_name_message(name: Seq<char>) -> Seq<char> {
    "author with name \""@ + name + "\" already exists"@
}

/// The message of an id that no author has.
pub open spec fn missing_id_message(id: u64) -> Seq<char> {
    "author with id \""@ + decimal(id as nat) + "\" does not exist"@
}

/// The message of an id that is no number.
pub open spec fn unparsable_id_message(id: Seq<char>) -> Seq<char> {
    "Cannot parse id from \""@ + id + "\""@
}

/// A parsed id: the value of an unsigned decimal numeral that fits `u64`.
pub open spec fn parsed_id(id: Seq<char>) -> Option<u64> {
    match unsigned_value(id) {
        Some(v) => if v <= u64::MAX {
            Some(v as u64)
        } else {
            None
        },
        None => None,
    }
}

/// A request that succeeded: its status code and the data of the response.
#[derive(Debug, Clone, PartialEq, Eq)]
pub struct HttpSuccess<T> {
    pub status: u16,
    pub data: T,
}

impl<T> HttpSuccess<T> {
    pub fn new(status: u16, data: T) -> (r: HttpSuccess<T>)
        ensures
            r.status == status,
            r.data == data,
    {
        HttpSuccess { status, data }
    }
}

/// A request that failed: its status code and a message for the caller.
#[derive(Debug, Clone)]
pub struct HttpError {
    pub status: u16,
    pub message: String,
}

fn internal_error() -> (r: HttpError)
    ensures
        r.status == INTERNAL_SERVER_ERROR,
        r.message@ == internal_error_message(),
{
    HttpError { status: INTERNAL_SERVER_ERROR, message: String::from_str("Internal server error") }
}

fn missing_id_error(id: u64) -> (r: HttpError)
    ensures
        r.status == NOT_FOUND,
        r.message@ == missing_id_message(id),
{
    let digits = decimal_string(id);
    let message = String::from_str("author with id \"").concat(digits.as_str()).concat(
        "\" does not exist",
    );
    HttpError { status: NOT_FOUND, message }
}

/// The body of a request to create an author, as it arrives.
#[derive(Debug, Clone)]
pub struct CreateAuthorHttpRequest {
    pub name: String,
    pub email: String,
}

/// Why the body of a create request was refused.
#[derive(Debug, Clone)]
pub enum ParseCreateAuthorHttpRequestError {
    Name(AuthorNameEmptyError),
    Email(EmailAddressError),
}

impl ParseCreateAuthorHttpRequestError {
    /// The message of the refused part.
    pub fn to_string(&self) -> (r: String)
        ensures
            r@ == match self {
                ParseCreateAuthorHttpRequestError::Name(_) => "Author name cannot be empty"@,
                ParseCreateAuthorHttpRequestError::Email(EmailAddressError::Empty) =>
                    "Email address cannot be empty"@,
                ParseCreateAuthorHttpRequestError::Email(EmailAddressError::Invalid(t)) => t@
                    + " is not a valid email address"@,
            },
    {
        match self {
            ParseCreateAuthorHttpRequestError::Name(e) => e.to_string(),
            ParseCreateAuthorHttpRequestError::Email(e) => e.to_string(),
        }
    }
}

impl TryFrom<CreateAuthorHttpRequest> for CreateAuthorRequest {
    type Error = ParseCreateAuthorHttpRequestError;

    /// Validates the name, then the email.
    fn try_from(value: CreateAuthorHttpRequest) -> (r: Result<
        CreateAuthorRequest,
        ParseCreateAuthorHttpRequestError,
    >)
        ensures
            trimmed(value.name@).len() == 0 ==> r matches Err(
                ParseCreateAuthorHttpRequestError::Name(_),
            ),
            trimmed(value.name@).len() > 0 && !is_email_shape(trimmed(value.email@)) ==> (r matches Err(
                ParseCreateAuthorHttpRequestError::Email(e),
            ) && (e is Empty <==> trimmed(value.email@).len() == 0) && (e matches EmailAddressError::Invalid(
                t,
            ) ==> t@ == trimmed(value.email@))),
            trimmed(value.name@).len() > 0 && is_email_shape(trimmed(value.email@)) ==> (r matches Ok(
                req,
            ) && req.spec_name() == trimmed(value.name@) && req.spec_email() == trimmed(
                value.email@,
            )),
    {
        let name = match AuthorName::new(value.name.as_str()) {
            Ok(n) => n,
            Err(e) => {
                return Err(ParseCreateAuthorHttpRequestError::Name(e));
            },
        };
        let email = match EmailAddress::new(value.email.as_str()) {
            Ok(e) => e,
            Err(e) => {
                return Err(ParseCreateAuthorHttpRequestError::Email(e));
            },
        };
        Ok(CreateAuthorRequest::new(name, email))
    }
}

impl vstd::std_specs::convert::TryFromSpecImpl<CreateAuthorHttpRequest> for CreateAuthorRequest {
    open spec fn obeys_try_from_spec() -> bool {
        false
    }

    open spec fn try_from_spec(value: CreateAuthorHttpRequest) -> Result<
        CreateAuthorRequest,
        ParseCreateAuthorHttpRequestError,
    > {
        arbitrary()
    }
}

/// The response to a creation: the new author's id.
#[derive(Debug, Clone, Copy, PartialEq, Eq, Structural)]
pub struct CreateAuthorHttpResponse {
    pub id: u64,
}

impl From<Author> for CreateAuthorHttpResponse {
    fn from(value: Author) -> (r: CreateAuthorHttpResponse) {
        CreateAuthorHttpResponse { id: value.id() }
    }
}

impl vstd::std_specs::convert::FromSpecImpl<Author> for CreateAuthorHttpResponse {
    open spec fn obeys_from_spec() -> bool {
        true
    }

    open spec fn from_spec(value: Author) -> CreateAuthorHttpResponse {
        CreateAuthorHttpResponse { id: value@.id }
    }
}

/// An id that could not be parsed, as it arrived.
#[derive(Debug, Clone)]
pub struct ParseIdError {
    pub id: String,
}

impl ParseIdError {
    pub fn to_string(&self) -> (r: String)
        ensures
            r@ == unparsable_id_message(self.id@),
    {
        String::from_str("Cannot parse id from \"").concat(self.id.as_str()).concat("\"")
    }
}

/// Reads an id from its text: an unsigned decimal numeral that fits `u64`.
pub fn parse_id(value: String) -> (r: Result<u64, ParseIdError>)
    ensures
        match parsed_id(value@) {
            Some(id) => r == Ok::<u64, ParseIdError>(id),
            None => r matches Err(e) && e.id@ == value@,
        },
{
    match parse_unsigned(value.as_str(), u64::MAX) {
        Some(id) => Ok(id),
        None => Err(ParseIdError { id: value }),
    }
}

impl TryFrom<String> for FindAuthorRequest {
    type Error = ParseIdError;

    fn try_from(value: String) -> (r: Result<FindAuthorRequest, ParseIdError>)
        ensures
            match parsed_id(value@) {
                Some(id) => r matches Ok(req) && req.spec_id() == id,
                None => r matches Err(e) && e.id@ == value@,
            },
    {
        match parse_id(value) {
            Ok(id) => Ok(FindAuthorRequest::new(id)),
            Err(e) => Err(e),
        }
    }
}

impl vstd::std_specs::convert::TryFromSpecImpl<String> for FindAuthorRequest {
    open spec fn obeys_try_from_spec() -> bool {
        false
    }

    open spec fn try_from_spec(value: String) -> Result<FindAuthorRequest, ParseIdError> {
        arbitrary()
    }
}

impl TryFrom<String> for DeleteAuthorRequest {
    type Error = ParseIdError;

    fn try_from(value: String) -> (r: Result<DeleteAuthorRequest, ParseIdError>)
        ensures
            match parsed_id(value@) {
                Some(id) => r matches Ok(req) && req.spec_id() == id,
                None => r matches Err(e) && e.id@ == value@,
            },
    {
        match parse_id(value) {
            Ok(id) => Ok(DeleteAuthorRequest::new(id)),
            Err(e) => Err(e),
        }
    }
}

impl vstd::std_specs::convert::TryFromSpecImpl<String> for DeleteAuthorRequest {
    open spec fn obeys_try_from_spec() -> bool {
        false
    }

    open spec fn try_from_spec(value: String) -> Result<DeleteAuthorRequest, ParseIdError> {
        arbitrary()
    }
}

/// The response that describes one author.
#[derive(Debug, Clone, PartialEq, Eq)]
pub struct FindAuthorHttpResponse {
    pub id: u64,
    pub name: String,
    pub email: String,
}

impl From<Author> for FindAuthorHttpResponse {
    fn from(value: Author) -> (r: FindAuthorHttpResponse)
        ensures
            r.id == value@.id,
            r.name@ == value@.name,
            r.email@ == value@.email,
    {
        FindAuthorHttpResponse {
            id: value.id(),
            name: value.name().to_string(),
            email: value.email().to_string(),
        }
    }
}

impl vstd::std_specs::convert::FromSpecImpl<Author> for FindAuthorHttpResponse {
    open spec fn obeys_from_spec() -> bool {
        false
    }

    open spec fn from_spec(value: Author) -> FindAuthorHttpResponse {
        arbitrary()
    }
}

/// The response that lists authors.
#[derive(Debug, Clone, PartialEq, Eq)]
pub struct FindAllAuthorsHttpResponse(pub Vec<FindAuthorHttpResponse>);

/// The response record describes the author.
pub open spec fn describes(r: FindAuthorHttpResponse, a: Author) -> bool {
    r.id == a@.id && r.name@ == a@.name && r.email@ == a@.email
}

impl From<Vec<Author>> for FindAllAuthorsHttpResponse {
    fn from(values: Vec<Author>) -> (r: FindAllAuthorsHttpResponse)
        ensures
            r.0@.len() == values@.len(),
            forall|i: int| 0 <= i < values@.len() ==> describes(#[trigger] r.0@[i], values@[i]),
    {
        let mut list: Vec<FindAuthorHttpResponse> = Vec::new();
        let mut i: usize = 0;
        while i < values.len()
            invariant
                i <= values@.len(),
                list@.len() == i,
                forall|j: int| 0 <= j < i ==> describes(#[trigger] list@[j], values@[j]),
            decreases values@.len() - i,
        {
            let a = &values[i];
            list.push(
                FindAuthorHttpResponse {
                    id: a.id(),
                    name: a.name().to_string(),
                    email: a.email().to_string(),
                },
            );
            i = i + 1;
        }
        FindAllAuthorsHttpResponse(list)
    }
}

impl vstd::std_specs::convert::FromSpecImpl<Vec<Author>> for FindAllAuthorsHttpResponse {
    open spec fn obeys_from_spec() -> bool {
        false
    }

    open spec fn from_spec(values: Vec<Author>) -> FindAllAuthorsHttpResponse {
        arbitrary()
    }
}

impl From<ParseCreateAuthorHttpRequestError> for HttpError {
    /// The refused input, with the reason.
    fn from(err: ParseCreateAuthorHttpRequestError) -> (r: HttpError)
        ensures
            r.status == UNPROCESSABLE_ENTITY,
            r.message@ == match err {
                ParseCreateAuthorHttpRequestError::Name(_) => "Author name cannot be empty"@,
                ParseCreateAuthorHttpRequestError::Email(EmailAddressError::Empty) =>
                    "Email address cannot be empty"@,
                ParseCreateAuthorHttpRequestError::Email(EmailAddressError::Invalid(t)) => t@
                    + " is not a valid email address"@,
            },
    {
        HttpError { status: UNPROCESSABLE_ENTITY, message: err.to_string() }
    }
}

impl vstd::std_specs::convert::FromSpecImpl<ParseCreateAuthorHttpRequestError> for HttpError {
    open spec fn obeys_from_spec() -> bool {
        false
    }

    open spec fn from_spec(err: ParseCreateAuthorHttpRequestError) -> HttpError {
        arbitrary()
    }
}

impl From<CreateAuthorError> for HttpError {
    /// A taken name is a conflict; any other failure is internal.
    fn from(err: CreateAuthorError) -> (r: HttpError)
        ensures
            match err {
                CreateAuthorError::Duplicate { name } => r.status == CONFLICT && r.message@
                    == duplicate_name_message(name@),
                CreateAuthorError::Unknown(_) => r.status == INTERNAL_SERVER_ERROR && r.message@
                    == internal_error_message(),
            },
    {
        match err {
            CreateAuthorError::Duplicate { name } => HttpError {
                status: CONFLICT,
                message: String::from_str("author with name \"").concat(name.as_str()).concat(
                    "\" already exists",
                ),
            },
            CreateAuthorError::Unknown(_) => internal_error(),
        }
    }
}

impl vstd::std_specs::convert::FromSpecImpl<CreateAuthorError> for HttpError {
    open spec fn obeys_from_spec() -> bool {
        false
    }

    open spec fn from_spec(err: CreateAuthorError) -> HttpError {
        arbitrary()
    }
}

impl From<FindAuthorError> for HttpError {
    /// A missing author is absent; any other failure is internal.
    fn from(err: FindAuthorError) -> (r: HttpError)
        ensures
            match err {
                FindAuthorError::NotFound { id } => r.status == NOT_FOUND && r.message@
                    == missing_id_message(id),
                FindAuthorError::Unknown(_) => r.status == INTERNAL_SERVER_ERROR && r.message@
                    == internal_error_message(),
            },
    {
        match err {
            FindAuthorError::NotFound { id } => missing_id_error(id),
            FindAuthorError::Unknown(_) => internal_error(),
        }
    }
}

impl vstd::std_specs::convert::FromSpecImpl<FindAuthorError> for HttpError {
    open spec fn obeys_from_spec() -> bool {
        false
    }

    open spec fn from_spec(err: FindAuthorError) -> HttpError {
        arbitrary()
    }
}

impl From<FindAllAuthorsError> for HttpError {
    /// Listing fails only internally.
    fn from(err: FindAllAuthorsError) -> (r: HttpError)
        ensures
            r.status == INTERNAL_SERVER_ERROR,
            r.message@ == internal_error_message(),
    {
        internal_error()
    }
}

impl vstd::std_specs::convert::FromSpecImpl<FindAllAuthorsError> for HttpError {
    open spec fn obeys_from_spec() -> bool {
        false
    }

    open spec fn from_spec(err: FindAllAuthorsError) -> HttpError {
        arbitrary()
    }
}

impl From<DeleteAuthorError> for HttpError {
    /// A missing author is absent; any other failure is internal.
    fn from(err: DeleteAuthorError) -> (r: HttpError)
        ensures
            match err {
                DeleteAuthorError::NotFound { id } => r.status == NOT_FOUND && r.message@
                    == missing_id_message(id),
                DeleteAuthorError::Unknown(_) => r.status == INTERNAL_SERVER_ERROR && r.message@
                    == internal_error_message(),
            },
    {
        match err {
            DeleteAuthorError::NotFound { id } => missing_id_error(id),
            DeleteAuthorError::Unknown(_) => internal_error(),
        }
    }
}

impl vstd::std_specs::convert::FromSpecImpl<DeleteAuthorError> for HttpError {
    open spec fn obeys_from_spec() -> bool {
        false
    }

    open spec fn from_spec(err: DeleteAuthorError) -> HttpError {
        arbitrary()
    }
}

impl From<ParseIdError> for HttpError {
    /// An id that is no number is a malformed request.
    fn from(err: ParseIdError) -> (r: HttpError)
        ensures
            r.status == BAD_REQUEST,
            r.message@ == unparsable_id_message(err.id@),
    {
        HttpError { status: BAD_REQUEST, message: err.to_string() }
    }
}

impl vstd::std_specs::convert::FromSpecImpl<ParseIdError> for HttpError {
    open spec fn obeys_from_spec() -> bool {
        false
    }

    open spec fn from_spec(err: ParseIdError) -> HttpError {
        arbitrary()
    }
}


/// The message that refuses an email address, given its trimmed text.
pub open spec fn email_refusal_message(t: Seq<char>) -> Seq<char> {
    if t.len() == 0 {
        "Email address cannot be empty"@
    } else {
        t + " is not a valid email address"@
    }
}

/// What the handlers share: the author repository.
pub struct AppState<R> {
    author_repo: R,
}

impl<R: AuthorRepository> AppState<R> {
    pub closed spec fn spec_repo(&self) -> R {
        self.author_repo
    }

    pub fn new(author_repo: R) -> (r: AppState<R>)
        ensures
            r.spec_repo() == author_repo,
    {
        AppState { author_repo }
    }

    pub fn author_repo(&self) -> (r: &R)
        ensures
            *r == self.spec_repo(),
    {
        &self.author_repo
    }
}

/// Where the server listens.
#[derive(Debug, Clone, Copy, PartialEq, Eq, Structural)]
pub struct HttpServerConfig {
    port: u16,
}

impl HttpServerConfig {
    pub fn new(port: u16) -> (r: HttpServerConfig)
        ensures
            r.spec_port() == port,
    {
        HttpServerConfig { port }
    }

    pub fn port(&self) -> (r: u16)
        ensures
            r == self.spec_port(),
    {
        self.port
    }

    pub closed spec fn spec_port(&self) -> u16 {
        self.port
    }
}

/// Creates an author from a request body: created, with the new id; the
/// name or email refused, with the reason; the name taken, as a conflict;
/// else an internal failure.
pub fn create_author<R: AuthorRepository>(state: &mut AppState<R>, body: CreateAuthorHttpRequest) -> (r:
    Result<HttpSuccess<CreateAuthorHttpResponse>, HttpError>)
    ensures
        trimmed(body.name@).len() == 0 ==> (r matches Err(e) && e.status == UNPROCESSABLE_ENTITY
            && e.message@ == "Author name cannot be empty"@),
        trimmed(body.name@).len() > 0 && !is_email_shape(trimmed(body.email@)) ==> (r matches Err(e)
            && e.status == UNPROCESSABLE_ENTITY && e.message@ == email_refusal_message(
            trimmed(body.email@),
        )),
        trimmed(body.name@).len() > 0 && is_email_shape(trimmed(body.email@)) ==> match r {
            Ok(s) => s.status == CREATED,
            Err(e) => (e.status == CONFLICT && e.message@ == duplicate_name_message(
                trimmed(body.name@),
            )) || (e.status == INTERNAL_SERVER_ERROR && e.message@ == internal_error_message()),
        },
{
    let req = match CreateAuthorRequest::try_from(body) {
        Ok(req) => req,
        Err(e) => {
            return Err(HttpError::from(e));
        },
    };
    match state.author_repo.create_author(&req) {
        Ok(author) => Ok(HttpSuccess::new(CREATED, CreateAuthorHttpResponse::from(author))),
        Err(e) => Err(HttpError::from(e)),
    }
}

/// Finds the author whose id the text gives: found, described; the text
/// no id, as a malformed request; no such author, as absent; else an
/// internal failure.
pub fn find_author<R: AuthorRepository>(id: String, state: &AppState<R>) -> (r: Result<
    HttpSuccess<FindAuthorHttpResponse>,
    HttpError,
>)
    ensures
        match parsed_id(id@) {
            None => r matches Err(e) && e.status == BAD_REQUEST && e.message@
                == unparsable_id_message(id@),
            Some(n) => match r {
                Ok(s) => s.status == OK && s.data.id == n,
                Err(e) => (e.status == NOT_FOUND && e.message@ == missing_id_message(n)) || (
                e.status == INTERNAL_SERVER_ERROR && e.message@ == internal_error_message()),
            },
        },
{
    let req = match FindAuthorRequest::try_from(id) {
        Ok(req) => req,
        Err(e) => {
            return Err(HttpError::from(e));
        },
    };
    match state.author_repo.find_author(&req) {
        Ok(author) => Ok(HttpSuccess::new(OK, FindAuthorHttpResponse::from(author))),
        Err(e) => Err(HttpError::from(e)),
    }
}

/// Lists the authors, or reports an internal failure.
pub fn find_all_authors<R: AuthorRepository>(state: &AppState<R>) -> (r: Result<
    HttpSuccess<FindAllAuthorsHttpResponse>,
    HttpError,
>)
    ensures
        match r {
            Ok(s) => s.status == OK,
            Err(e) => e.status == INTERNAL_SERVER_ERROR && e.message@ == internal_error_message(),
        },
{
    match state.author_repo.find_all_authors() {
        Ok(authors) => Ok(HttpSuccess::new(OK, FindAllAuthorsHttpResponse::from(authors))),
        Err(e) => Err(HttpError::from(e)),
    }
}

/// Deletes the author whose id the text gives: no content; the text no id,
/// as a malformed request; no such author, as absent; else an internal
/// failure.
pub fn delete_author<R: AuthorRepository>(id: String, state: &mut AppState<R>) -> (r: Result<
    HttpSuccess<()>,
    HttpError,
>)
    ensures
        match parsed_id(id@) {
            None => r matches Err(e) && e.status == BAD_REQUEST && e.message@
                == unparsable_id_message(id@),
            Some(n) => match r {
                Ok(s) => s.status == NO_CONTENT,
                Err(e) => (e.status == NOT_FOUND && e.message@ == missing_id_message(n)) || (
                e.status == INTERNAL_SERVER_ERROR && e.message@ == internal_error_message()),
            },
        },
{
    let req = match DeleteAuthorRequest::try_from(id) {
        Ok(req) => req,
        Err(e) => {
            return Err(HttpError::from(e));
        },
    };
    match state.author_repo.delete_author(&req) {
        Ok(()) => Ok(HttpSuccess::new(NO_CONTENT, ())),
        Err(e) => Err(HttpError::from(e)),
    }
}

} // verus!
