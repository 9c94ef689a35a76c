//! The domain: validated value objects, the author entity, one request type
//! and one error enumeration per repository operation.

use vstd::prelude::*;
use vstd::string::StringExecFns;
use crate::email::{is_email_address, is_email_shape, is_email_split, is_local_char, is_local_segment};
use crate::text::{
    decimal, decimal_string, is_blank, is_whitespace, lemma_trimmed_empty_iff_blank,
    lemma_trimmed_idempotent, trim_end, trim_start, trim_whitespace, trimmed,
};

verus! {

/// A valid author name: non-empty, with no surrounding whitespace.
pub open spec fn is_author_name(s: Seq<char>) -> bool {
    s.len() > 0 && trimmed(s) == s
}

/// A valid email address: no surrounding whitespace, and the accepted shape.
pub open spec fn is_email_address_text(s: Seq<char>) -> bool {
    trimmed(s) == s && is_email_shape(s)
}

/// The name of an author, kept as text.
#[derive(Debug, Clone)]
pub struct AuthorName(String);

impl View for AuthorName {
    type V = Seq<char>;

    closed spec fn view(&self) -> Seq<char> {
        self.0@
    }
}

impl AuthorName {
    /// Trims `raw`; fails when nothing is left.
    pub fn new(raw: &str) -> (r: Result<AuthorName, AuthorNameEmptyError>)
        ensures
            r is Ok <==> trimmed(raw@).len() > 0,
            r matches Ok(n) ==> n@ == trimmed(raw@),
    {
        let t = trim_whitespace(raw);
        if t.is_empty() {
            Err(AuthorNameEmptyError)
        } else {
            Ok(AuthorName(String::from_str(t)))
        }
    }

    /// Takes `raw` as it stands, without validation: only for text that was
    /// validated before, such as a stored record.
    pub fn new_unchecked(raw: &str) -> (r: AuthorName)
        ensures
            r@ == raw@,
    {
        AuthorName(String::from_str(raw))
    }

    pub fn as_str(&self) -> (r: &str)
        ensures
            r@ == self@,
    {
        self.0.as_str()
    }

    /// The name as text.
    pub fn to_string(&self) -> (r: String)
        ensures
            r@ == self@,
    {
        self.0.clone()
    }
}

impl PartialEq for AuthorName {
    fn eq(&self, other: &AuthorName) -> (r: bool) {
        self.0 == other.0
    }
}

impl vstd::std_specs::cmp::PartialEqSpecImpl for AuthorName {
    open spec fn obeys_eq_spec() -> bool {
        true
    }

    open spec fn eq_spec(&self, other: &AuthorName) -> bool {
        self@ == other@
    }
}

impl Eq for AuthorName {
}

/// An author name was empty once trimmed.
#[derive(Debug, Clone, Copy, PartialEq, Eq, Structural)]
pub struct AuthorNameEmptyError;

impl AuthorNameEmptyError {
    pub fn to_string(&self) -> (r: String)
        ensures
            r@ == "Author name cannot be empty"@,
    {
        String::from_str("Author name cannot be empty")
    }
}

/// An email address, kept as text.
#[derive(Debug, Clone)]
pub struct EmailAddress(String);

impl View for EmailAddress {
    type V = Seq<char>;

    closed spec fn view(&self) -> Seq<char> {
        self.0@
    }
}

impl EmailAddress {
    /// Trims `raw`; fails when nothing is left or when the rest does not
    /// have the accepted shape.
    pub fn new(raw: &str) -> (r: Result<EmailAddress, EmailAddressError>)
        ensures
            r is Ok <==> is_email_shape(trimmed(raw@)),
            r matches Ok(e) ==> e@ == trimmed(raw@),
            r matches Err(EmailAddressError::Empty) <==> trimmed(raw@).len() == 0,
            r matches Err(EmailAddressError::Invalid(t)) ==> t@ == trimmed(raw@)
                && trimmed(raw@).len() > 0,
    {
        let t = trim_whitespace(raw);
        if t.is_empty() {
            proof {
                assert(!is_email_shape(trimmed(raw@)));
            }
            Err(EmailAddressError::Empty)
        } else if !is_email_address(t) {
            Err(EmailAddressError::Invalid(String::from_str(t)))
        } else {
            Ok(EmailAddress(String::from_str(t)))
        }
    }

    /// Takes `raw` as it stands, without validation: only for text that was
    /// validated before, such as a stored record.
    pub fn new_unchecked(raw: &str) -> (r: EmailAddress)
        ensures
            r@ == raw@,
    {
        EmailAddress(String::from_str(raw))
    }

    pub fn as_str(&self) -> (r: &str)
        ensures
            r@ == self@,
    {
        self.0.as_str()
    }

    /// The address as text.
    pub fn to_string(&self) -> (r: String)
        ensures
            r@ == self@,
    {
        self.0.clone()
    }
}

impl PartialEq for EmailAddress {
    fn eq(&self, other: &EmailAddress) -> (r: bool) {
        self.0 == other.0
    }
}

impl vstd::std_specs::cmp::PartialEqSpecImpl for EmailAddress {
    open spec fn obeys_eq_spec() -> bool {
        true
    }

    open spec fn eq_spec(&self, other: &EmailAddress) -> bool {
        self@ == other@
    }
}

impl Eq for EmailAddress {
}

/// Why an email address was refused.
#[derive(Debug, Clone)]
pub enum EmailAddressError {
    /// Nothing was left once trimmed.
    Empty,
    /// The trimmed text does not have the accepted shape.
    Invalid(String),
}

impl EmailAddressError {
    pub fn to_string(&self) -> (r: String)
        ensures
            r@ == match self {
                EmailAddressError::Empty => "Email address cannot be empty"@,
                EmailAddressError::Invalid(t) => t@ + " is not a valid email address"@,
            },
    {
        match self {
            EmailAddressError::Empty => String::from_str("Email address cannot be empty"),
            EmailAddressError::Invalid(t) => t.clone().concat(" is not a valid email address"),
        }
    }
}


/// What an author is, as the contracts speak of it.
pub struct AuthorView {
    pub id: u64,
    pub name: Seq<char>,
    pub email: Seq<char>,
}

/// An author: an identity that storage assigned, a name and an email.
#[derive(Debug, Clone)]
pub struct Author {
    id: u64,
    name: AuthorName,
    email: EmailAddress,
}

impl View for Author {
    type V = AuthorView;

    closed spec fn view(&self) -> AuthorView {
        AuthorView { id: self.id, name: self.name@, email: self.email@ }
    }
}

impl Author {
    pub fn new(id: u64, name: AuthorName, email: EmailAddress) -> (r: Author)
        ensures
            r@ == (AuthorView { id, name: name@, email: email@ }),
    {
        Author { id, name, email }
    }

    pub fn id(&self) -> (r: u64)
        ensures
            r == self@.id,
    {
        self.id
    }

    pub fn name(&self) -> (r: &AuthorName)
        ensures
            r@ == self@.name,
    {
        &self.name
    }

    pub fn email(&self) -> (r: &EmailAddress)
        ensures
            r@ == self@.email,
    {
        &self.email
    }

    /// An author equal to this one.
    pub fn copy(&self) -> (r: Author)
        ensures
            r@ == self@,
    {
        Author {
            id: self.id,
            name: AuthorName::new_unchecked(self.name.as_str()),
            email: EmailAddress::new_unchecked(self.email.as_str()),
        }
    }
}

/// A request to create an author; its parts were validated when built.
#[derive(Debug, Clone)]
pub struct CreateAuthorRequest {
    name: AuthorName,
    email: EmailAddress,
}

impl CreateAuthorRequest {
    pub closed spec fn spec_name(&self) -> Seq<char> {
        self.name@
    }

    pub closed spec fn spec_email(&self) -> Seq<char> {
        self.email@
    }

    pub fn new(name: AuthorName, email: EmailAddress) -> (r: CreateAuthorRequest)
        ensures
            r.spec_name() == name@,
            r.spec_email() == email@,
    {
        CreateAuthorRequest { name, email }
    }

    pub fn name(&self) -> (r: &AuthorName)
        ensures
            r@ == self.spec_name(),
    {
        &self.name
    }

    pub fn email(&self) -> (r: &EmailAddress)
        ensures
            r@ == self.spec_email(),
    {
        &self.email
    }
}

/// Why creating an author failed.
#[derive(Debug, Clone)]
pub enum CreateAuthorError {
    /// An author with this name exists already.
    Duplicate { name: String },
    /// Any other failure, with its cause.
    Unknown(String),
}

impl CreateAuthorError {
    pub fn to_string(&self) -> (r: String)
        ensures
            r@ == match self {
                CreateAuthorError::Duplicate { name } => "Author with name \""@ + name@
                    + "\" already exists"@,
                CreateAuthorError::Unknown(cause) => cause@,
            },
    {
        match self {
            CreateAuthorError::Duplicate { name } => String::from_str("Author with name \"").concat(
                name.as_str(),
            ).concat("\" already exists"),
            CreateAuthorError::Unknown(cause) => cause.clone(),
        }
    }
}

/// The message that an author with id `id` does not exist.
pub open spec fn missing_author_message(id: u64) -> Seq<char> {
    "Author with id \""@ + decimal(id as nat) + "\" does not exist"@
}

fn missing_author_string(id: u64) -> (r: String)
    ensures
        r@ == missing_author_message(id),
{
    let digits = decimal_string(id);
    String::from_str("Author with id \"").concat(digits.as_str()).concat("\" does not exist")
}

/// A request to find the author with a given id.
#[derive(Debug, Clone, Copy, PartialEq, Eq, Structural)]
pub struct FindAuthorRequest {
    id: u64,
}

impl FindAuthorRequest {
    pub closed spec fn spec_id(&self) -> u64 {
        self.id
    }

    pub fn new(id: u64) -> (r: FindAuthorRequest)
        ensures
            r.spec_id() == id,
    {
        FindAuthorRequest { id }
    }

    pub fn id(&self) -> (r: u64)
        ensures
            r == self.spec_id(),
    {
        self.id
    }
}

/// Why finding an author failed.
#[derive(Debug, Clone)]
pub enum FindAuthorError {
    /// No author has this id.
    NotFound { id: u64 },
    /// Any other failure, with its cause.
    Unknown(String),
}

impl FindAuthorError {
    pub fn to_string(&self) -> (r: String)
        ensures
            r@ == match self {
                FindAuthorError::NotFound { id } => missing_author_message(*id),
                FindAuthorError::Unknown(cause) => cause@,
            },
    {
        match self {
            FindAuthorError::NotFound { id } => missing_author_string(*id),
            FindAuthorError::Unknown(cause) => cause.clone(),
        }
    }
}

/// Listing the authors failed, with its cause.
#[derive(Debug, Clone)]
pub struct FindAllAuthorsError(pub String);

impl FindAllAuthorsError {
    pub fn to_string(&self) -> (r: String)
        ensures
            r@ == self.0@,
    {
        self.0.clone()
    }
}

/// A partial update of an author: each field is either a new value or left
/// as it is.
#[derive(Debug, Clone)]
pub struct UpdateAuthorRequest {
    id: u64,
    name: Option<AuthorName>,
    email: Option<EmailAddress>,
}

impl UpdateAuthorRequest {
    pub closed spec fn spec_id(&self) -> u64 {
        self.id
    }

    /// The new name, if the request sets one.
    pub closed spec fn spec_name(&self) -> Option<Seq<char>> {
        match self.name {
            Some(n) => Some(n@),
            None => None,
        }
    }

    /// The new email, if the request sets one.
    pub closed spec fn spec_email(&self) -> Option<Seq<char>> {
        match self.email {
            Some(e) => Some(e@),
            None => None,
        }
    }

    /// A request that changes nothing yet.
    pub fn new(id: u64) -> (r: UpdateAuthorRequest)
        ensures
            r.spec_id() == id,
            r.spec_name() is None,
            r.spec_email() is None,
    {
        UpdateAuthorRequest { id, name: None, email: None }
    }

    pub fn id(&self) -> (r: u64)
        ensures
            r == self.spec_id(),
    {
        self.id
    }

    pub fn name(&self) -> (r: Option<&AuthorName>)
        ensures
            r is Some <==> self.spec_name() is Some,
            r matches Some(n) ==> self.spec_name() == Some(n@),
    {
        match &self.name {
            Some(n) => Some(n),
            None => None,
        }
    }

    pub fn set_name(&mut self, name: AuthorName)
        ensures
            final(self).spec_id() == old(self).spec_id(),
            final(self).spec_name() == Some(name@),
            final(self).spec_email() == old(self).spec_email(),
    {
        self.name = Some(name);
    }

    pub fn email(&self) -> (r: Option<&EmailAddress>)
        ensures
            r is Some <==> self.spec_email() is Some,
            r matches Some(e) ==> self.spec_email() == Some(e@),
    {
        match &self.email {
            Some(e) => Some(e),
            None => None,
        }
    }

    pub fn set_email(&mut self, email: EmailAddress)
        ensures
            final(self).spec_id() == old(self).spec_id(),
            final(self).spec_name() == old(self).spec_name(),
            final(self).spec_email() == Some(email@),
    {
        self.email = Some(email);
    }
}

/// Why updating an author failed.
#[derive(Debug, Clone)]
pub enum UpdateAuthorError {
    /// No author has this id.
    NotFound { id: u64 },
    /// Any other failure, with its cause.
    Unknown(String),
}

impl UpdateAuthorError {
    pub fn to_string(&self) -> (r: String)
        ensures
            r@ == match self {
                UpdateAuthorError::NotFound { id } => missing_author_message(*id),
                UpdateAuthorError::Unknown(cause) => cause@,
            },
    {
        match self {
            UpdateAuthorError::NotFound { id } => missing_author_string(*id),
            UpdateAuthorError::Unknown(cause) => cause.clone(),
        }
    }
}

/// A request to delete the author with a given id.
#[derive(Debug, Clone, Copy, PartialEq, Eq, Structural)]
pub struct DeleteAuthorRequest {
    id: u64,
}

impl DeleteAuthorRequest {
    pub closed spec fn spec_id(&self) -> u64 {
        self.id
    }

    pub fn new(id: u64) -> (r: DeleteAuthorRequest)
        ensures
            r.spec_id() == id,
    {
        DeleteAuthorRequest { id }
    }

    pub fn id(&self) -> (r: u64)
        ensures
            r == self.spec_id(),
    {
        self.id
    }
}

/// Why deleting an author failed.
#[derive(Debug, Clone)]
pub enum DeleteAuthorError {
    /// No author has this id.
    NotFound { id: u64 },
    /// Any other failure, with its cause.
    Unknown(String),
}

impl DeleteAuthorError {
    pub fn to_string(&self) -> (r: String)
        ensures
            r@ == match self {
                DeleteAuthorError::NotFound { id } => missing_author_message(*id),
                DeleteAuthorError::Unknown(cause) => cause@,
            },
    {
        match self {
            DeleteAuthorError::NotFound { id } => missing_author_string(*id),
            DeleteAuthorError::Unknown(cause) => cause.clone(),
        }
    }
}


/// A name is accepted exactly when it is not blank. The accepted name is
/// the trimmed text, a valid name, and trimming it again changes nothing, so
/// its text is accepted again as the same name.
pub proof fn law_author_name_accepts_non_blank(raw: Seq<char>)
    ensures
        trimmed(raw).len() > 0 <==> !is_blank(raw),
        trimmed(raw).len() > 0 ==> is_author_name(trimmed(raw)),
        trimmed(trimmed(raw)) == trimmed(raw),
{
    lemma_trimmed_empty_iff_blank(raw);
    lemma_trimmed_idempotent(raw);
}

/// A text of the accepted shape has no surrounding whitespace, so it is
/// accepted as it stands. A text without `@`, or starting with `@`, is refused.
pub proof fn law_email_shape_is_accepted(s: Seq<char>)
    ensures
        is_email_shape(s) ==> trimmed(s) == s && is_email_address_text(s),
        (forall|i: int| 0 <= i < s.len() ==> s[i] != '@') ==> !is_email_shape(s),
        s.len() > 0 && s[0] == '@' ==> !is_email_shape(s),
{
    if is_email_shape(s) {
        let (at, dot) = choose|at: int, dot: int| is_email_split(s, at, dot);
        let local = s.take(at);
        if !is_local_segment(local) {
            let k = choose|k: int|
                0 <= k < local.len() && #[trigger] local[k] == '.' && is_local_segment(local.take(k))
                    && is_local_segment(local.skip(k + 1));
            assert(local.take(k)[0] == s[0]);
        } else {
            assert(local[0] == s[0]);
        }
        assert(is_local_char(s[0]));
        assert(!is_whitespace(s[0]));
        let suffix = s.skip(dot + 1);
        assert(suffix[suffix.len() - 1] == s.last());
        assert(!is_whitespace(s.last()));
        assert(trim_start(s) == s);
        assert(trim_end(s) == s);
    }
}

} // verus!
