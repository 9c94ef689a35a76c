//! A repository that keeps its authors in memory.

use vstd::prelude::*;
use vstd::string::StringExecFns;
use crate::model::{
    Author, AuthorName, AuthorView, EmailAddress, CreateAuthorError, CreateAuthorRequest, DeleteAuthorError,
    DeleteAuthorRequest, FindAllAuthorsError, FindAuthorError, FindAuthorRequest,
    UpdateAuthorError, UpdateAuthorRequest,
};
use crate::repository::AuthorRepository;

verus! {

/// The stored authors in order, and the id that the next one will get.
pub struct StoreView {
    pub authors: Seq<AuthorView>,
    pub next_id: u64,
}

/// Some stored author has this id.
pub open spec fn has_id(authors: Seq<AuthorView>, id: u64) -> bool {
    exists|i: int| 0 <= i < authors.len() && #[trigger] authors[i].id == id
}

/// Some stored author has this name.
pub open spec fn has_name(authors: Seq<AuthorView>, name: Seq<char>) -> bool {
    exists|i: int| 0 <= i < authors.len() && #[trigger] authors[i].name == name
}

/// Ids and names are unique, every id is at least one and below the next id.
pub open spec fn valid_store(v: StoreView) -> bool {
    &&& v.next_id >= 1
    &&& forall|i: int| 0 <= i < v.authors.len() ==> 1 <= #[trigger] v.authors[i].id < v.next_id
    &&& forall|i: int, j: int|
        0 <= i < v.authors.len() && 0 <= j < v.authors.len() && i != j ==> #[trigger] v.authors[i].id
            != #[trigger] v.authors[j].id
    &&& forall|i: int, j: int|
        0 <= i < v.authors.len() && 0 <= j < v.authors.len() && i != j
            ==> #[trigger] v.authors[i].name != #[trigger] v.authors[j].name
}

/// Some stored author other than the one with id `id` has this name.
pub open spec fn name_held_by_other(authors: Seq<AuthorView>, name: Seq<char>, id: u64) -> bool {
    exists|j: int| 0 <= j < authors.len() && #[trigger] authors[j].name == name && authors[j].id != id
}

/// The index of the stored author with id `id`, where there is one.
pub open spec fn index_of(authors: Seq<AuthorView>, id: u64) -> int {
    choose|i: int| 0 <= i < authors.len() && #[trigger] authors[i].id == id
}

/// What creating an author with `name` and `email` returns and leaves:
/// `Duplicate` if the name is taken, else a new author with the next id,
/// unless the ids are used up.
pub open spec fn create_outcome(
    before: StoreView,
    name: Seq<char>,
    email: Seq<char>,
    r: Result<Author, CreateAuthorError>,
    after: StoreView,
) -> bool {
    if has_name(before.authors, name) {
        &&& r matches Err(CreateAuthorError::Duplicate { name: n }) && n@ == name
        &&& after == before
    } else if before.next_id < u64::MAX {
        let created = AuthorView { id: before.next_id, name, email };
        &&& r matches Ok(a) && a@ == created
        &&& after == (StoreView {
            authors: before.authors.push(created),
            next_id: (before.next_id + 1) as u64,
        })
    } else {
        &&& r matches Err(CreateAuthorError::Unknown(_))
        &&& after == before
    }
}

/// What finding the author with id `id` returns.
pub open spec fn find_outcome(v: StoreView, id: u64, r: Result<Author, FindAuthorError>) -> bool {
    if has_id(v.authors, id) {
        r matches Ok(a) && a@ == v.authors[index_of(v.authors, id)]
    } else {
        r matches Err(FindAuthorError::NotFound { id: n }) && n == id
    }
}

/// What listing the authors returns: all of them, in order.
pub open spec fn find_all_outcome(v: StoreView, r: Result<Vec<Author>, FindAllAuthorsError>) -> bool {
    r matches Ok(list) && list@.map_values(|a: Author| a@) == v.authors
}

/// What updating the author with id `id` returns and leaves: `NotFound` if
/// there is none; `Unknown` if the new name is another author's; else the
/// fields that are set are replaced.
pub open spec fn update_outcome(
    before: StoreView,
    id: u64,
    name: Option<Seq<char>>,
    email: Option<Seq<char>>,
    r: Result<(), UpdateAuthorError>,
    after: StoreView,
) -> bool {
    if !has_id(before.authors, id) {
        &&& r matches Err(UpdateAuthorError::NotFound { id: n }) && n == id
        &&& after == before
    } else {
        let i = index_of(before.authors, id);
        let current = before.authors[i];
        let new_name = match name {
            Some(n) => n,
            None => current.name,
        };
        let new_email = match email {
            Some(e) => e,
            None => current.email,
        };
        if name_held_by_other(before.authors, new_name, id) {
            &&& r matches Err(UpdateAuthorError::Unknown(_))
            &&& after == before
        } else {
            &&& r is Ok
            &&& after == (StoreView {
                authors: before.authors.update(i, AuthorView { id, name: new_name, email: new_email }),
                next_id: before.next_id,
            })
        }
    }
}

/// What deleting the author with id `id` returns and leaves.
pub open spec fn delete_outcome(
    before: StoreView,
    id: u64,
    r: Result<(), DeleteAuthorError>,
    after: StoreView,
) -> bool {
    if has_id(before.authors, id) {
        &&& r is Ok
        &&& after == (StoreView {
            authors: before.authors.remove(index_of(before.authors, id)),
            next_id: before.next_id,
        })
    } else {
        &&& r matches Err(DeleteAuthorError::NotFound { id: n }) && n == id
        &&& after == before
    }
}

/// Authors held in a vector; ids count up from one.
pub struct InMemoryAuthorRepository {
    authors: Vec<Author>,
    next_id: u64,
}

impl View for InMemoryAuthorRepository {
    type V = StoreView;

    closed spec fn view(&self) -> StoreView {
        StoreView { authors: self.authors@.map_values(|a: Author| a@), next_id: self.next_id }
    }
}

impl InMemoryAuthorRepository {
    #[verifier::type_invariant]
    closed spec fn well_formed(&self) -> bool {
        valid_store(self@)
    }

    /// An empty repository.
    pub fn new() -> (r: InMemoryAuthorRepository)
        ensures
            r@.authors.len() == 0,
            r@.next_id == 1,
            valid_store(r@),
    {
        let r = InMemoryAuthorRepository { authors: Vec::new(), next_id: 1 };
        assert(r@.authors.len() == 0);
        r
    }

    /// The index of the author with this id, if any.
    fn index_of_id(&self, id: u64) -> (r: Option<usize>)
        ensures
            r is Some <==> has_id(self@.authors, id),
            r matches Some(i) ==> i < self@.authors.len() && self@.authors[i as int].id == id,
    {
        let mut i: usize = 0;
        while i < self.authors.len()
            invariant
                i <= self.authors@.len(),
                forall|j: int| 0 <= j < i ==> self@.authors[j].id != id,
            decreases self.authors@.len() - i,
        {
            assert(self@.authors[i as int] == self.authors@[i as int]@);
            if self.authors[i].id() == id {
                assert(self@.authors[i as int].id == id);
                return Some(i);
            }
            i = i + 1;
        }
        None
    }

    /// Whether an author other than the one with id `id` has this name.
    fn is_name_held_by_other(&self, name: &AuthorName, id: u64) -> (r: bool)
        ensures
            r == name_held_by_other(self@.authors, name@, id),
    {
        let mut i: usize = 0;
        while i < self.authors.len()
            invariant
                i <= self.authors@.len(),
                forall|j: int|
                    0 <= j < i ==> !(self@.authors[j].name == name@ && self@.authors[j].id != id),
            decreases self.authors@.len() - i,
        {
            assert(self@.authors[i as int] == self.authors@[i as int]@);
            if self.authors[i].id() != id && self.authors[i].name() == name {
                return true;
            }
            i = i + 1;
        }
        false
    }
}

impl AuthorRepository for InMemoryAuthorRepository {
    fn create_author(&mut self, req: &CreateAuthorRequest) -> (r: Result<Author, CreateAuthorError>)
        ensures
            create_outcome(old(self)@, req.spec_name(), req.spec_email(), r, final(self)@),
            valid_store(final(self)@),
    {
        proof {
            use_type_invariant(&*self);
        }
        if self.is_name_held_by_other(req.name(), 0) {
            return Err(CreateAuthorError::Duplicate { name: req.name().to_string() });
        }
        if self.next_id == u64::MAX {
            return Err(CreateAuthorError::Unknown(String::from_str("no id is left for a new author")));
        }
        let id = self.next_id;
        let author = Author::new(
            id,
            AuthorName::new_unchecked(req.name().as_str()),
            EmailAddress::new_unchecked(req.email().as_str()),
        );
        let created = author.copy();
        let ghost before = self@;
        let mut authors = Vec::new();
        std::mem::swap(&mut authors, &mut self.authors);
        assert(authors@.map_values(|a: Author| a@) == before.authors);
        authors.push(author);
        assert(authors@.map_values(|a: Author| a@) =~= before.authors.push(created@));
        *self = InMemoryAuthorRepository { authors, next_id: id + 1 };
        Ok(created)
    }

    fn find_author(&self, req: &FindAuthorRequest) -> (r: Result<Author, FindAuthorError>)
        ensures
            find_outcome(self@, req.spec_id(), r),
    {
        proof {
            use_type_invariant(self);
        }
        match self.index_of_id(req.id()) {
            Some(i) => {
                assert(self@.authors[i as int] == self.authors@[i as int]@);
                Ok(self.authors[i].copy())
            },
            None => Err(FindAuthorError::NotFound { id: req.id() }),
        }
    }

    fn find_all_authors(&self) -> (r: Result<Vec<Author>, FindAllAuthorsError>)
        ensures
            find_all_outcome(self@, r),
    {
        let mut list: Vec<Author> = Vec::new();
        let mut i: usize = 0;
        while i < self.authors.len()
            invariant
                i <= self.authors@.len(),
                list@.map_values(|a: Author| a@) == self@.authors.take(i as int),
            decreases self.authors@.len() - i,
        {
            assert(self@.authors[i as int] == self.authors@[i as int]@);
            let ghost prev = list@;
            let c = self.authors[i].copy();
            list.push(c);
            assert(prev.map_values(|a: Author| a@).len() == prev.len());
            assert(list@.map_values(|a: Author| a@) =~= self@.authors.take(i + 1));
            i = i + 1;
        }
        assert(self@.authors.take(i as int) =~= self@.authors);
        Ok(list)
    }

    fn update_author(&mut self, req: &UpdateAuthorRequest) -> (r: Result<(), UpdateAuthorError>)
        ensures
            update_outcome(
                old(self)@,
                req.spec_id(),
                req.spec_name(),
                req.spec_email(),
                r,
                final(self)@,
            ),
            valid_store(final(self)@),
    {
        proof {
            use_type_invariant(&*self);
        }
        let id = req.id();
        let i = match self.index_of_id(id) {
            Some(i) => i,
            None => {
                return Err(UpdateAuthorError::NotFound { id });
            },
        };
        let ghost before = self@;
        assert(index_of(before.authors, id) == i as int);
        let name = match req.name() {
            Some(n) => AuthorName::new_unchecked(n.as_str()),
            None => AuthorName::new_unchecked(self.authors[i].name().as_str()),
        };
        let email = match req.email() {
            Some(e) => EmailAddress::new_unchecked(e.as_str()),
            None => EmailAddress::new_unchecked(self.authors[i].email().as_str()),
        };
        if self.is_name_held_by_other(&name, id) {
            return Err(UpdateAuthorError::Unknown(String::from_str("the new name is another author's")));
        }
        let updated = Author::new(id, name, email);
        let ghost updated_view = updated@;
        let next_id = self.next_id;
        let mut authors = Vec::new();
        std::mem::swap(&mut authors, &mut self.authors);
        assert(authors@.map_values(|a: Author| a@) == before.authors);
        authors.set(i, updated);
        assert(authors@.map_values(|a: Author| a@) =~= before.authors.update(i as int, updated_view));
        *self = InMemoryAuthorRepository { authors, next_id };
        Ok(())
    }

    fn delete_author(&mut self, req: &DeleteAuthorRequest) -> (r: Result<(), DeleteAuthorError>)
        ensures
            delete_outcome(old(self)@, req.spec_id(), r, final(self)@),
            valid_store(final(self)@),
    {
        proof {
            use_type_invariant(&*self);
        }
        let id = req.id();
        let i = match self.index_of_id(id) {
            Some(i) => i,
            None => {
                return Err(DeleteAuthorError::NotFound { id });
            },
        };
        let ghost before = self@;
        assert(index_of(before.authors, id) == i as int);
        let next_id = self.next_id;
        let mut authors = Vec::new();
        std::mem::swap(&mut authors, &mut self.authors);
        assert(authors@.map_values(|a: Author| a@) == before.authors);
        authors.remove(i);
        assert(authors@.map_values(|a: Author| a@) =~= before.authors.remove(i as int));
        *self = InMemoryAuthorRepository { authors, next_id };
        Ok(())
    }
}


/// `a` stands in `list` at exactly one index.
pub open spec fn occurs_once(list: Seq<AuthorView>, a: AuthorView) -> bool {
    exists|i: int|
        0 <= i < list.len() && #[trigger] list[i] == a && forall|j: int|
            0 <= j < list.len() && #[trigger] list[j] == a ==> j == i
}

/// Creating an author under a name that is stored already fails with
/// `Duplicate` naming it, and stores nothing.
pub proof fn law_duplicate_name_is_refused(
    before: StoreView,
    name: Seq<char>,
    email: Seq<char>,
    r: Result<Author, CreateAuthorError>,
    after: StoreView,
)
    requires
        has_name(before.authors, name),
        create_outcome(before, name, email, r, after),
    ensures
        r matches Err(CreateAuthorError::Duplicate { name: n }) && n@ == name,
        after == before,
{
}

/// Finding an id that no stored author has fails with `NotFound`, reporting
/// the id that was asked for.
pub proof fn law_missing_id_is_not_found(v: StoreView, id: u64, r: Result<Author, FindAuthorError>)
    requires
        !has_id(v.authors, id),
        find_outcome(v, id, r),
    ensures
        r matches Err(FindAuthorError::NotFound { id: n }) && n == id,
{
}

/// An author that creation returned is then found under its id, with the
/// name and email that were submitted.
pub proof fn law_created_author_is_found(
    before: StoreView,
    name: Seq<char>,
    email: Seq<char>,
    created: Result<Author, CreateAuthorError>,
    after: StoreView,
    found: Result<Author, FindAuthorError>,
)
    requires
        valid_store(before),
        create_outcome(before, name, email, created, after),
        created is Ok,
        find_outcome(after, created->Ok_0@.id, found),
    ensures
        found matches Ok(a) && a@ == created->Ok_0@ && a@.name == name && a@.email == email,
{
    let c = created->Ok_0@;
    let last = before.authors.len() as int;
    assert(after.authors[last] == c);
    let i = index_of(after.authors, c.id);
    if i != last {
        assert(after.authors[i] == before.authors[i]);
    }
}

/// Listing returns every stored author exactly once and nothing else.
pub proof fn law_listing_holds_each_author_once(v: StoreView, r: Result<Vec<Author>, FindAllAuthorsError>)
    requires
        valid_store(v),
        find_all_outcome(v, r),
    ensures
        r matches Ok(list) && list@.len() == v.authors.len() && (forall|k: int|
            0 <= k < v.authors.len() ==> occurs_once(
                list@.map_values(|a: Author| a@),
                #[trigger] v.authors[k],
            )) && (forall|j: int|
            0 <= j < list@.len() ==> v.authors.contains(#[trigger] list@[j]@)),
{
    let list = r->Ok_0@.map_values(|a: Author| a@);
    assert forall|k: int| 0 <= k < v.authors.len() implies occurs_once(
        list,
        #[trigger] v.authors[k],
    ) by {
        assert(list[k] == v.authors[k]);
        assert forall|j: int| 0 <= j < list.len() && #[trigger] list[j] == v.authors[k] implies j
            == k by {
            if j != k {
                assert(v.authors[j].id != v.authors[k].id);
            }
        }
    }
    assert forall|j: int| 0 <= j < r->Ok_0@.len() implies v.authors.contains(
        #[trigger] r->Ok_0@[j]@,
    ) by {
        assert(list[j] == r->Ok_0@[j]@);
    }
}

/// After a successful creation, listing holds the new author exactly once,
/// and every author stored before exactly once.
pub proof fn law_created_author_is_listed(
    before: StoreView,
    name: Seq<char>,
    email: Seq<char>,
    created: Result<Author, CreateAuthorError>,
    after: StoreView,
    listed: Result<Vec<Author>, FindAllAuthorsError>,
)
    requires
        valid_store(before),
        create_outcome(before, name, email, created, after),
        created is Ok,
        find_all_outcome(after, listed),
    ensures
        listed matches Ok(list) && occurs_once(
            list@.map_values(|a: Author| a@),
            created->Ok_0@,
        ) && (forall|k: int|
            0 <= k < before.authors.len() ==> occurs_once(
                list@.map_values(|a: Author| a@),
                #[trigger] before.authors[k],
            )),
{
    let last = before.authors.len() as int;
    assert(valid_store(after)) by {
        assert forall|i: int| 0 <= i < after.authors.len() implies 1 <= #[trigger] after.authors[i].id
            < after.next_id by {
            if i < last {
                assert(after.authors[i] == before.authors[i]);
            }
        }
        assert forall|i: int, j: int|
            0 <= i < after.authors.len() && 0 <= j < after.authors.len() && i != j implies #[trigger] after.authors[i].id
            != #[trigger] after.authors[j].id by {
            if i < last {
                assert(after.authors[i] == before.authors[i]);
            }
            if j < last {
                assert(after.authors[j] == before.authors[j]);
            }
        }
        assert forall|i: int, j: int|
            0 <= i < after.authors.len() && 0 <= j < after.authors.len() && i != j implies #[trigger] after.authors[i].name
            != #[trigger] after.authors[j].name by {
            if i < last {
                assert(after.authors[i] == before.authors[i]);
            }
            if j < last {
                assert(after.authors[j] == before.authors[j]);
            }
        }
    }
    law_listing_holds_each_author_once(after, listed);
    assert(after.authors[last] == created->Ok_0@);
    assert forall|k: int| 0 <= k < before.authors.len() implies occurs_once(
        listed->Ok_0@.map_values(|a: Author| a@),
        #[trigger] before.authors[k],
    ) by {
        assert(after.authors[k] == before.authors[k]);
    }
}

/// Deleting an id that no stored author has fails with `NotFound` and
/// changes nothing.
pub proof fn law_delete_missing_is_not_found(
    before: StoreView,
    id: u64,
    r: Result<(), DeleteAuthorError>,
    after: StoreView,
)
    requires
        !has_id(before.authors, id),
        delete_outcome(before, id, r, after),
    ensures
        r matches Err(DeleteAuthorError::NotFound { id: n }) && n == id,
        after == before,
{
}

/// Deleting a stored author succeeds, and finding it afterwards fails with
/// `NotFound`.
pub proof fn law_deleted_author_is_not_found(
    before: StoreView,
    id: u64,
    deleted: Result<(), DeleteAuthorError>,
    after: StoreView,
    found: Result<Author, FindAuthorError>,
)
    requires
        valid_store(before),
        has_id(before.authors, id),
        delete_outcome(before, id, deleted, after),
        find_outcome(after, id, found),
    ensures
        deleted is Ok,
        found matches Err(FindAuthorError::NotFound { id: n }) && n == id,
{
    let k = index_of(before.authors, id);
    if has_id(after.authors, id) {
        let i = choose|i: int| 0 <= i < after.authors.len() && #[trigger] after.authors[i].id == id;
        if i < k {
            assert(after.authors[i] == before.authors[i]);
        } else {
            assert(after.authors[i] == before.authors[i + 1]);
        }
    }
}

} // verus!
