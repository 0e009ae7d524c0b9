//! The repository of account records, keyed by email.
//!
//! Operations mirror the persistence interface the service consumes:
//! lookup, insert and delete, each keyed on the unique email. The store
//! is the authoritative enforcement point of the unique-email constraint:
//! an insert that would duplicate a key is rejected here, whatever checks
//! ran before it.

use vstd::prelude::*;

use crate::models::{clone_user, user_eq, User};
use crate::strutil::str_eq;

verus! {

/// Failure kinds of the repository.
#[derive(Debug)]
pub enum StoreError {
    /// An insert violated the unique-email constraint.
    DuplicateKey,
    /// Any other persistence failure, with an opaque cause.
    Failure(String),
}

/// Whether some record in `s` is keyed by `email`.
pub open spec fn contains_email(s: Seq<User>, email: Seq<char>) -> bool {
    exists|i: int| 0 <= i < s.len() && (#[trigger] s[i]).email_id@ == email
}

/// An index of a record keyed by `email`; under the uniqueness invariant,
/// the only one.
pub open spec fn email_index(s: Seq<User>, email: Seq<char>) -> int {
    choose|i: int| 0 <= i < s.len() && (#[trigger] s[i]).email_id@ == email
}

/// The record keyed by `email`.
pub open spec fn user_at(s: Seq<User>, email: Seq<char>) -> User {
    s[email_index(s, email)]
}

/// No two records share an email: invariant (and the store enforces it).
pub open spec fn emails_unique(s: Seq<User>) -> bool {
    forall|i: int, j: int|
        0 <= i < j < s.len() ==> (#[trigger] s[i]).email_id@ != (#[trigger] s[j]).email_id@
}

/// Every stored record carries a password hash.
pub open spec fn records_complete(s: Seq<User>) -> bool {
    forall|i: int| 0 <= i < s.len() ==> (#[trigger] s[i]).password is Some
}

/// Under the uniqueness invariant, any index holding `email` is the index
/// [`email_index`] names.
pub proof fn lemma_email_index_unique(s: Seq<User>, email: Seq<char>, i: int)
    requires
        emails_unique(s),
        0 <= i < s.len(),
        s[i].email_id@ == email,
    ensures
        email_index(s, email) == i,
{
    let k = email_index(s, email);
    assert(0 <= k < s.len() && s[k].email_id@ == email);
}

/// Removing the record keyed by `email` leaves no record with that key,
/// and keeps both store invariants.
pub proof fn lemma_remove_email(s: Seq<User>, email: Seq<char>)
    requires
        emails_unique(s),
        records_complete(s),
        contains_email(s, email),
    ensures
        !contains_email(s.remove(email_index(s, email)), email),
        emails_unique(s.remove(email_index(s, email))),
        records_complete(s.remove(email_index(s, email))),
{
    let k = email_index(s, email);
    let t = s.remove(k);
    assert forall|i: int| 0 <= i < t.len() implies (#[trigger] t[i]).email_id@ != email by {
        if i < k {
            assert(t[i] == s[i]);
        } else {
            assert(t[i] == s[i + 1]);
        }
    }
    assert forall|i: int, j: int| 0 <= i < j < t.len() implies (#[trigger] t[i]).email_id@ != (
    #[trigger] t[j]).email_id@ by {
        let i0: int = if i < k {
            i
        } else {
            i + 1
        };
        let j0: int = if j < k {
            j
        } else {
            j + 1
        };
        assert(t[i] == s[i0]);
        assert(t[j] == s[j0]);
    }
    assert forall|i: int| 0 <= i < t.len() implies (#[trigger] t[i]).password is Some by {
        if i < k {
            assert(t[i] == s[i]);
        } else {
            assert(t[i] == s[i + 1]);
        }
    }
}

/// In-memory repository of account records with unique emails.
pub struct UserStore {
    users: Vec<User>,
    next_id: u64,
}

impl View for UserStore {
    type V = Seq<User>;

    closed spec fn view(&self) -> Seq<User> {
        self.users@
    }
}

impl UserStore {
    /// Both store invariants: unique emails, complete records.
    pub open spec fn wf(&self) -> bool {
        emails_unique(self@) && records_complete(self@)
    }

    /// An empty store.
    pub fn new() -> (r: UserStore)
        ensures
            r@.len() == 0,
            r.wf(),
    {
        UserStore { users: Vec::new(), next_id: 0 }
    }

    /// How many records the store holds.
    pub fn len(&self) -> (r: usize)
        ensures
            r == self@.len(),
    {
        self.users.len()
    }

    /// The index of the record keyed by `email`, if one is stored.
    fn find_index(&self, email: &str) -> (r: Option<usize>)
        requires
            self.wf(),
        ensures
            match r {
                Option::Some(i) => contains_email(self@, email@) && i == email_index(self@, email@)
                    && i < self@.len(),
                Option::None => !contains_email(self@, email@),
            },
    {
        let n = self.users.len();
        let mut i: usize = 0;
        while i < n
            invariant
                self.wf(),
                n == self@.len(),
                0 <= i <= n,
                forall|j: int| 0 <= j < i ==> (#[trigger] self@[j]).email_id@ != email@,
            decreases n - i,
        {
            if str_eq(self.users[i].email_id.as_str(), email) {
                proof {
                    lemma_email_index_unique(self@, email@, i as int);
                }
                return Option::Some(i);
            }
            i = i + 1;
        }
        Option::None
    }

    /// Look a record up by its email: a content-equal copy, or `None`
    /// exactly when no record has that email.
    pub fn find_by_email(&self, email: &str) -> (r: Option<User>)
        requires
            self.wf(),
        ensures
            r is Some <==> contains_email(self@, email@),
            r matches Some(u) ==> user_eq(u, user_at(self@, email@)),
    {
        match self.find_index(email) {
            Option::Some(i) => Option::Some(clone_user(&self.users[i])),
            Option::None => Option::None,
        }
    }

    /// Insert a record, assigning its identifier. Rejected with
    /// `DuplicateKey` exactly when a record with the same email is
    /// already stored; on success the store grows by the one record and
    /// a content-equal copy of it is returned.
    pub fn insert(&mut self, user: User) -> (r: Result<User, StoreError>)
        requires
            old(self).wf(),
            user.password is Some,
        ensures
            final(self).wf(),
            contains_email(old(self)@, user.email_id@) ==> (r matches Err(StoreError::DuplicateKey)
                && final(self)@ == old(self)@),
            !contains_email(old(self)@, user.email_id@) ==> {
                &&& r is Ok
                &&& final(self)@.len() == old(self)@.len() + 1
                &&& forall|k: int| 0 <= k < old(self)@.len() ==> final(self)@[k] == old(self)@[k]
                &&& stored_from(final(self)@[old(self)@.len() as int], user)
                &&& r matches Ok(u) ==> user_eq(u, final(self)@[old(self)@.len() as int])
            },
    {
        match self.find_index(user.email_id.as_str()) {
            Option::Some(_) => Err(StoreError::DuplicateKey),
            Option::None => {
                let id = self.next_id;
                self.next_id = self.next_id.wrapping_add(1);
                let stored = User { user_id: Option::Some(id), ..user };
                let copy = clone_user(&stored);
                let ghost pre = self@;
                self.users.push(stored);
                proof {
                    assert forall|i: int, j: int|
                        0 <= i < j < self@.len() implies (#[trigger] self@[i]).email_id@ != (
                    #[trigger] self@[j]).email_id@ by {
                        if j < pre.len() {
                            assert(emails_unique(pre));
                        } else {
                            assert(self@[j].email_id@ == user.email_id@);
                            assert(self@[i] == pre[i]);
                        }
                    }
                    assert forall|i: int|
                        0 <= i < self@.len() implies (#[trigger] self@[i]).password is Some by {
                        if i < pre.len() {
                            assert(self@[i] == pre[i]);
                        }
                    }
                }
                Ok(copy)
            },
        }
    }

    /// Delete the record keyed by `email`, reporting how many records
    /// went: one exactly when the email was stored, else zero. Every
    /// other record stays.
    pub fn delete_by_email(&mut self, email: &str) -> (r: Result<u64, StoreError>)
        requires
            old(self).wf(),
        ensures
            final(self).wf(),
            !contains_email(old(self)@, email@) ==> (r matches Ok(n) && n == 0 && final(self)@
                == old(self)@),
            contains_email(old(self)@, email@) ==> (r matches Ok(n) && n == 1 && final(self)@
                == old(self)@.remove(email_index(old(self)@, email@)) && !contains_email(
                final(self)@,
                email@,
            )),
    {
        match self.find_index(email) {
            Option::Some(i) => {
                proof {
                    lemma_remove_email(self@, email@);
                }
                self.users.remove(i);
                Ok(1)
            },
            Option::None => Ok(0),
        }
    }
}

/// The record the store keeps for an inserted value: the given fields,
/// with the store-assigned identifier in place.
pub open spec fn stored_from(stored: User, given: User) -> bool {
    &&& stored.user_id is Some
    &&& stored.first_name@ == given.first_name@
    &&& stored.last_name@ == given.last_name@
    &&& stored.email_id@ == given.email_id@
    &&& stored.password == given.password
    &&& stored.user_type == given.user_type
    &&& stored.user_tags@ == given.user_tags@
    &&& stored.bio == given.bio
    &&& stored.image == given.image
    &&& stored.created_at == given.created_at
    &&& stored.updated_at == given.updated_at
}

} // verus!
