//! The authentication service: register, login and delete, orchestrating
//! the validator, the hasher and the repository, and the closed error
//! taxonomy all three report through.

use vstd::prelude::*;

use crate::crypto::{verifies_against, CredentialHasher};
use crate::models::{
    sanitize_user, sanitizes, DeleteUser, LoginUser, RegisterUser, SanitizedUser, User,
};
use crate::store::{
    contains_email, email_index, emails_unique, records_complete, user_at, StoreError, UserStore,
};
use crate::validate::{
    spec_invalid_field, spec_invalid_rule, spec_valid_register, validate_register, ValidationError,
};

verus! {

/// The closed set of failure kinds an operation can report.
#[derive(Debug)]
pub enum AuthenticationError {
    /// Registration input broke a validation rule; no store access was
    /// made.
    ValidationError(ValidationError),
    /// A record with the requested email already exists.
    UserAlreadyExists,
    /// No record with the requested email exists.
    NotFound,
    /// The email exists but the password is not the one its hash was made
    /// from.
    PasswordMismatch,
    /// Any other failure, with an opaque cause.
    StoreError(String),
}

/// Relies on chrono's `Utc::now`: the current wall-clock time, in
/// milliseconds since the epoch. Nothing is assumed of the value.
#[verifier::external_body]
fn now_millis() -> i64 {
    chrono::Utc::now().timestamp_millis()
}

/// A registration request the service must accept: valid input whose
/// email is not yet taken in store state `s`.
pub open spec fn spec_register_accepted(s: Seq<User>, req: RegisterUser) -> bool {
    spec_valid_register(req) && !contains_email(s, req.email_id@)
}

/// The record a successful registration of `req` stores: the request's
/// fields, a store-assigned identifier, the password replaced by a hash
/// that accepts it, and both timestamps set at once to the same instant.
pub open spec fn spec_registered_user(u: User, req: RegisterUser) -> bool {
    &&& u.user_id is Some
    &&& u.first_name@ == req.first_name@
    &&& u.last_name@ == req.last_name@
    &&& u.email_id@ == req.email_id@
    &&& u.user_type == req.user_type
    &&& u.user_tags@ == req.user_tags@
    &&& u.bio is None
    &&& u.image is None
    &&& u.created_at is Some
    &&& u.updated_at == u.created_at
    &&& match u.password {
        Option::Some(h) => verifies_against(req.password@, h@),
        Option::None => false,
    }
}

/// A successful registration: the store grew by exactly the new record,
/// every prior record is untouched, and the caller got its sanitized
/// projection.
pub open spec fn spec_registered(
    pre: Seq<User>,
    post: Seq<User>,
    req: RegisterUser,
    su: SanitizedUser,
) -> bool {
    &&& post.len() == pre.len() + 1
    &&& forall|k: int| 0 <= k < pre.len() ==> post[k] == pre[k]
    &&& spec_registered_user(post[pre.len() as int], req)
    &&& sanitizes(su, post[pre.len() as int])
}

/// Law: once a registration for an email has succeeded, no registration
/// for the same email is accepted against the resulting store, whatever
/// the rest of the new request holds.
pub proof fn lemma_register_once(
    pre: Seq<User>,
    post: Seq<User>,
    req1: RegisterUser,
    su: SanitizedUser,
    req2: RegisterUser,
)
    requires
        spec_registered(pre, post, req1, su),
        req2.email_id@ == req1.email_id@,
    ensures
        !spec_register_accepted(post, req2),
{
    assert(post[pre.len() as int].email_id@ == req2.email_id@);
}

/// The service: stateless across calls aside from the repository it
/// owns and the hasher injected at construction.
pub struct AuthService {
    store: UserStore,
    hasher: CredentialHasher,
}

impl View for AuthService {
    type V = Seq<User>;

    closed spec fn view(&self) -> Seq<User> {
        self.store@
    }
}

impl AuthService {
    /// The repository invariants, as the service maintains them.
    pub open spec fn wf(&self) -> bool {
        emails_unique(self@) && records_complete(self@)
    }

    /// Wire the service up from its two collaborators.
    pub fn new(store: UserStore, hasher: CredentialHasher) -> (r: AuthService)
        requires
            store.wf(),
        ensures
            r@ == store@,
            r.wf(),
    {
        AuthService { store, hasher }
    }

    /// Register a new account: validate, check the email is free, hash
    /// the password, store the record, and hand back its sanitized
    /// projection.
    ///
    /// Invalid input is reported field-first and leaves the store
    /// untouched, as does a taken email. When the input is acceptable the
    /// one remaining failure is the hashing scheme refusing the password,
    /// reported as `StoreError` with the store untouched; otherwise the
    /// registration succeeds.
    pub fn register(&mut self, req: RegisterUser) -> (r: Result<SanitizedUser, AuthenticationError>)
        requires
            old(self).wf(),
        ensures
            final(self).wf(),
            !spec_valid_register(req) ==> ({
                &&& final(self)@ == old(self)@
                &&& r matches Err(AuthenticationError::ValidationError(e)) && e.field@
                    == spec_invalid_field(req) && e.rule@ == spec_invalid_rule(req)
            }),
            spec_valid_register(req) && contains_email(old(self)@, req.email_id@) ==> (
            final(self)@ == old(self)@ && r matches Err(AuthenticationError::UserAlreadyExists)),
            spec_register_accepted(old(self)@, req) ==> match r {
                Result::Ok(su) => spec_registered(old(self)@, final(self)@, req, su),
                Result::Err(e) => e matches AuthenticationError::StoreError(_) && final(self)@
                    == old(self)@,
            },
            r is Ok ==> spec_register_accepted(old(self)@, req),
    {
        match validate_register(&req) {
            Result::Err(e) => {
                return Err(AuthenticationError::ValidationError(e));
            },
            Result::Ok(()) => {},
        }
        // Fast-path uniqueness check; the store's own constraint stays
        // authoritative at the insert below.
        match self.store.find_by_email(req.email_id.as_str()) {
            Option::Some(_) => {
                return Err(AuthenticationError::UserAlreadyExists);
            },
            Option::None => {},
        }
        let password_hash = match self.hasher.hash(req.password.as_str()) {
            Option::Some(h) => h,
            Option::None => {
                return Err(
                    AuthenticationError::StoreError(String::from_str("password hashing failed")),
                );
            },
        };
        self.register_with_hash(req, password_hash)
    }

    /// Complete a registration once the password hash is in hand: build
    /// the record with both timestamps set to the same instant, insert
    /// it, and sanitize the stored copy. The store's unique-email
    /// constraint decides: a taken email is reported as
    /// `UserAlreadyExists`, and with a free email the registration is
    /// owed success.
    pub fn register_with_hash(&mut self, req: RegisterUser, password_hash: String) -> (r: Result<
        SanitizedUser,
        AuthenticationError,
    >)
        requires
            old(self).wf(),
        ensures
            final(self).wf(),
            contains_email(old(self)@, req.email_id@) ==> (final(self)@ == old(self)@
                && r matches Err(AuthenticationError::UserAlreadyExists)),
            !contains_email(old(self)@, req.email_id@) ==> (r matches Ok(su)
                && spec_registered_with(old(self)@, final(self)@, req, password_hash@, su)),
    {
        let t = now_millis();
        let user = User {
            user_id: Option::None,
            first_name: req.first_name,
            last_name: req.last_name,
            email_id: req.email_id,
            password: Option::Some(password_hash),
            user_type: req.user_type,
            user_tags: req.user_tags,
            bio: Option::None,
            image: Option::None,
            created_at: Option::Some(t),
            updated_at: Option::Some(t),
        };
        match self.store.insert(user) {
            Result::Ok(stored_copy) => Ok(sanitize_user(&stored_copy)),
            Result::Err(StoreError::DuplicateKey) => Err(AuthenticationError::UserAlreadyExists),
            Result::Err(StoreError::Failure(cause)) => Err(AuthenticationError::StoreError(cause)),
        }
    }

    /// Authenticate a login attempt: look the email up, verify the
    /// password against the stored hash, and hand back the sanitized
    /// record. An unknown email is `NotFound`; a known email with a
    /// password its hash was not made from is `PasswordMismatch`.
    pub fn login(&self, req: &LoginUser) -> (r: Result<SanitizedUser, AuthenticationError>)
        requires
            self.wf(),
        ensures
            r matches Err(AuthenticationError::NotFound) <==> !contains_email(
                self@,
                req.username@,
            ),
            contains_email(self@, req.username@) ==> {
                let u = user_at(self@, req.username@);
                match u.password {
                    Option::Some(h) => {
                        &&& verifies_against(req.password@, h@) ==> (r matches Ok(su) && sanitizes(
                            su,
                            u,
                        ))
                        &&& !verifies_against(req.password@, h@) ==> r matches Err(
                            AuthenticationError::PasswordMismatch,
                        )
                    },
                    Option::None => false,
                }
            },
    {
        let found = match self.store.find_by_email(req.username.as_str()) {
            Option::Some(u) => u,
            Option::None => {
                return Err(AuthenticationError::NotFound);
            },
        };
        proof {
            assert(email_index(self@, req.username@) < self@.len());
            assert(user_at(self@, req.username@).password is Some);
        }
        let hash = match &found.password {
            Option::Some(h) => h,
            Option::None => {
                return Err(AuthenticationError::PasswordMismatch);
            },
        };
        if self.hasher.verify(req.password.as_str(), hash.as_str()) {
            Ok(sanitize_user(&found))
        } else {
            Err(AuthenticationError::PasswordMismatch)
        }
    }

    /// Delete the account keyed by the request's email. `NotFound`
    /// exactly when no record has that email — never a generic store
    /// failure for that case; on success the record is gone and every
    /// other record stays.
    pub fn delete(&mut self, req: &DeleteUser) -> (r: Result<(), AuthenticationError>)
        requires
            old(self).wf(),
        ensures
            final(self).wf(),
            !contains_email(old(self)@, req.username@) ==> (r matches Err(
                AuthenticationError::NotFound,
            ) && final(self)@ == old(self)@),
            contains_email(old(self)@, req.username@) ==> (r is Ok && final(self)@ == old(self)@
                .remove(email_index(old(self)@, req.username@)) && !contains_email(
                final(self)@,
                req.username@,
            )),
            r is Ok <==> contains_email(old(self)@, req.username@),
    {
        match self.store.delete_by_email(req.username.as_str()) {
            Result::Ok(0) => Err(AuthenticationError::NotFound),
            Result::Ok(_) => Ok(()),
            Result::Err(StoreError::DuplicateKey) => Err(
                AuthenticationError::StoreError(String::from_str("store failure")),
            ),
            Result::Err(StoreError::Failure(cause)) => Err(AuthenticationError::StoreError(cause)),
        }
    }

    /// How many accounts are stored.
    pub fn len(&self) -> (r: usize)
        ensures
            r == self@.len(),
    {
        self.store.len()
    }

    /// Look an account up by email. Like every caller-facing result, the
    /// found record leaves the service only as its sanitized projection.
    pub fn find_by_email(&self, email: &str) -> (r: Option<SanitizedUser>)
        requires
            self.wf(),
        ensures
            r is Some <==> contains_email(self@, email@),
            r matches Some(su) ==> sanitizes(su, user_at(self@, email@)),
    {
        match self.store.find_by_email(email) {
            Option::Some(u) => Option::Some(sanitize_user(&u)),
            Option::None => Option::None,
        }
    }
}

/// A successful registration, named by the hash the stored record holds:
/// as [`spec_registered`], except that the password clause names the
/// exact hash string instead of what it accepts.
pub open spec fn spec_registered_with(
    pre: Seq<User>,
    post: Seq<User>,
    req: RegisterUser,
    password_hash: Seq<char>,
    su: SanitizedUser,
) -> bool {
    &&& post.len() == pre.len() + 1
    &&& forall|k: int| 0 <= k < pre.len() ==> post[k] == pre[k]
    &&& spec_registered_user_with(post[pre.len() as int], req, password_hash)
    &&& sanitizes(su, post[pre.len() as int])
}

/// As [`spec_registered_user`], with the stored hash named exactly.
pub open spec fn spec_registered_user_with(
    u: User,
    req: RegisterUser,
    password_hash: Seq<char>,
) -> bool {
    &&& u.user_id is Some
    &&& u.first_name@ == req.first_name@
    &&& u.last_name@ == req.last_name@
    &&& u.email_id@ == req.email_id@
    &&& u.user_type == req.user_type
    &&& u.user_tags@ == req.user_tags@
    &&& u.bio is None
    &&& u.image is None
    &&& u.created_at is Some
    &&& u.updated_at == u.created_at
    &&& match u.password {
        Option::Some(h) => h@ == password_hash,
        Option::None => false,
    }
}

} // verus!
