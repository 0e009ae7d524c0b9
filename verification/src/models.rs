//! The account data model: the persisted record, the transient request
//! values, and the sanitized projection that is the only shape ever
//! handed back to a caller.

use vstd::prelude::*;

use crate::strutil::str_eq;

verus! {

/// Closed set of account categories.
#[derive(Clone, Copy, PartialEq, Eq, Structural, Debug)]
pub enum UserType {
    Customer,
    Worker,
}

/// Closed set of profile tags an account may carry.
#[derive(Clone, Copy, PartialEq, Eq, Structural, Debug)]
pub enum UserTags {
    WebDevelopment,
    MobileDevelopment,
    MachineLearning,
    DeepLearning,
    FullStackDevelopment,
    CoreBlockchainDevelopment,
}

/// The persisted account record. `password` holds the self-describing
/// encoded hash of the account's password; it never leaves the store and
/// the service except through [`SanitizedUser`], which lacks the field.
#[derive(Debug)]
pub struct User {
    /// Assigned by the store on insert, never by the service.
    pub user_id: Option<u64>,
    pub first_name: String,
    pub last_name: String,
    /// Unique key across the store; doubles as the external "username".
    pub email_id: String,
    /// Encoded one-way hash of the password (algorithm, parameters, salt
    /// and digest in one string); never plaintext.
    pub password: Option<String>,
    pub user_type: UserType,
    pub user_tags: Vec<UserTags>,
    pub bio: Option<String>,
    pub image: Option<String>,
    /// Milliseconds since the epoch, set once at creation.
    pub created_at: Option<i64>,
    /// Equal to `created_at`: no update path exists.
    pub updated_at: Option<i64>,
}

/// Transient registration input; discarded after producing a `User` or an
/// error. Carries the only plaintext password the service ever sees.
#[derive(Debug)]
pub struct RegisterUser {
    pub first_name: String,
    pub last_name: String,
    pub user_type: UserType,
    pub user_tags: Vec<UserTags>,
    pub email_id: String,
    pub password: String,
}

/// Transient login input; never persisted.
#[derive(Debug)]
pub struct LoginUser {
    pub username: String,
    pub password: String,
}

/// Transient deletion input, keyed by the external "username" (the email).
#[derive(Debug)]
pub struct DeleteUser {
    pub username: String,
}

/// Projection of a `User` with the password hash removed: the only
/// representation ever returned to a caller. Omission of the secret is
/// enforced by the type, which has no password field at all.
#[derive(Debug)]
pub struct SanitizedUser {
    pub user_id: Option<u64>,
    pub first_name: String,
    pub last_name: String,
    pub email_id: String,
    pub user_type: UserType,
    pub user_tags: Vec<UserTags>,
    pub bio: Option<String>,
    pub image: Option<String>,
    pub created_at: Option<i64>,
    pub updated_at: Option<i64>,
}

/// Equality of two optional strings, by content.
pub open spec fn opt_str_eq(a: Option<String>, b: Option<String>) -> bool {
    match (a, b) {
        (Option::None, Option::None) => true,
        (Option::Some(x), Option::Some(y)) => x@ == y@,
        _ => false,
    }
}

/// Equality of two account records, field by field and by content.
pub open spec fn user_eq(a: User, b: User) -> bool {
    &&& a.user_id == b.user_id
    &&& a.first_name@ == b.first_name@
    &&& a.last_name@ == b.last_name@
    &&& a.email_id@ == b.email_id@
    &&& opt_str_eq(a.password, b.password)
    &&& a.user_type == b.user_type
    &&& a.user_tags@ == b.user_tags@
    &&& opt_str_eq(a.bio, b.bio)
    &&& opt_str_eq(a.image, b.image)
    &&& a.created_at == b.created_at
    &&& a.updated_at == b.updated_at
}

/// The sanitized projection `su` shows exactly the non-secret fields of `u`.
pub open spec fn sanitizes(su: SanitizedUser, u: User) -> bool {
    &&& su.user_id == u.user_id
    &&& su.first_name@ == u.first_name@
    &&& su.last_name@ == u.last_name@
    &&& su.email_id@ == u.email_id@
    &&& su.user_type == u.user_type
    &&& su.user_tags@ == u.user_tags@
    &&& opt_str_eq(su.bio, u.bio)
    &&& opt_str_eq(su.image, u.image)
    &&& su.created_at == u.created_at
    &&& su.updated_at == u.updated_at
}

/// Content-preserving copy of a string.
pub fn clone_string(s: &String) -> (r: String)
    ensures
        r@ == s@,
{
    s.clone()
}

/// Content-preserving copy of an optional string.
pub fn clone_opt_string(s: &Option<String>) -> (r: Option<String>)
    ensures
        opt_str_eq(r, *s),
{
    match s {
        Option::None => Option::None,
        Option::Some(x) => Option::Some(x.clone()),
    }
}

/// Element-preserving copy of a tag list.
pub fn clone_tags(v: &Vec<UserTags>) -> (r: Vec<UserTags>)
    ensures
        r@ == v@,
{
    let mut r: Vec<UserTags> = Vec::new();
    let mut i: usize = 0;
    while i < v.len()
        invariant
            0 <= i <= v@.len(),
            r@ =~= v@.subrange(0, i as int),
        decreases v@.len() - i,
    {
        r.push(v[i]);
        i = i + 1;
    }
    proof {
        assert(r@ =~= v@);
    }
    r
}

/// Content-preserving copy of an account record.
pub fn clone_user(u: &User) -> (r: User)
    ensures
        user_eq(r, *u),
{
    User {
        user_id: u.user_id,
        first_name: u.first_name.clone(),
        last_name: u.last_name.clone(),
        email_id: u.email_id.clone(),
        password: clone_opt_string(&u.password),
        user_type: u.user_type,
        user_tags: clone_tags(&u.user_tags),
        bio: clone_opt_string(&u.bio),
        image: clone_opt_string(&u.image),
        created_at: u.created_at,
        updated_at: u.updated_at,
    }
}

/// Build the sanitized projection of a record: every field but the
/// password hash, which the result cannot even represent.
pub fn sanitize_user(u: &User) -> (r: SanitizedUser)
    ensures
        sanitizes(r, *u),
{
    SanitizedUser {
        user_id: u.user_id,
        first_name: u.first_name.clone(),
        last_name: u.last_name.clone(),
        email_id: u.email_id.clone(),
        user_type: u.user_type,
        user_tags: clone_tags(&u.user_tags),
        bio: clone_opt_string(&u.bio),
        image: clone_opt_string(&u.image),
        created_at: u.created_at,
        updated_at: u.updated_at,
    }
}

/// The printable name of an account category.
pub open spec fn spec_user_type_name(t: UserType) -> Seq<char> {
    match t {
        UserType::Customer => "Customer"@,
        UserType::Worker => "Worker"@,
    }
}

/// The printable name of a profile tag.
pub open spec fn spec_tag_name(t: UserTags) -> Seq<char> {
    match t {
        UserTags::WebDevelopment => "WebDevelopment"@,
        UserTags::MobileDevelopment => "MobileDevelopment"@,
        UserTags::MachineLearning => "MachineLearning"@,
        UserTags::DeepLearning => "DeepLearning"@,
        UserTags::FullStackDevelopment => "FullStackDevelopment"@,
        UserTags::CoreBlockchainDevelopment => "CoreBlockchainDevelopment"@,
    }
}

impl UserType {
    /// The category's name, as raw input spells it.
    pub fn name(&self) -> (r: &'static str)
        ensures
            r@ == spec_user_type_name(*self),
    {
        match self {
            UserType::Customer => "Customer",
            UserType::Worker => "Worker",
        }
    }

    /// Decode a raw input value into a category; unrecognized input
    /// yields `None` rather than a default.
    pub fn from_name(s: &str) -> (r: Option<UserType>)
        ensures
            r == (if s@ == spec_user_type_name(UserType::Customer) {
                Option::Some(UserType::Customer)
            } else if s@ == spec_user_type_name(UserType::Worker) {
                Option::Some(UserType::Worker)
            } else {
                Option::<UserType>::None
            }),
    {
        if str_eq(s, "Customer") {
            Option::Some(UserType::Customer)
        } else if str_eq(s, "Worker") {
            Option::Some(UserType::Worker)
        } else {
            Option::None
        }
    }
}

impl UserTags {
    /// The tag's name, as raw input spells it.
    pub fn name(&self) -> (r: &'static str)
        ensures
            r@ == spec_tag_name(*self),
    {
        match self {
            UserTags::WebDevelopment => "WebDevelopment",
            UserTags::MobileDevelopment => "MobileDevelopment",
            UserTags::MachineLearning => "MachineLearning",
            UserTags::DeepLearning => "DeepLearning",
            UserTags::FullStackDevelopment => "FullStackDevelopment",
            UserTags::CoreBlockchainDevelopment => "CoreBlockchainDevelopment",
        }
    }

    /// Decode a raw input value into a tag; unrecognized input yields
    /// `None` rather than a default.
    pub fn from_name(s: &str) -> (r: Option<UserTags>)
        ensures
            r == (if s@ == spec_tag_name(UserTags::WebDevelopment) {
                Option::Some(UserTags::WebDevelopment)
            } else if s@ == spec_tag_name(UserTags::MobileDevelopment) {
                Option::Some(UserTags::MobileDevelopment)
            } else if s@ == spec_tag_name(UserTags::MachineLearning) {
                Option::Some(UserTags::MachineLearning)
            } else if s@ == spec_tag_name(UserTags::DeepLearning) {
                Option::Some(UserTags::DeepLearning)
            } else if s@ == spec_tag_name(UserTags::FullStackDevelopment) {
                Option::Some(UserTags::FullStackDevelopment)
            } else if s@ == spec_tag_name(UserTags::CoreBlockchainDevelopment) {
                Option::Some(UserTags::CoreBlockchainDevelopment)
            } else {
                Option::<UserTags>::None
            }),
    {
        if str_eq(s, "WebDevelopment") {
            Option::Some(UserTags::WebDevelopment)
        } else if str_eq(s, "MobileDevelopment") {
            Option::Some(UserTags::MobileDevelopment)
        } else if str_eq(s, "MachineLearning") {
            Option::Some(UserTags::MachineLearning)
        } else if str_eq(s, "DeepLearning") {
            Option::Some(UserTags::DeepLearning)
        } else if str_eq(s, "FullStackDevelopment") {
            Option::Some(UserTags::FullStackDevelopment)
        } else if str_eq(s, "CoreBlockchainDevelopment") {
            Option::Some(UserTags::CoreBlockchainDevelopment)
        } else {
            Option::None
        }
    }

    /// The whole closed enumeration of tag names, in declaration order.
    pub fn variants() -> (r: Vec<&'static str>)
        ensures
            r@.len() == 6,
            r@[0]@ == spec_tag_name(UserTags::WebDevelopment),
            r@[1]@ == spec_tag_name(UserTags::MobileDevelopment),
            r@[2]@ == spec_tag_name(UserTags::MachineLearning),
            r@[3]@ == spec_tag_name(UserTags::DeepLearning),
            r@[4]@ == spec_tag_name(UserTags::FullStackDevelopment),
            r@[5]@ == spec_tag_name(UserTags::CoreBlockchainDevelopment),
    {
        let mut r: Vec<&'static str> = Vec::new();
        r.push("WebDevelopment");
        r.push("MobileDevelopment");
        r.push("MachineLearning");
        r.push("DeepLearning");
        r.push("FullStackDevelopment");
        r.push("CoreBlockchainDevelopment");
        r
    }
}

} // verus!
