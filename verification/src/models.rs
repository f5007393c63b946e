//! Domain users and the staged construction of a user row.
//!
//! [`InsertableUserBuilder`] gathers the fields of a registration as they
//! arrive and validates the required ones at [`InsertableUserBuilder::build`]
//! time, reporting every violated constraint at once rather than the
//! first.

use vstd::prelude::*;

use crate::erro::{em_add, ErrorEntries, ErrorMap};
use crate::ids::ResourceId;

verus! {

/// A moment in time, as seconds since the Unix epoch.
#[derive(Clone, Copy, PartialEq, Eq, Structural, Debug)]
pub struct Timestamp {
    pub unix_seconds: i64,
}

/// A persisted domain user, as the storage collaborator reports it back.
pub struct User {
    pub id: ResourceId,
    pub username: String,
    pub full_name: Option<String>,
    pub profile_pic_id: Option<ResourceId>,
    pub email_id: ResourceId,
    pub passwd_hash: String,
    pub active: bool,
    pub created_at: Timestamp,
    pub updated_at: Timestamp,
}

/// The abstract content of a user under construction: each field as it
/// is currently held.
pub ghost struct UserFields {
    pub username: Seq<char>,
    pub full_name: Option<Seq<char>>,
    pub profile_pic_id: Option<ResourceId>,
    pub email_id: Option<ResourceId>,
    pub passwd_hash: Seq<char>,
}

/// Whether every required field of a user under construction is present:
/// a non-empty username, a non-empty password, a registered email.
pub open spec fn required_present(f: UserFields) -> bool {
    f.username.len() > 0 && f.passwd_hash.len() > 0 && f.email_id is Some
}

/// The errors that `build` reports when a required field is absent: one
/// "Missing field" entry per violated constraint, in the fixed order
/// username, password, email.
pub open spec fn build_errors(f: UserFields) -> ErrorEntries {
    let e0 = ErrorEntries::empty();
    let e1 = if f.username.len() == 0 {
        em_add(e0, "username"@, "Missing field"@)
    } else {
        e0
    };
    let e2 = if f.passwd_hash.len() == 0 {
        em_add(e1, "password"@, "Missing field"@)
    } else {
        e1
    };
    if f.email_id is None {
        em_add(e2, "email"@, "Missing field"@)
    } else {
        e2
    }
}

/// A fully validated user, ready to be handed to the storage
/// collaborator. Every required field is present; there are no setters.
pub struct InsertableUser {
    username: String,
    full_name: Option<String>,
    profile_pic_id: Option<ResourceId>,
    email_id: ResourceId,
    passwd_hash: String,
}

impl View for InsertableUser {
    type V = UserFields;

    closed spec fn view(&self) -> UserFields {
        UserFields {
            username: self.username@,
            full_name: match self.full_name {
                Some(s) => Some(s@),
                None => None,
            },
            profile_pic_id: self.profile_pic_id,
            email_id: Some(self.email_id),
            passwd_hash: self.passwd_hash@,
        }
    }
}

impl InsertableUser {
    /// The username the user registered under.
    pub fn username(&self) -> (r: String)
        ensures
            r@ == self@.username,
    {
        self.username.clone()
    }

    /// The user's full name, when one was given.
    pub fn full_name(&self) -> (r: Option<String>)
        ensures
            match r {
                Some(s) => self@.full_name == Some(s@),
                None => self@.full_name is None,
            },
    {
        match &self.full_name {
            Some(s) => Some(s.clone()),
            None => None,
        }
    }

    /// The identifier of the stored profile picture, when one was given.
    pub fn profile_pic_id(&self) -> (r: Option<ResourceId>)
        ensures
            r == self@.profile_pic_id,
    {
        self.profile_pic_id
    }

    /// The identifier of the registered email.
    pub fn email_id(&self) -> (r: ResourceId)
        ensures
            self@.email_id == Some(r),
    {
        self.email_id
    }

    /// The stored password material.
    pub fn passwd_hash(&self) -> (r: String)
        ensures
            r@ == self@.passwd_hash,
    {
        self.passwd_hash.clone()
    }
}

/// The staged construction of an [`InsertableUser`]: fields arrive one
/// at a time, a later value for the same field wins, and nothing is
/// validated before [`InsertableUserBuilder::build`].
pub struct InsertableUserBuilder {
    username: String,
    full_name: Option<String>,
    profile_pic_id: Option<ResourceId>,
    email_id: Option<ResourceId>,
    passwd_hash: String,
}

impl View for InsertableUserBuilder {
    type V = UserFields;

    closed spec fn view(&self) -> UserFields {
        UserFields {
            username: self.username@,
            full_name: match self.full_name {
                Some(s) => Some(s@),
                None => None,
            },
            profile_pic_id: self.profile_pic_id,
            email_id: self.email_id,
            passwd_hash: self.passwd_hash@,
        }
    }
}

impl InsertableUserBuilder {
    /// A builder with every field empty or unset.
    pub fn new() -> (b: Self)
        ensures
            b@ == (UserFields {
                username: Seq::empty(),
                full_name: None,
                profile_pic_id: None,
                email_id: None,
                passwd_hash: Seq::empty(),
            }),
    {
        InsertableUserBuilder {
            username: String::new(),
            full_name: None,
            profile_pic_id: None,
            email_id: None,
            passwd_hash: String::new(),
        }
    }

    /// Store a username, replacing any earlier one.
    pub fn with_username(self, username: String) -> (b: Self)
        ensures
            b@ == (UserFields { username: username@, ..self@ }),
    {
        InsertableUserBuilder { username, ..self }
    }

    /// Store a full name, replacing any earlier one.
    pub fn with_full_name(self, full_name: String) -> (b: Self)
        ensures
            b@ == (UserFields { full_name: Some(full_name@), ..self@ }),
    {
        InsertableUserBuilder { full_name: Some(full_name), ..self }
    }

    /// Store password material, replacing any earlier value.
    pub fn with_password(self, passwd: String) -> (b: Self)
        ensures
            b@ == (UserFields { passwd_hash: passwd@, ..self@ }),
    {
        InsertableUserBuilder { passwd_hash: passwd, ..self }
    }

    /// Store the identifier of a registered email, replacing any earlier
    /// one.
    pub fn with_email_id(self, email_id: ResourceId) -> (b: Self)
        ensures
            b@ == (UserFields { email_id: Some(email_id), ..self@ }),
    {
        InsertableUserBuilder { email_id: Some(email_id), ..self }
    }

    /// Store the identifier of a stored profile picture, replacing any
    /// earlier one.
    pub fn with_profile_pic_id(self, profile_pic_id: ResourceId) -> (b: Self)
        ensures
            b@ == (UserFields { profile_pic_id: Some(profile_pic_id), ..self@ }),
    {
        InsertableUserBuilder { profile_pic_id: Some(profile_pic_id), ..self }
    }

    /// Validate the required fields. When all are present the collected
    /// values become an immutable [`InsertableUser`]; otherwise every
    /// violated constraint is reported at once, in the fixed order
    /// username, password, email.
    pub fn build(self) -> (r: Result<InsertableUser, ErrorMap>)
        ensures
            required_present(self@) ==> (r matches Ok(u) && u@ == self@),
            !required_present(self@) ==> (r matches Err(em) && em@ == build_errors(self@)),
    {
        let username_missing = self.username.as_str().is_empty();
        let password_missing = self.passwd_hash.as_str().is_empty();
        let email_missing = self.email_id.is_none();
        if !username_missing && !password_missing && !email_missing {
            let email_id = self.email_id.unwrap();
            Ok(
                InsertableUser {
                    username: self.username,
                    full_name: self.full_name,
                    profile_pic_id: self.profile_pic_id,
                    email_id,
                    passwd_hash: self.passwd_hash,
                },
            )
        } else {
            let mut errors = ErrorMap::new();
            if username_missing {
                errors.add_error("username".to_owned(), "Missing field".to_owned());
            }
            if password_missing {
                errors.add_error("password".to_owned(), "Missing field".to_owned());
            }
            if email_missing {
                errors.add_error("email".to_owned(), "Missing field".to_owned());
            }
            Err(errors)
        }
    }
}

impl Default for InsertableUserBuilder {
    /// A builder with every field empty or unset.
    fn default() -> (b: Self)
        ensures
            b@ == (UserFields {
                username: Seq::empty(),
                full_name: None,
                profile_pic_id: None,
                email_id: None,
                passwd_hash: Seq::empty(),
            }),
    {
        InsertableUserBuilder::new()
    }
}

} // verus!
