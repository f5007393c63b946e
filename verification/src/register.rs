//! The decision logic of the registration endpoint.
//!
//! The transport layer streams the parts of a multipart form and runs
//! the loop; every decision — which field a part feeds, when a
//! collaborator must be asked to register an email or store an image,
//! which failures abort the request and which merely accumulate — is
//! taken here. After the stream ends, [`Registration::finish`] validates
//! the gathered fields and yields either the user to persist or the full
//! set of validation errors.

use vstd::prelude::*;
use vstd::utf8::{decode_utf8, valid_utf8};

use crate::erro::{em_add, em_merge, AppError, ErrorEntries, ErrorMap};
use crate::ids::ResourceId;
use crate::models::{build_errors, required_present, InsertableUser, InsertableUserBuilder, UserFields};

verus! {

/// One part of a multipart registration form, as the transport layer
/// hands it over: the part's name when it carried one, its declared
/// content type when one was given, and its raw bytes.
pub struct RawPart {
    pub name: Option<String>,
    pub content_type: Option<String>,
    pub bytes: Vec<u8>,
}

/// What the caller must do after a form part was taken in: nothing, or
/// ask a collaborator for an identifier and hand it back to the
/// registration.
pub enum PartAction {
    /// The part was consumed; nothing to do.
    Handled,
    /// Ask the email collaborator to register this address, then hand
    /// the identifier to [`Registration::apply_email_id`].
    CreateEmail(String),
    /// Ask the image collaborator to store these bytes under this
    /// declared content type, then hand the identifier to
    /// [`Registration::apply_profile_pic_id`].
    CreateImage { mime: String, bytes: Vec<u8> },
}

/// The outcome [`Registration::process_part`] owes for one part.
pub ghost enum PartOutcome {
    /// The part was stored or recorded; processing continues.
    Stored,
    /// The email with this address must be registered.
    EmailRequested(Seq<char>),
    /// An image with this declared content type and these bytes must be
    /// stored.
    ImageRequested(Seq<char>, Seq<u8>),
    /// The request aborts with an internal failure of this wording.
    Failed(Seq<char>),
}

/// The abstract state of a registration in progress: the gathered user
/// fields and the errors recorded for unrecognized form fields.
pub ghost struct RegistrationView {
    pub user: UserFields,
    pub extra_errors: ErrorEntries,
}

/// What one form part does to the registration state, and what it asks
/// of the caller. A text field feeds the builder when its bytes decode;
/// the email and profile-picture fields request a collaborator; an
/// unrecognized name is recorded as an "Invalid field" error and the
/// stream goes on; a nameless part is skipped.
pub open spec fn part_step(pre: RegistrationView, part: RawPart) -> (RegistrationView, PartOutcome) {
    match part.name {
        None => (pre, PartOutcome::Stored),
        Some(name) => {
            let n = name@;
            if n == "username"@ {
                if valid_utf8(part.bytes@) {
                    (
                        RegistrationView {
                            user: UserFields { username: decode_utf8(part.bytes@), ..pre.user },
                            ..pre
                        },
                        PartOutcome::Stored,
                    )
                } else {
                    (pre, PartOutcome::Failed("failed to parse form username"@))
                }
            } else if n == "password"@ {
                if valid_utf8(part.bytes@) {
                    (
                        RegistrationView {
                            user: UserFields { passwd_hash: decode_utf8(part.bytes@), ..pre.user },
                            ..pre
                        },
                        PartOutcome::Stored,
                    )
                } else {
                    (pre, PartOutcome::Failed("failed to parse form password"@))
                }
            } else if n == "full_name"@ {
                if valid_utf8(part.bytes@) {
                    (
                        RegistrationView {
                            user: UserFields {
                                full_name: Some(decode_utf8(part.bytes@)),
                                ..pre.user
                            },
                            ..pre
                        },
                        PartOutcome::Stored,
                    )
                } else {
                    (pre, PartOutcome::Failed("failed to parse form full name"@))
                }
            } else if n == "email"@ {
                if valid_utf8(part.bytes@) {
                    (pre, PartOutcome::EmailRequested(decode_utf8(part.bytes@)))
                } else {
                    (pre, PartOutcome::Failed("failed to parse form email"@))
                }
            } else if n == "profile_pic"@ {
                match part.content_type {
                    Some(m) => (pre, PartOutcome::ImageRequested(m@, part.bytes@)),
                    None => (pre, PartOutcome::Failed("failed to fetch image content type"@)),
                }
            } else {
                (
                    RegistrationView {
                        extra_errors: em_add(pre.extra_errors, n, "Invalid field"@),
                        ..pre
                    },
                    PartOutcome::Stored,
                )
            }
        },
    }
}

/// Relies on String::from_utf8: it succeeds exactly on the valid UTF-8
/// byte sequences and returns their decoded characters.
#[verifier::external_body]
fn decode_text(bytes: Vec<u8>) -> (r: Option<String>)
    ensures
        r is Some <==> valid_utf8(bytes@),
        r matches Some(s) ==> s@ == decode_utf8(bytes@),
{
    String::from_utf8(bytes).ok()
}

/// The state of one registration in progress.
pub struct Registration {
    builder: InsertableUserBuilder,
    extra_errors: ErrorMap,
}

impl View for Registration {
    type V = RegistrationView;

    closed spec fn view(&self) -> RegistrationView {
        RegistrationView { user: self.builder@, extra_errors: self.extra_errors@ }
    }
}

impl Registration {
    /// A registration with no field seen yet.
    pub fn new() -> (r: Registration)
        ensures
            r@.user == (UserFields {
                username: Seq::empty(),
                full_name: None,
                profile_pic_id: None,
                email_id: None,
                passwd_hash: Seq::empty(),
            }),
            r@.extra_errors == ErrorEntries::empty(),
    {
        Registration { builder: InsertableUserBuilder::new(), extra_errors: ErrorMap::new() }
    }

    /// Take one form part in: feed the builder, record an error for an
    /// unrecognized name, or return what to ask a collaborator. An
    /// undecodable text field and a picture without a content type abort
    /// the request with an internal failure, as [`part_step`] lays down.
    pub fn process_part(&mut self, part: RawPart) -> (r: Result<PartAction, AppError>)
        ensures
            final(self)@ == part_step(old(self)@, part).0,
            ({
                let outcome = part_step(old(self)@, part).1;
                match r {
                    Ok(a) => match a {
                        PartAction::Handled => outcome is Stored,
                        PartAction::CreateEmail(addr) => outcome == PartOutcome::EmailRequested(
                            addr@,
                        ),
                        PartAction::CreateImage { mime, bytes } => outcome
                            == PartOutcome::ImageRequested(mime@, bytes@),
                    },
                    Err(e) => e matches AppError::Eyre(m) && outcome == PartOutcome::Failed(m@),
                }
            }),
    {
        let RawPart { name, content_type, bytes } = part;
        let name = match name {
            None => {
                return Ok(PartAction::Handled);
            },
            Some(name) => name,
        };
        if name == "username".to_owned() {
            match decode_text(bytes) {
                Some(text) => {
                    let mut b = InsertableUserBuilder::new();
                    std::mem::swap(&mut b, &mut self.builder);
                    self.builder = b.with_username(text);
                    Ok(PartAction::Handled)
                },
                None => Err(AppError::Eyre("failed to parse form username".to_owned())),
            }
        } else if name == "password".to_owned() {
            match decode_text(bytes) {
                Some(text) => {
                    let mut b = InsertableUserBuilder::new();
                    std::mem::swap(&mut b, &mut self.builder);
                    self.builder = b.with_password(text);
                    Ok(PartAction::Handled)
                },
                None => Err(AppError::Eyre("failed to parse form password".to_owned())),
            }
        } else if name == "full_name".to_owned() {
            match decode_text(bytes) {
                Some(text) => {
                    let mut b = InsertableUserBuilder::new();
                    std::mem::swap(&mut b, &mut self.builder);
                    self.builder = b.with_full_name(text);
                    Ok(PartAction::Handled)
                },
                None => Err(AppError::Eyre("failed to parse form full name".to_owned())),
            }
        } else if name == "email".to_owned() {
            match decode_text(bytes) {
                Some(text) => Ok(PartAction::CreateEmail(text)),
                None => Err(AppError::Eyre("failed to parse form email".to_owned())),
            }
        } else if name == "profile_pic".to_owned() {
            match content_type {
                Some(mime) => Ok(PartAction::CreateImage { mime, bytes }),
                None => Err(AppError::Eyre("failed to fetch image content type".to_owned())),
            }
        } else {
            self.extra_errors.add_error(name, "Invalid field".to_owned());
            Ok(PartAction::Handled)
        }
    }

    /// Hand back the identifier the email collaborator returned for the
    /// address of an `email` part.
    pub fn apply_email_id(&mut self, id: ResourceId)
        ensures
            final(self)@ == (RegistrationView {
                user: UserFields { email_id: Some(id), ..old(self)@.user },
                ..old(self)@
            }),
    {
        let mut b = InsertableUserBuilder::new();
        std::mem::swap(&mut b, &mut self.builder);
        self.builder = b.with_email_id(id);
    }

    /// Hand back the identifier the image collaborator returned for the
    /// bytes of a `profile_pic` part.
    pub fn apply_profile_pic_id(&mut self, id: ResourceId)
        ensures
            final(self)@ == (RegistrationView {
                user: UserFields { profile_pic_id: Some(id), ..old(self)@.user },
                ..old(self)@
            }),
    {
        let mut b = InsertableUserBuilder::new();
        std::mem::swap(&mut b, &mut self.builder);
        self.builder = b.with_profile_pic_id(id);
    }

    /// End of the field stream: validate the gathered fields. When the
    /// required ones are present the result is the user to persist;
    /// otherwise the request fails with every violated constraint, the
    /// unrecognized-field errors standing before the builder's.
    pub fn finish(self) -> (r: Result<InsertableUser, AppError>)
        ensures
            required_present(self@.user) ==> (r matches Ok(u) && u@ == self@.user),
            !required_present(self@.user) ==> (r matches Err(e) && (e matches
                AppError::UnprocessableEntity(em) && em@ == em_merge(
                self@.extra_errors,
                build_errors(self@.user),
            ))),
    {
        match self.builder.build() {
            Ok(u) => Ok(u),
            Err(em) => {
                let mut merged = self.extra_errors;
                merged.merge(em);
                Err(AppError::UnprocessableEntity(merged))
            },
        }
    }
}

} // verus!
