//! Request and response bodies of the authentication endpoints, with their
//! validation rules.
//!
//! Validation reports the first field that breaks a rule, in declaration
//! order, so that the client gets field-level detail. Password rules treat a
//! too-short password and a failed repeat-confirmation alike as a fault of
//! the password field.

use vstd::prelude::*;

use crate::error::{Error, Field};
use crate::validate::{
    check_email,
    check_password,
    check_username,
    valid_email,
    valid_password,
    valid_username,
};

verus! {

/// Longest accepted `about` text, in characters.
pub const ABOUT_MAX: usize = 512;

/// Largest accepted age.
pub const AGE_MAX: i32 = 128;

/// Body of a signup request.
pub struct SignupForm {
    pub username: String,
    pub email: String,
    pub password: String,
    pub repeat_password: String,
}

impl SignupForm {
    /// Every field passes its rule and the password is confirmed.
    pub open spec fn valid(&self) -> bool {
        &&& valid_username(self.username@)
        &&& valid_email(self.email@)
        &&& valid_password(self.password@)
        &&& self.password@ == self.repeat_password@
    }

    /// The first field that breaks a rule, in declaration order, if any.
    pub open spec fn first_fault(&self) -> Option<Field> {
        if !valid_username(self.username@) {
            Some(Field::Username)
        } else if !valid_email(self.email@) {
            Some(Field::Email)
        } else if !valid_password(self.password@) {
            Some(Field::Password)
        } else if self.password@ != self.repeat_password@ {
            Some(Field::Password)
        } else {
            None
        }
    }

    /// Check the form, reporting the first field at fault.
    pub fn validate(&self) -> (r: Result<(), Error>)
        ensures
            r matches Ok(()) <==> self.valid(),
            r matches Err(e) ==> Some(e) == match self.first_fault() {
                Some(f) => Some(Error::Validation(f)),
                None => None::<Error>,
            },
    {
        if !check_username(self.username.as_str()) {
            Err(Error::Validation(Field::Username))
        } else if !check_email(self.email.as_str()) {
            Err(Error::Validation(Field::Email))
        } else if !check_password(self.password.as_str()) {
            Err(Error::Validation(Field::Password))
        } else if !(self.password == self.repeat_password) {
            Err(Error::Validation(Field::Password))
        } else {
            Ok(())
        }
    }
}

/// Body of a login request: the username identifies the account.
pub struct LoginForm {
    pub username: String,
    pub password: String,
}

/// Response body of the auth endpoints: the issued token and its scheme.
pub struct AuthBody {
    pub access_token: String,
    pub token_type: String,
}

impl AuthBody {
    /// Wrap an issued token; the scheme is always `Bearer`.
    pub fn new(access_token: String) -> (r: AuthBody)
        ensures
            r.access_token == access_token,
            r.token_type@ == "Bearer"@,
    {
        AuthBody { access_token, token_type: "Bearer".to_owned() }
    }
}

/// Body of a profile edit: replaces exactly these profile fields.
pub struct EditUserForm {
    pub username: String,
    pub first_name: Option<String>,
    pub last_name: Option<String>,
    pub age: Option<i32>,
    pub about: Option<String>,
}

impl EditUserForm {
    /// The username rule, the age range and the about length all hold.
    pub open spec fn valid(&self) -> bool {
        &&& valid_username(self.username@)
        &&& (self.age matches Some(a) ==> 0 <= a <= AGE_MAX)
        &&& (self.about matches Some(t) ==> t@.len() <= ABOUT_MAX)
    }

    /// The first field that breaks a rule, in declaration order, if any.
    pub open spec fn first_fault(&self) -> Option<Field> {
        if !valid_username(self.username@) {
            Some(Field::Username)
        } else if !(self.age matches Some(a) ==> 0 <= a <= AGE_MAX) {
            Some(Field::Age)
        } else if !(self.about matches Some(t) ==> t@.len() <= ABOUT_MAX) {
            Some(Field::About)
        } else {
            None
        }
    }

    /// Check the form, reporting the first field at fault.
    pub fn validate(&self) -> (r: Result<(), Error>)
        ensures
            r matches Ok(()) <==> self.valid(),
            r matches Err(e) ==> Some(e) == match self.first_fault() {
                Some(f) => Some(Error::Validation(f)),
                None => None::<Error>,
            },
    {
        if !check_username(self.username.as_str()) {
            return Err(Error::Validation(Field::Username));
        }
        if let Some(a) = &self.age {
            if !(0 <= *a && *a <= AGE_MAX) {
                return Err(Error::Validation(Field::Age));
            }
        }
        if let Some(t) = &self.about {
            if t.as_str().unicode_len() > ABOUT_MAX {
                return Err(Error::Validation(Field::About));
            }
        }
        Ok(())
    }
}

/// Body of an email edit.
pub struct EditUserEmailForm {
    pub email: String,
}

impl EditUserEmailForm {
    /// The email rule holds.
    pub open spec fn valid(&self) -> bool {
        valid_email(self.email@)
    }

    /// Check the form.
    pub fn validate(&self) -> (r: Result<(), Error>)
        ensures
            r matches Ok(()) <==> self.valid(),
            r matches Err(e) ==> e == Error::Validation(Field::Email),
    {
        if check_email(self.email.as_str()) {
            Ok(())
        } else {
            Err(Error::Validation(Field::Email))
        }
    }
}

/// Body of a password change.
pub struct EditUserPasswordForm {
    pub password: String,
    pub repeat_password: String,
}

impl EditUserPasswordForm {
    /// The password rule holds and the password is confirmed.
    pub open spec fn valid(&self) -> bool {
        valid_password(self.password@) && self.password@ == self.repeat_password@
    }

    /// Check the form.
    pub fn validate(&self) -> (r: Result<(), Error>)
        ensures
            r matches Ok(()) <==> self.valid(),
            r matches Err(e) ==> e == Error::Validation(Field::Password),
    {
        if !check_password(self.password.as_str()) {
            Err(Error::Validation(Field::Password))
        } else if !(self.password == self.repeat_password) {
            Err(Error::Validation(Field::Password))
        } else {
            Ok(())
        }
    }
}

} // verus!
