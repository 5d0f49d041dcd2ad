//! Bodies and parameters of registration, login and token refresh.
use vstd::prelude::*;
use crate::account::TokenContext;
use crate::dto::checks::{add_field, char_count, email_accepted, is_valid_email, length_error};
use crate::requests::FieldErrors;
use crate::text::owned;
use crate::validation::{validate_strong_password, weak_password_message, FieldError, FieldErrorView};

verus! {

/// A registration: an e-mail address and a password.
#[derive(Debug)]
pub struct RegisterRequest {
    pub email: String,
    pub password: String,
}

/// A login with e-mail address and password.
#[derive(Debug)]
pub struct LoginRequest {
    pub email: String,
    pub password: String,
}

/// The tokens a login or refresh hands out.
#[derive(Debug)]
pub struct LoginResponse {
    pub access_token: String,
    pub refresh_token: String,
}

/// A refresh of the web tokens.
#[derive(Debug)]
pub struct RefreshRequest {
    pub refresh_token: String,
}

/// What registering takes.
#[derive(Debug)]
pub struct RegisterParams {
    pub email: String,
    pub password: String,
}

/// What logging in takes.
#[derive(Debug)]
pub struct LoginParams {
    pub email: String,
    pub password: String,
    pub context: TokenContext,
}

/// What refreshing tokens takes.
#[derive(Debug)]
pub struct RefreshTokenParams {
    pub refresh_token: String,
    pub context: TokenContext,
}

/// The tokens issued on login or refresh.
#[derive(Debug)]
pub struct LoginResult {
    pub access_token: String,
    pub refresh_token: String,
}

fn email_errors(email: &str) -> (r: Vec<FieldError>)
    ensures
        email_accepted(email@) ==> r@.len() == 0,
        !email_accepted(email@) ==> r@.len() == 1 && r@[0]@.code == "email"@ && r@[0]@.message
            == Some("must be a valid email address"@),
{
    let mut errors: Vec<FieldError> = Vec::new();
    if !is_valid_email(email) {
        let mut e = FieldError::new("email");
        e.message = Some(owned("must be a valid email address"));
        errors.push(e);
    }
    errors
}

/// The failures a password check reports: too short (under 8 characters), then the first
/// strength rule it breaks.
pub open spec fn password_failures(p: Seq<char>) -> Seq<FieldErrorView> {
    (if p.len() < 8 {
        seq![FieldErrorView { code: "length"@, message: Some("must be at least 8 characters"@) }]
    } else {
        Seq::empty()
    }) + match weak_password_message(p) {
        Some(m) => seq![FieldErrorView { code: "strong_password"@, message: Some(m) }],
        None => Seq::empty(),
    }
}

/// The failure of the e-mail check.
pub open spec fn email_failure() -> FieldErrorView {
    FieldErrorView { code: "email"@, message: Some("must be a valid email address"@) }
}

/// The views of the failures reported for one field.
pub open spec fn failure_views(f: FieldErrors) -> Seq<FieldErrorView> {
    f.errors@.map_values(|e: FieldError| e@)
}

impl RegisterRequest {
    /// Checks the body: the e-mail must be an e-mail address; the password must be at
    /// least 8 characters long and strong (see `validate_strong_password`). Both password
    /// checks report their failures.
    pub fn validate(&self) -> (r: Result<(), Vec<FieldErrors>>)
        ensures
            r is Ok <==> email_accepted(self.email@) && password_failures(self.password@).len()
                == 0,
            r matches Err(v) ==> {
                let n_email: int = if email_accepted(self.email@) {
                    0
                } else {
                    1
                };
                &&& v@.len() == n_email + if password_failures(self.password@).len() == 0 {
                    0int
                } else {
                    1int
                }
                &&& !email_accepted(self.email@) ==> v@[0].field@ == "email"@ && failure_views(
                    v@[0],
                ) == seq![email_failure()]
                &&& password_failures(self.password@).len() > 0 ==> v@.last().field@
                    == "password"@ && failure_views(v@.last()) == password_failures(
                    self.password@,
                )
            },
    {
        let mut out: Vec<FieldErrors> = Vec::new();
        add_field(&mut out, "email", email_errors(self.email.as_str()));
        let mut password_errors: Vec<FieldError> = Vec::new();
        if char_count(self.password.as_str()) < 8 {
            password_errors.push(length_error(Some("must be at least 8 characters")));
        }
        if let Err(e) = validate_strong_password(self.password.as_str()) {
            password_errors.push(e);
        }
        let ghost n_before = out@.len();
        add_field(&mut out, "password", password_errors);
        if out.len() == 0 {
            Ok(())
        } else {
            Err(out)
        }
    }
}

impl LoginRequest {
    /// Checks the body: the e-mail must be an e-mail address.
    pub fn validate(&self) -> (r: Result<(), Vec<FieldErrors>>)
        ensures
            r is Ok <==> email_accepted(self.email@),
            r matches Err(v) ==> v@.len() == 1 && v@[0].field@ == "email"@ && failure_views(v@[0])
                == seq![email_failure()],
    {
        let mut out: Vec<FieldErrors> = Vec::new();
        add_field(&mut out, "email", email_errors(self.email.as_str()));
        if out.len() == 0 {
            Ok(())
        } else {
            Err(out)
        }
    }
}

} // verus!
