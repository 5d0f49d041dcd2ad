//! Error types of the service layer and of the persistence layer.
use vstd::prelude::*;
use crate::text::{char_vec, owned, push_char, push_str};

verus! {

/// Failure of a request, by the kind of answer it gets.
#[derive(Debug)]
pub enum AppError {
    BadRequest(String),
    NotFound(String),
    Unauthorized(String),
    PermissionDenied(String),
    Conflict(String),
    Internal(String),
}

/// Failure of a persistence operation.
#[derive(Debug)]
pub enum RepositoryError {
    NotFound,
    Conflict(String),
    Database(String),
    Internal(String),
}

/// What the persistence layer reports when a statement fails, as plain values.
#[derive(Debug)]
pub enum DbFailure {
    /// No row matched.
    NotFound,
    /// A unique constraint was violated; the name of the constraint when the database gave one.
    UniqueViolation { constraint_name: Option<String> },
    /// Any other error that the database reported, with its message.
    OtherDatabase { message: String },
    /// A failure outside the database itself, with its description.
    Other { description: String },
}

/// The text that follows the first `_` of `s`, when `s` holds one.
pub open spec fn after_first_underscore(s: Seq<char>) -> Option<Seq<char>>
    decreases s.len(),
{
    if s.len() == 0 {
        None
    } else if s[0] == '_' {
        Some(s.drop_first())
    } else {
        after_first_underscore(s.drop_first())
    }
}

/// The longest prefix of `s` that holds no `_`.
pub open spec fn before_underscore(s: Seq<char>) -> Seq<char>
    decreases s.len(),
{
    if s.len() == 0 || s[0] == '_' {
        Seq::empty()
    } else {
        seq![s[0]] + before_underscore(s.drop_first())
    }
}

/// The second `_`-separated part of a constraint name, when there is one
/// (`users_email_key` names the field `email`).
pub open spec fn constraint_field(name: Seq<char>) -> Option<Seq<char>> {
    match after_first_underscore(name) {
        Some(rest) => Some(before_underscore(rest)),
        None => None,
    }
}

/// The field a unique violation is reported on: taken from the constraint name, or `field`.
pub open spec fn conflict_field(constraint_name: Option<Seq<char>>) -> Seq<char> {
    match constraint_name {
        Some(name) => match constraint_field(name) {
            Some(f) => f,
            None => "field"@,
        },
        None => "field"@,
    }
}

/// An application error by its kind and message text.
pub enum AppErrorView {
    BadRequest(Seq<char>),
    NotFound(Seq<char>),
    Unauthorized(Seq<char>),
    PermissionDenied(Seq<char>),
    Conflict(Seq<char>),
    Internal(Seq<char>),
}

impl View for AppError {
    type V = AppErrorView;

    open spec fn view(&self) -> AppErrorView {
        match self {
            AppError::BadRequest(m) => AppErrorView::BadRequest(m@),
            AppError::NotFound(m) => AppErrorView::NotFound(m@),
            AppError::Unauthorized(m) => AppErrorView::Unauthorized(m@),
            AppError::PermissionDenied(m) => AppErrorView::PermissionDenied(m@),
            AppError::Conflict(m) => AppErrorView::Conflict(m@),
            AppError::Internal(m) => AppErrorView::Internal(m@),
        }
    }
}

/// A repository error by its kind and message text.
pub enum RepositoryErrorView {
    NotFound,
    Conflict(Seq<char>),
    Database(Seq<char>),
    Internal(Seq<char>),
}

impl View for RepositoryError {
    type V = RepositoryErrorView;

    open spec fn view(&self) -> RepositoryErrorView {
        match self {
            RepositoryError::NotFound => RepositoryErrorView::NotFound,
            RepositoryError::Conflict(m) => RepositoryErrorView::Conflict(m@),
            RepositoryError::Database(m) => RepositoryErrorView::Database(m@),
            RepositoryError::Internal(m) => RepositoryErrorView::Internal(m@),
        }
    }
}

/// The view of an optional string.
pub open spec fn opt_view(o: Option<String>) -> Option<Seq<char>> {
    match o {
        Some(s) => Some(s@),
        None => None,
    }
}

/// The repository error a database failure becomes.
pub open spec fn repository_error_of(f: DbFailure) -> RepositoryErrorView {
    match f {
        DbFailure::NotFound => RepositoryErrorView::NotFound,
        DbFailure::UniqueViolation { constraint_name } => RepositoryErrorView::Conflict(
            conflict_field(opt_view(constraint_name)) + " already in use"@,
        ),
        DbFailure::OtherDatabase { message } => RepositoryErrorView::Database(message@),
        DbFailure::Other { description } => RepositoryErrorView::Internal(description@),
    }
}

/// The text a repository error displays.
pub open spec fn repository_error_text(e: RepositoryErrorView) -> Seq<char> {
    match e {
        RepositoryErrorView::NotFound => "Resource not found"@,
        RepositoryErrorView::Conflict(m) => "Conflict: "@ + m,
        RepositoryErrorView::Database(m) => "Database error: "@ + m,
        RepositoryErrorView::Internal(m) => "Internal error: "@ + m,
    }
}

/// The application error a repository error becomes.
pub open spec fn app_error_of(e: RepositoryErrorView) -> AppErrorView {
    match e {
        RepositoryErrorView::NotFound => AppErrorView::NotFound(repository_error_text(e)),
        RepositoryErrorView::Conflict(m) => AppErrorView::Conflict(repository_error_text(e)),
        _ => AppErrorView::Internal(repository_error_text(e)),
    }
}

/// The field named by a constraint: the text between its first and second `_`.
fn constraint_field_of(name: &String) -> (r: Option<String>)
    ensures
        opt_view(r) == constraint_field(name@),
{
    let cs = char_vec(name.as_str());
    let n = cs.len();
    let mut i: usize = 0;
    assert(cs@.skip(0) == cs@);
    while i < n
        invariant
            cs@ == name@,
            n == cs@.len(),
            i <= n,
            after_first_underscore(name@) == after_first_underscore(cs@.skip(i as int)),
        ensures
            i < n ==> cs@[i as int] == '_',
            i <= n,
            after_first_underscore(name@) == after_first_underscore(cs@.skip(i as int)),
        decreases n - i,
    {
        if cs[i] == '_' {
            break;
        }
        assert(cs@.skip(i as int).drop_first() == cs@.skip(i + 1));
        i = i + 1;
    }
    if i == n {
        assert(cs@.skip(i as int).len() == 0);
        return None;
    }
    assert(cs@.skip(i as int)[0] == '_');
    let ghost rest = cs@.skip(i + 1);
    assert(cs@.skip(i as int).drop_first() == rest);
    let mut field = String::new();
    let mut j: usize = i + 1;
    while j < n
        invariant
            cs@ == name@,
            n == cs@.len(),
            i + 1 <= j <= n,
            rest == cs@.skip(i + 1),
            before_underscore(rest) == field@ + before_underscore(cs@.skip(j as int)),
        ensures
            j < n ==> cs@[j as int] == '_',
            j <= n,
            before_underscore(rest) == field@ + before_underscore(cs@.skip(j as int)),
        decreases n - j,
    {
        if cs[j] == '_' {
            break;
        }
        let ghost tail = cs@.skip(j as int);
        assert(tail.drop_first() == cs@.skip(j + 1));
        assert(before_underscore(tail) == seq![cs@[j as int]] + before_underscore(cs@.skip(j + 1)));
        push_char(&mut field, cs[j]);
        j = j + 1;
    }
    assert(before_underscore(cs@.skip(j as int)) == Seq::<char>::empty());
    assert(field@ + Seq::<char>::empty() == field@);
    Some(field)
}

impl RepositoryError {
    /// The repository error a database failure is reported as.
    pub fn from(err: DbFailure) -> (r: RepositoryError)
        ensures
            r@ == repository_error_of(err),
    {
        match err {
            DbFailure::NotFound => RepositoryError::NotFound,
            DbFailure::UniqueViolation { constraint_name } => {
                let field = match &constraint_name {
                    Some(name) => match constraint_field_of(name) {
                        Some(f) => f,
                        None => owned("field"),
                    },
                    None => owned("field"),
                };
                let mut msg = field;
                push_str(&mut msg, " already in use");
                RepositoryError::Conflict(msg)
            },
            DbFailure::OtherDatabase { message } => RepositoryError::Database(message),
            DbFailure::Other { description } => RepositoryError::Internal(description),
        }
    }

    /// The text this error displays.
    pub fn message(&self) -> (r: String)
        ensures
            r@ == repository_error_text(self@),
    {
        match self {
            RepositoryError::NotFound => owned("Resource not found"),
            RepositoryError::Conflict(m) => {
                let mut s = owned("Conflict: ");
                push_str(&mut s, m.as_str());
                s
            },
            RepositoryError::Database(m) => {
                let mut s = owned("Database error: ");
                push_str(&mut s, m.as_str());
                s
            },
            RepositoryError::Internal(m) => {
                let mut s = owned("Internal error: ");
                push_str(&mut s, m.as_str());
                s
            },
        }
    }
}

impl AppError {
    /// The application error a repository failure surfaces as.
    pub fn from_repository(err: RepositoryError) -> (r: AppError)
        ensures
            r@ == app_error_of(err@),
    {
        let text = err.message();
        match err {
            RepositoryError::NotFound => AppError::NotFound(text),
            RepositoryError::Conflict(_) => AppError::Conflict(text),
            _ => AppError::Internal(text),
        }
    }
}

/// The result of a repository call as a service passes it on: a failure becomes the
/// application error it surfaces as.
pub fn service_result<T>(r: Result<T, RepositoryError>) -> (out: Result<T, AppError>)
    ensures
        match r {
            Ok(v) => out matches Ok(w) && w == v,
            Err(e) => out matches Err(f) && f@ == app_error_of(e@),
        },
{
    match r {
        Ok(v) => Ok(v),
        Err(e) => Err(AppError::from_repository(e)),
    }
}

} // verus!
