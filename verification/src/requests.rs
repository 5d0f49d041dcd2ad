//! Request plumbing that decides something: the text of validation failures and the
//! access token carried by a call.
use vstd::prelude::*;
use crate::text::{char_vec, owned, push_char, push_str};
use crate::validation::FieldError;

verus! {

/// The failed checks of one request field.
#[derive(Debug)]
pub struct FieldErrors {
    pub field: String,
    pub errors: Vec<FieldError>,
}

/// The pieces of `parts` joined with `sep` between neighbours.
pub open spec fn join(parts: Seq<Seq<char>>, sep: Seq<char>) -> Seq<char>
    decreases parts.len(),
{
    if parts.len() == 0 {
        Seq::empty()
    } else if parts.len() == 1 {
        parts[0]
    } else {
        join(parts.drop_last(), sep) + sep + parts.last()
    }
}

/// The text of one failed check: its message, or its code when it has none.
pub open spec fn error_text(e: FieldError) -> Seq<char> {
    match e.message {
        Some(m) => m@,
        None => e.code@,
    }
}

/// The text of one field's failures: `field: first, second, ...`.
pub open spec fn field_text(f: FieldErrors) -> Seq<char> {
    f.field@ + ": "@ + join(f.errors@.map_values(|e: FieldError| error_text(e)), ", "@)
}

fn error_line(f: &FieldErrors) -> (r: String)
    ensures
        r@ == field_text(*f),
{
    let mut out = f.field.clone();
    push_str(&mut out, ": ");
    let ghost head = out@;
    let ghost texts = f.errors@.map_values(|e: FieldError| error_text(e));
    let n = f.errors.len();
    for i in 0..n
        invariant
            n == f.errors@.len(),
            texts == f.errors@.map_values(|e: FieldError| error_text(e)),
            out@ == head + join(texts.take(i as int), ", "@),
    {
        assert(texts.take(i + 1).drop_last() == texts.take(i as int));
        if i > 0 {
            push_str(&mut out, ", ");
        }
        let e = &f.errors[i];
        match &e.message {
            Some(m) => push_str(&mut out, m.as_str()),
            None => push_str(&mut out, e.code.as_str()),
        }
        assert(texts.take(i + 1).last() == error_text(f.errors@[i as int]));
        if i == 0 {
            assert(join(texts.take(1), ", "@) == texts.take(1)[0]);
        }
    }
    assert(texts.take(n as int) == texts);
    out
}

/// The text of a failed validation: one `field: messages` part per field, joined with `; `.
pub fn format_validation_errors(errors: &Vec<FieldErrors>) -> (r: String)
    ensures
        r@ == join(errors@.map_values(|f: FieldErrors| field_text(f)), "; "@),
{
    let mut out = String::new();
    let ghost texts = errors@.map_values(|f: FieldErrors| field_text(f));
    let n = errors.len();
    for i in 0..n
        invariant
            n == errors@.len(),
            texts == errors@.map_values(|f: FieldErrors| field_text(f)),
            out@ == join(texts.take(i as int), "; "@),
    {
        assert(texts.take(i + 1).drop_last() == texts.take(i as int));
        if i > 0 {
            push_str(&mut out, "; ");
        }
        let line = error_line(&errors[i]);
        push_str(&mut out, line.as_str());
        assert(texts.take(i + 1).last() == field_text(errors@[i as int]));
        if i == 0 {
            assert(join(texts.take(1), "; "@) == texts.take(1)[0]);
            assert(out@ == Seq::<char>::empty() + line@);
        }
    }
    assert(texts.take(n as int) == texts);
    out
}

/// `s` with every leading `Bearer ` removed, as many times as it repeats.
pub open spec fn strip_bearer(s: Seq<char>) -> Seq<char>
    decreases s.len(),
{
    if s.len() >= 7 && s.take(7) == "Bearer "@ {
        strip_bearer(s.skip(7))
    } else {
        s
    }
}

/// Why a call carries no usable access token.
#[derive(Debug, Clone, Copy, PartialEq, Eq, Structural)]
pub enum AccessTokenError {
    /// There is no `authorization` entry.
    Missing,
    /// The entry is not visible ASCII text.
    Invalid,
}

impl AccessTokenError {
    /// The message the caller is answered with.
    pub fn message(&self) -> (r: &'static str)
        ensures
            *self == AccessTokenError::Missing ==> r@ == "Missing Access Token"@,
            *self == AccessTokenError::Invalid ==> r@ == "Invalid Access Token"@,
    {
        match self {
            AccessTokenError::Missing => "Missing Access Token",
            AccessTokenError::Invalid => "Invalid Access Token",
        }
    }
}

/// The access token of a call, given its `authorization` entry: absent (`None`), not
/// text (`Some(None)`), or its text. The token is the text without its `Bearer ` prefixes.
pub fn extract_access_token_from_metadata(authorization: Option<Option<&str>>) -> (r: Result<
    String,
    AccessTokenError,
>)
    ensures
        match authorization {
            None => r == Err::<String, AccessTokenError>(AccessTokenError::Missing),
            Some(None) => r == Err::<String, AccessTokenError>(AccessTokenError::Invalid),
            Some(Some(t)) => r matches Ok(token) && token@ == strip_bearer(t@),
        },
{
    let text = match authorization {
        None => {
            return Err(AccessTokenError::Missing);
        },
        Some(None) => {
            return Err(AccessTokenError::Invalid);
        },
        Some(Some(t)) => t,
    };
    let cs = char_vec(text);
    let n = cs.len();
    let mut start: usize = 0;
    proof {
        reveal_strlit("Bearer ");
        assert(cs@.skip(0) == cs@);
    }
    while n - start >= 7 && cs[start] == 'B' && cs[start + 1] == 'e' && cs[start + 2] == 'a'
        && cs[start + 3] == 'r' && cs[start + 4] == 'e' && cs[start + 5] == 'r' && cs[start + 6]
        == ' '
        invariant
            n == cs@.len(),
            cs@ == text@,
            start <= n,
            strip_bearer(text@) == strip_bearer(cs@.skip(start as int)),
        decreases n - start,
    {
        let ghost rest = cs@.skip(start as int);
        proof {
            reveal_strlit("Bearer ");
        }
        assert(rest.take(7) =~= "Bearer "@);
        assert(rest.skip(7) == cs@.skip(start + 7));
        start = start + 7;
    }
    let ghost rest = cs@.skip(start as int);
    proof {
        reveal_strlit("Bearer ");
    }
    assert(!(rest.len() >= 7 && rest.take(7) == "Bearer "@)) by {
        if rest.len() >= 7 && rest.take(7) == "Bearer "@ {
            assert(rest.take(7)[0] == 'B' && rest.take(7)[1] == 'e' && rest.take(7)[2] == 'a');
            assert(rest.take(7)[3] == 'r' && rest.take(7)[4] == 'e' && rest.take(7)[5] == 'r');
            assert(rest.take(7)[6] == ' ');
        }
    }
    let mut token = String::new();
    for j in start..n
        invariant
            n == cs@.len(),
            start <= n,
            token@ == cs@.subrange(start as int, j as int),
    {
        push_char(&mut token, cs[j]);
        assert(cs@.subrange(start as int, j + 1) == cs@.subrange(start as int, j as int).push(
            cs@[j as int],
        ));
    }
    assert(cs@.subrange(start as int, n as int) == rest);
    Ok(token)
}

} // verus!
