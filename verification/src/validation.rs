//! Field validators of request bodies.
use vstd::prelude::*;
use crate::parsers::{uuid_parse, uuid_to_string};
use crate::text::{owned, str_equal};

verus! {

/// A failed field check: a machine-readable code and, for some checks, a message.
#[derive(Debug)]
pub struct FieldError {
    pub code: String,
    pub message: Option<String>,
}

/// A field error by its text.
pub struct FieldErrorView {
    pub code: Seq<char>,
    pub message: Option<Seq<char>>,
}

impl View for FieldError {
    type V = FieldErrorView;

    open spec fn view(&self) -> FieldErrorView {
        FieldErrorView {
            code: self.code@,
            message: match self.message {
                Some(m) => Some(m@),
                None => None,
            },
        }
    }
}

impl FieldError {
    /// A field error with `code` and no message.
    pub fn new(code: &str) -> (r: FieldError)
        ensures
            r@.code == code@,
            r@.message is None,
    {
        FieldError { code: owned(code), message: None }
    }
}

/// Accepts the playable character classes: `kael`, `rin`, `sirena`.
pub fn validate_class(value: &str) -> (r: Result<(), FieldError>)
    ensures
        r is Ok <==> value@ == "kael"@ || value@ == "rin"@ || value@ == "sirena"@,
        r matches Err(e) ==> e@.code == "invalid_class"@ && e@.message is None,
{
    if str_equal(value, "kael") || str_equal(value, "rin") || str_equal(value, "sirena") {
        Ok(())
    } else {
        Err(FieldError::new("invalid_class"))
    }
}

/// Accepts the names of the kinds of inventory.
pub fn validate_inventory_type(value: &str) -> (r: Result<(), FieldError>)
    ensures
        r is Ok <==> value@ == "equipment"@ || value@ == "accessory"@ || value@ == "consumable"@
            || value@ == "material"@ || value@ == "quest_item"@ || value@ == "special"@,
        r matches Err(e) ==> e@.code == "invalid_inventory_type"@ && e@.message is None,
{
    if str_equal(value, "equipment") || str_equal(value, "accessory") || str_equal(
        value,
        "consumable",
    ) || str_equal(value, "material") || str_equal(value, "quest_item") || str_equal(
        value,
        "special",
    ) {
        Ok(())
    } else {
        Err(FieldError::new("invalid_inventory_type"))
    }
}

/// Accepts the kinds of punishment: `ban`, `unban`, `suspend`, `unsuspend`.
pub fn validate_punishment_type(value: &str) -> (r: Result<(), FieldError>)
    ensures
        r is Ok <==> value@ == "ban"@ || value@ == "unban"@ || value@ == "suspend"@ || value@
            == "unsuspend"@,
        r matches Err(e) ==> e@.code == "invalid_punishment_type"@ && e@.message is None,
{
    if str_equal(value, "ban") || str_equal(value, "unban") || str_equal(value, "suspend")
        || str_equal(value, "unsuspend") {
        Ok(())
    } else {
        Err(FieldError::new("invalid_punishment_type"))
    }
}

/// Accepts the suspension severities: `low`, `medium`, `high`.
pub fn validate_suspension_severity(value: &str) -> (r: Result<(), FieldError>)
    ensures
        r is Ok <==> value@ == "low"@ || value@ == "medium"@ || value@ == "high"@,
        r matches Err(e) ==> e@.code == "invalid_suspension_severity"@ && e@.message is None,
{
    if str_equal(value, "low") || str_equal(value, "medium") || str_equal(value, "high") {
        Ok(())
    } else {
        Err(FieldError::new("invalid_suspension_severity"))
    }
}

/// Accepts any id: its text form reads back as an id.
pub fn validate_uuid(value: u128) -> (r: Result<(), FieldError>)
    ensures
        r is Ok,
{
    let text = uuid_to_string(value);
    match uuid_parse(text.as_str()) {
        Ok(_) => Ok(()),
        Err(_) => Err(FieldError::new("invalid_uuid")),
    }
}

/// Whether Unicode classifies `c` as uppercase (`char::is_uppercase`).
pub uninterp spec fn is_uppercase_char(c: char) -> bool;

/// Whether Unicode classifies `c` as lowercase (`char::is_lowercase`).
pub uninterp spec fn is_lowercase_char(c: char) -> bool;

/// Whether Unicode classifies `c` as a letter or number (`char::is_alphanumeric`).
pub uninterp spec fn is_alphanumeric_char(c: char) -> bool;

/// `char::is_uppercase`. Claimed: the answer named by `is_uppercase_char`; among ASCII
/// characters exactly `A`..=`Z` are uppercase.
#[verifier::external_body]
pub(crate) fn char_is_uppercase(c: char) -> (r: bool)
    ensures
        r == is_uppercase_char(c),
        (c as u32) < 128 ==> (r <==> ('A' <= c && c <= 'Z')),
{
    c.is_uppercase()
}

/// `char::is_lowercase`. Claimed: the answer named by `is_lowercase_char`; among ASCII
/// characters exactly `a`..=`z` are lowercase.
#[verifier::external_body]
pub(crate) fn char_is_lowercase(c: char) -> (r: bool)
    ensures
        r == is_lowercase_char(c),
        (c as u32) < 128 ==> (r <==> ('a' <= c && c <= 'z')),
{
    c.is_lowercase()
}

/// `char::is_alphanumeric`. Claimed: the answer named by `is_alphanumeric_char`; among
/// ASCII characters exactly the letters and digits are alphanumeric.
#[verifier::external_body]
pub(crate) fn char_is_alphanumeric(c: char) -> (r: bool)
    ensures
        r == is_alphanumeric_char(c),
        (c as u32) < 128 ==> (r <==> (('A' <= c && c <= 'Z') || ('a' <= c && c <= 'z') || ('0'
            <= c && c <= '9'))),
{
    c.is_alphanumeric()
}

/// Whether some character of `s` is uppercase.
pub open spec fn has_uppercase(s: Seq<char>) -> bool {
    exists|i: int| 0 <= i < s.len() && is_uppercase_char(#[trigger] s[i])
}

/// Whether some character of `s` is lowercase.
pub open spec fn has_lowercase(s: Seq<char>) -> bool {
    exists|i: int| 0 <= i < s.len() && is_lowercase_char(#[trigger] s[i])
}

/// Whether some character of `s` is an ASCII digit.
pub open spec fn has_ascii_digit(s: Seq<char>) -> bool {
    exists|i: int| 0 <= i < s.len() && '0' <= #[trigger] s[i] && s[i] <= '9'
}

/// Whether some character of `s` is neither a letter nor a number.
pub open spec fn has_special(s: Seq<char>) -> bool {
    exists|i: int| 0 <= i < s.len() && !is_alphanumeric_char(#[trigger] s[i])
}

/// The message of the first strength rule `password` breaks, if any: it needs an
/// uppercase letter, a lowercase letter, a digit and a special character, checked in that
/// order.
pub open spec fn weak_password_message(s: Seq<char>) -> Option<Seq<char>> {
    if !has_uppercase(s) {
        Some("must contain at least one uppercase letter"@)
    } else if !has_lowercase(s) {
        Some("must contain at least one lowercase letter"@)
    } else if !has_ascii_digit(s) {
        Some("must contain at least one digit"@)
    } else if !has_special(s) {
        Some("must contain at least one special character"@)
    } else {
        None
    }
}

/// Accepts a password that holds an uppercase letter, a lowercase letter, a digit and a
/// special character; otherwise reports the first rule it breaks.
pub fn validate_strong_password(password: &str) -> (r: Result<(), FieldError>)
    ensures
        match weak_password_message(password@) {
            None => r is Ok,
            Some(m) => r matches Err(e) && e@.code == "strong_password"@ && e@.message == Some(m),
        },
{
    let mut upper = false;
    let mut lower = false;
    let mut digit = false;
    let mut special = false;
    for c in it: password.chars()
        invariant
            it.seq() == password@,
            upper <==> has_uppercase(it.seq().take(it.index() as int)),
            lower <==> has_lowercase(it.seq().take(it.index() as int)),
            digit <==> has_ascii_digit(it.seq().take(it.index() as int)),
            special <==> has_special(it.seq().take(it.index() as int)),
    {
        let ghost k = it.index() as int;
        let ghost pre = it.seq().take(k);
        let ghost post = it.seq().take(k + 1);
        assert(post == pre.push(c));
        let u = char_is_uppercase(c);
        let l = char_is_lowercase(c);
        let a = char_is_alphanumeric(c);
        let d = '0' <= c && c <= '9';
        proof {
            assert(post[k] == c);
            assert(has_uppercase(post) <==> has_uppercase(pre) || u) by {
                if has_uppercase(post) {
                    let i = choose|i: int| 0 <= i < post.len() && is_uppercase_char(#[trigger] post[i]);
                    if i < k {
                        assert(pre[i] == post[i]);
                    }
                }
                if has_uppercase(pre) {
                    let i = choose|i: int| 0 <= i < pre.len() && is_uppercase_char(#[trigger] pre[i]);
                    assert(post[i] == pre[i]);
                }
            }
            assert(has_lowercase(post) <==> has_lowercase(pre) || l) by {
                if has_lowercase(post) {
                    let i = choose|i: int| 0 <= i < post.len() && is_lowercase_char(#[trigger] post[i]);
                    if i < k {
                        assert(pre[i] == post[i]);
                    }
                }
                if has_lowercase(pre) {
                    let i = choose|i: int| 0 <= i < pre.len() && is_lowercase_char(#[trigger] pre[i]);
                    assert(post[i] == pre[i]);
                }
            }
            assert(has_ascii_digit(post) <==> has_ascii_digit(pre) || d) by {
                if has_ascii_digit(post) {
                    let i = choose|i: int| 0 <= i < post.len() && '0' <= #[trigger] post[i] && post[i] <= '9';
                    if i < k {
                        assert(pre[i] == post[i]);
                    }
                }
                if has_ascii_digit(pre) {
                    let i = choose|i: int| 0 <= i < pre.len() && '0' <= #[trigger] pre[i] && pre[i] <= '9';
                    assert(post[i] == pre[i]);
                }
            }
            assert(has_special(post) <==> has_special(pre) || !a) by {
                if has_special(post) {
                    let i = choose|i: int| 0 <= i < post.len() && !is_alphanumeric_char(#[trigger] post[i]);
                    if i < k {
                        assert(pre[i] == post[i]);
                    }
                }
                if has_special(pre) {
                    let i = choose|i: int| 0 <= i < pre.len() && !is_alphanumeric_char(#[trigger] pre[i]);
                    assert(post[i] == pre[i]);
                }
            }
        }
        upper = upper || u;
        lower = lower || l;
        digit = digit || d;
        special = special || !a;
    }
    assert(password@.take(password@.len() as int) == password@);
    let msg: Option<&str> = if !upper {
        Some("must contain at least one uppercase letter")
    } else if !lower {
        Some("must contain at least one lowercase letter")
    } else if !digit {
        Some("must contain at least one digit")
    } else if !special {
        Some("must contain at least one special character")
    } else {
        None
    };
    match msg {
        None => Ok(()),
        Some(m) => {
            let mut err = FieldError::new("strong_password");
            err.message = Some(owned(m));
            Err(err)
        },
    }
}

} // verus!
