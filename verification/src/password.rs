//! Password hashing with bcrypt.
use vstd::prelude::*;
use crate::text::digit_char;

verus! {

/// What `bcrypt::verify` answers for a password and a stored hash: `Some(matches)` when
/// the hash can be read, `None` when bcrypt refuses it. Fixed by its two arguments.
pub uninterp spec fn bcrypt_verify_outcome(password: Seq<char>, hash: Seq<char>) -> Option<bool>;

/// `bcrypt::DEFAULT_COST`, the work factor bcrypt recommends: 12.
#[verifier::external_body]
pub(crate) fn bcrypt_default_cost() -> (r: u32)
    ensures
        r == 12,
{
    bcrypt::DEFAULT_COST
}

/// The two decimal digits of `n` (for `n` below 100), with a leading zero below 10.
pub open spec fn two_digits(n: int) -> Seq<char> {
    seq![digit_char(n / 10), digit_char(n % 10)]
}

/// Whether `c` is an ASCII digit.
pub open spec fn is_ascii_digit(c: char) -> bool {
    '0' <= c && c <= '9'
}

/// A text that cannot be a bcrypt hash: not 60 characters long; `$` missing at positions
/// 0, 3 or 6; a version other than `2a`, `2b`, `2x` or `2y` at positions 1 and 2; or two
/// digits at positions 4 and 5 that give a cost outside 4..=31.
pub open spec fn malformed_bcrypt_hash(h: Seq<char>) -> bool {
    ||| h.len() != 60
    ||| !(h[0] == '$' && h[3] == '$' && h[6] == '$')
    ||| !(h[1] == '2' && (h[2] == 'a' || h[2] == 'b' || h[2] == 'x' || h[2] == 'y'))
    ||| (is_ascii_digit(h[4]) && is_ascii_digit(h[5]) && !(4 <= (h[4] as int - 48) * 10 + (
        h[5] as int - 48) <= 31))
}

/// `bcrypt::hash`: hashes `password` with a random salt at work factor `cost`. Claimed:
/// a cost outside 4..=31 is refused; a hash that is produced is 60 characters long, starts
/// with `$2b$`, the cost as two digits and `$` (bcrypt's format), and verifies `password`
/// (bcrypt stores the cost and salt in the hash and `verify` recomputes with them). The
/// salt is random (and the OS may fail to give one), so nothing more is said of the text,
/// and the error text (the error's `Display`) is left unsaid.
#[verifier::external_body]
pub(crate) fn bcrypt_hash(password: &str, cost: u32) -> (r: Result<String, String>)
    ensures
        !(4 <= cost <= 31) ==> r is Err,
        r matches Ok(h) ==> h@.len() == 60 && h@.subrange(0, 4) == "$2b$"@ && h@.subrange(4, 6)
            == two_digits(cost as int) && h@[6] == '$' && bcrypt_verify_outcome(password@, h@)
            == Some(true),
{
    bcrypt::hash(password, cost).map_err(|e| e.to_string())
}

/// `bcrypt::verify`: whether `password` matches the stored `hash`. Claimed: the answer is
/// the one named by `bcrypt_verify_outcome`, and a text that is not shaped like a bcrypt
/// hash (see `malformed_bcrypt_hash`) is refused, as bcrypt's `split_hash` and its cost
/// check refuse it. The error text is left unsaid.
#[verifier::external_body]
pub(crate) fn bcrypt_verify(password: &str, hash: &str) -> (r: Result<bool, String>)
    ensures
        match bcrypt_verify_outcome(password@, hash@) {
            Some(b) => r matches Ok(b2) && b2 == b,
            None => r is Err,
        },
        malformed_bcrypt_hash(hash@) ==> r is Err,
{
    bcrypt::verify(password, hash).map_err(|e| e.to_string())
}

/// Why hashing or verifying a password failed.
#[derive(Debug, Clone, Copy, PartialEq, Eq, Structural)]
pub enum PasswordError {
    HashFailed,
    VerifyFailed,
}

impl PasswordError {
    /// The text this error displays.
    pub fn message(&self) -> (r: &'static str)
        ensures
            *self == PasswordError::HashFailed ==> r@ == "Failed to hash password"@,
            *self == PasswordError::VerifyFailed ==> r@ == "Failed to verify password"@,
    {
        match self {
            PasswordError::HashFailed => "Failed to hash password",
            PasswordError::VerifyFailed => "Failed to verify password",
        }
    }
}

/// What checking `password` against `hash` answers: a failure for a text that is not
/// shaped like a bcrypt hash or that bcrypt cannot read, otherwise bcrypt's verdict.
pub open spec fn verify_result(password: Seq<char>, hash: Seq<char>) -> Result<bool, PasswordError> {
    if malformed_bcrypt_hash(hash) {
        Err(PasswordError::VerifyFailed)
    } else {
        match bcrypt_verify_outcome(password, hash) {
            Some(b) => Ok(b),
            None => Err(PasswordError::VerifyFailed),
        }
    }
}

/// Whether `h` is a bcrypt hash of `password` at work factor `cost`: 60 characters,
/// `$2b$`, the cost as two digits, `$`, and a verdict of "matches" for `password`.
pub open spec fn bcrypt_hash_of(password: Seq<char>, cost: int, h: Seq<char>) -> bool {
    &&& 4 <= cost <= 31
    &&& h.len() == 60
    &&& h.subrange(0, 4) == "$2b$"@
    &&& h.subrange(4, 6) == two_digits(cost)
    &&& h[6] == '$'
    &&& bcrypt_verify_outcome(password, h) == Some(true)
}

/// A password verifies against a hash of it, whichever hasher checks: the hash carries
/// its own work factor and salt.
pub proof fn lemma_own_hash_verifies(password: Seq<char>, cost: int, h: Seq<char>)
    requires
        bcrypt_hash_of(password, cost, h),
    ensures
        verify_result(password, h) == Ok::<bool, PasswordError>(true),
{
    reveal_strlit("$2b$");
    assert(h[0] == h.subrange(0, 4)[0]);
    assert(h[1] == h.subrange(0, 4)[1]);
    assert(h[2] == h.subrange(0, 4)[2]);
    assert(h[3] == h.subrange(0, 4)[3]);
    assert(h[4] == two_digits(cost)[0]);
    assert(h[5] == two_digits(cost)[1]);
    let t = cost / 10;
    let u = cost % 10;
    assert(0 <= t <= 3 && 0 <= u <= 9);
    assert(((t + 48) as char) as int == t + 48);
    assert(((u + 48) as char) as int == u + 48);
    assert(t * 10 + u == cost);
    assert(!malformed_bcrypt_hash(h));
}

/// A text that is not shaped like a bcrypt hash never verifies, whichever hasher checks.
pub proof fn lemma_malformed_hash_fails(password: Seq<char>, h: Seq<char>)
    requires
        malformed_bcrypt_hash(h),
    ensures
        verify_result(password, h) == Err::<bool, PasswordError>(PasswordError::VerifyFailed),
{
}

/// Hashes and checks passwords with bcrypt at a fixed work factor.
#[derive(Debug, Clone, Copy)]
pub struct PasswordHasher {
    cost: u32,
}

impl PasswordHasher {
    /// The work factor of this hasher.
    pub closed spec fn work_factor(&self) -> u32 {
        self.cost
    }

    /// A hasher at work factor `cost`.
    pub fn new(cost: u32) -> (r: PasswordHasher)
        ensures
            r.work_factor() == cost,
    {
        PasswordHasher { cost }
    }

    /// Hashes `password`. A cost outside 4..=31 fails; a hash that is returned verifies
    /// `password`.
    pub fn hash(&self, password: &str) -> (r: Result<String, PasswordError>)
        ensures
            !(4 <= self.work_factor() <= 31) ==> r == Err::<String, PasswordError>(
                PasswordError::HashFailed,
            ),
            r matches Err(e) ==> e == PasswordError::HashFailed,
            r matches Ok(h) ==> bcrypt_hash_of(password@, self.work_factor() as int, h@),
            r matches Ok(h) ==> verify_result(password@, h@) == Ok::<bool, PasswordError>(true),
    {
        match bcrypt_hash(password, self.cost) {
            Ok(h) => {
                proof {
                    lemma_own_hash_verifies(password@, self.cost as int, h@);
                }
                Ok(h)
            },
            Err(_) => Err(PasswordError::HashFailed),
        }
    }

    /// Whether `password` matches `hash`, whatever this hasher's work factor (the hash
    /// carries its own); a hash bcrypt cannot read fails.
    pub fn verify(&self, password: &str, hash: &str) -> (r: Result<bool, PasswordError>)
        ensures
            r == verify_result(password@, hash@),
            malformed_bcrypt_hash(hash@) ==> r == Err::<bool, PasswordError>(
                PasswordError::VerifyFailed,
            ),
    {
        match bcrypt_verify(password, hash) {
            Ok(b) => Ok(b),
            Err(_) => Err(PasswordError::VerifyFailed),
        }
    }
}

impl Default for PasswordHasher {
    /// A hasher at bcrypt's default work factor, 12.
    fn default() -> (r: PasswordHasher)
        ensures
            r.work_factor() == 12,
    {
        PasswordHasher::new(bcrypt_default_cost())
    }
}

} // verus!
