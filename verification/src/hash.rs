//! The hashing service used when registering and logging in.
use vstd::prelude::*;
use crate::error::{AppError, AppErrorView};
use crate::password::{
    bcrypt_default_cost, bcrypt_hash, bcrypt_hash_of, bcrypt_verify, bcrypt_verify_outcome,
    malformed_bcrypt_hash,
};

verus! {

/// Hashes and checks passwords with bcrypt at a fixed work factor; failures are internal
/// errors carrying bcrypt's message.
#[derive(Debug, Clone, Copy)]
pub struct HashService {
    cost: u32,
}

impl HashService {
    /// The work factor of this service.
    pub closed spec fn work_factor(&self) -> u32 {
        self.cost
    }

    /// A service hashing at work factor `cost`.
    pub fn new(cost: u32) -> (r: HashService)
        ensures
            r.work_factor() == cost,
    {
        HashService { cost }
    }

    /// Hashes `password`. A cost outside 4..=31 fails with an internal error; a hash that is
    /// returned verifies `password`.
    pub fn hash(&self, password: &str) -> (r: Result<String, AppError>)
        ensures
            !(4 <= self.work_factor() <= 31) ==> r is Err,
            r matches Err(e) ==> e@ is Internal,
            r matches Ok(h) ==> bcrypt_hash_of(password@, self.work_factor() as int, h@),
    {
        match bcrypt_hash(password, self.cost) {
            Ok(h) => Ok(h),
            Err(text) => Err(AppError::Internal(text)),
        }
    }

    /// Whether `password` matches `hash`; a hash bcrypt cannot read is an internal error.
    pub fn verify(&self, password: &str, hash: &str) -> (r: Result<bool, AppError>)
        ensures
            match bcrypt_verify_outcome(password@, hash@) {
                Some(b) => r matches Ok(b2) && b2 == b,
                None => r matches Err(e) && e@ is Internal,
            },
            malformed_bcrypt_hash(hash@) ==> (r matches Err(e) && e@ is Internal),
    {
        match bcrypt_verify(password, hash) {
            Ok(b) => Ok(b),
            Err(text) => Err(AppError::Internal(text)),
        }
    }
}

impl Default for HashService {
    /// A service at bcrypt's default work factor, 12.
    fn default() -> (r: HashService)
        ensures
            r.work_factor() == 12,
    {
        HashService::new(bcrypt_default_cost())
    }
}

} // verus!
