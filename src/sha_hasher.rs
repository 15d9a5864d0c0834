use vstd::prelude::*;

use sha_crypt::{CryptError, Sha512Params};

use crate::ports::Hasher;

verus! {

#[verifier::external_type_specification]
#[verifier::external_body]
pub struct ExSha512Params(Sha512Params);

#[verifier::external_type_specification]
#[verifier::external_body]
pub struct ExCryptError(CryptError);

/// Whether `sha512_check` accepts `plain` against the crypt string `hashed`.
pub uninterp spec fn sha512_accepts(plain: Seq<char>, hashed: Seq<char>) -> bool;

/// Rounds of SHA-512 crypt applied to each password.
pub const HASH_ROUNDS: usize = 10_000;

/// Relies on `sha_crypt::Sha512Params::new`: it accepts from 1000 to
/// 999999999 rounds and refuses any other count.
#[verifier::external_body]
fn sha512_params(rounds: usize) -> (r: Result<Sha512Params, CryptError>)
    ensures
        r is Ok <==> 1_000 <= rounds <= 999_999_999,
{
    Sha512Params::new(rounds)
}

/// Relies on `sha_crypt::sha512_simple`: a crypt string of the password with a
/// random salt, in the form that `sha512_check` parses and accepts for that
/// password. It fails only on a round count out of range, which no
/// `Sha512Params` holds (`Sha512Params::new` refuses one).
#[verifier::external_body]
fn sha512_hash(password: &str, params: &Sha512Params) -> (r: Result<String, CryptError>)
    ensures
        r is Ok,
        r is Ok ==> sha512_accepts(password@, r->Ok_0@),
{
    sha_crypt::sha512_simple(password, params)
}

/// Relies on `sha_crypt::sha512_check`: whether the password matches the
/// crypt string.
#[verifier::external_body]
fn sha512_matches(plain: &str, hashed: &str) -> (r: bool)
    ensures
        r == sha512_accepts(plain@, hashed@),
{
    sha_crypt::sha512_check(plain, hashed).is_ok()
}

/// Password hashing with SHA-512 crypt.
#[derive(Clone, Copy, Debug)]
pub struct ShaHasher;

#[derive(Clone, Copy, Debug, PartialEq, Eq, Structural)]
pub enum ShaHasherError {
    HashError,
}

impl Hasher for ShaHasher {
    type Error = ShaHasherError;

    open spec fn accepts(plain: Seq<char>, hashed: Seq<char>) -> bool {
        sha512_accepts(plain, hashed)
    }

    open spec fn hash_ok(password: Seq<char>) -> bool {
        true
    }

    open spec fn compare_ok(plain: Seq<char>, hashed: Seq<char>) -> bool {
        true
    }

    fn hash_password(password: String) -> (r: Result<String, ShaHasherError>) {
        let params = match sha512_params(HASH_ROUNDS) {
            Ok(p) => p,
            Err(_) => return Err(ShaHasherError::HashError),
        };
        match sha512_hash(password.as_str(), &params) {
            Ok(h) => Ok(h),
            Err(_) => Err(ShaHasherError::HashError),
        }
    }

    fn compare_password(plain: String, hashed: String) -> (r: Result<bool, ShaHasherError>) {
        Ok(sha512_matches(plain.as_str(), hashed.as_str()))
    }
}

} // verus!
