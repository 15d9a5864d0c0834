use vstd::prelude::*;

use crate::ports::{Claims, ClaimsView, TokenGenerator};

verus! {

/// Tokens that are the account id itself, issued at second 1 and valid for
/// 10 seconds.
#[derive(Clone, Copy, Debug)]
pub struct SimpleTokenGenerator;

impl SimpleTokenGenerator {
    pub fn token_for(id: String) -> (r: String)
        ensures
            r@ == id@,
    {
        id
    }

    pub fn claims_of(token: String) -> (r: Claims)
        ensures
            r@ == (ClaimsView { exp: 10, iat: 1, sub: token@ }),
    {
        Claims::new(10, 1, token)
    }
}

impl TokenGenerator for SimpleTokenGenerator {
    type Error = ();

    open spec fn issued(id: Seq<char>, token: Seq<char>) -> bool {
        token == id
    }

    open spec fn claims_of(token: Seq<char>) -> Option<ClaimsView> {
        Some(ClaimsView { exp: 10, iat: 1, sub: token })
    }

    open spec fn always_issues() -> bool {
        true
    }

    fn generate(id: String) -> (r: Result<String, ()>) {
        Ok(SimpleTokenGenerator::token_for(id))
    }

    fn get_claims(token: String) -> (r: Result<Claims, ()>) {
        Ok(SimpleTokenGenerator::claims_of(token))
    }
}

} // verus!
