use vstd::prelude::*;

use crate::ports::IDGenerator;

verus! {

/// Relies on `uuid::Uuid::new_v4` and its `Display`: a random UUID in the
/// 36-character hyphenated form.
#[verifier::external_body]
fn random_uuid() -> (r: String)
    ensures
        r@.len() == 36,
{
    uuid::Uuid::new_v4().to_string()
}

/// Account ids that are random UUIDs.
#[derive(Clone, Copy, Debug)]
pub struct UuidGenerator;

impl UuidGenerator {
    /// A fresh id: a random UUID, 36 characters long.
    pub fn new_id() -> (r: String)
        ensures
            r@.len() == 36,
    {
        random_uuid()
    }
}

impl IDGenerator for UuidGenerator {
    fn generate() -> (r: String) {
        UuidGenerator::new_id()
    }
}

} // verus!
