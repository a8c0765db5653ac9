//! Authorities that sign documents.

use vstd::prelude::*;

verus! {

/// An authority that signs documents (`api/SignatoryAuthorities`).
#[derive(Debug, Clone)]
pub struct SignatoryAuthority {
    pub id: String,
    pub weight: u32,
    pub name: String,
}

} // verus!
