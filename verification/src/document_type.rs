//! Kinds of documents.

use vstd::prelude::*;

verus! {

/// A kind of document (`api/DocumentTypes`).
#[derive(Debug, Clone)]
pub struct DocumentType {
    pub id: String,
    /// Sort weight of the kind (0-100).
    pub weight: u32,
    /// Name of the kind, e.g. "Федеральный закон".
    pub name: String,
}

} // verus!
