//! Extractors: views of a list of cards that belong to one authority and
//! one kind of document.

pub mod prezident_ukaz;

use vstd::prelude::*;

use crate::models::PublicationDocumentCard;

verus! {

/// A view of the cards of one authority (`SIGNATORY`) and one kind of
/// document (`TYPE_ID`) that reads the documents' numbers.
pub trait Extractor<'a>: Sized {
    /// Name of the authority.
    const NAME: &'static str;

    /// GUID of the authority.
    const SIGNATORY: &'static str;

    /// GUID of the kind of document.
    const TYPE_ID: &'static str;

    /// The cards that the extractor reads.
    spec fn cards(&self) -> Seq<PublicationDocumentCard>;

    /// The extractor over `cards`.
    fn from(cards: &'a [PublicationDocumentCard]) -> (r: Self)
        ensures
            r.cards() == cards@,
    ;

    /// The numbers of the documents.
    fn get_numbers(&'a self) -> Vec<String>;

    /// The numbers that are skipped.
    fn get_skip_numbers(&'a self) -> Vec<String>;
}

} // verus!
