//! Decrees of the President of the Russian Federation.

use vstd::prelude::*;

use super::Extractor;
use crate::models::PublicationDocumentCard;

verus! {

/// The cards of decrees of the President of the Russian Federation.
pub struct PrezidentUkaz<'a> {
    cards: &'a [PublicationDocumentCard],
}

impl<'a> Extractor<'a> for PrezidentUkaz<'a> {
    const NAME: &'static str = "Президент Российской Федерации";

    const SIGNATORY: &'static str = "225698f1-cfbc-4e42-9caa-32f9f7403211";

    const TYPE_ID: &'static str = "0790e34b-784b-4372-884e-3282622a24bd";

    closed spec fn cards(&self) -> Seq<PublicationDocumentCard> {
        self.cards@
    }

    fn from(cards: &'a [PublicationDocumentCard]) -> Self {
        PrezidentUkaz { cards: cards }
    }

    /// No numbers are read from decrees yet: the list is empty.
    fn get_numbers(&'a self) -> (r: Vec<String>)
        ensures
            r@.len() == 0,
    {
        Vec::new()
    }

    /// No numbers are skipped: the list is empty.
    fn get_skip_numbers(&'a self) -> (r: Vec<String>)
        ensures
            r@.len() == 0,
    {
        Vec::new()
    }
}

} // verus!
