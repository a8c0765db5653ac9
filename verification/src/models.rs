//! What the portal answers: document cards, search pages, kinds of documents
//! and the authorities that sign them.

use vstd::prelude::*;

use crate::date::Date;
use crate::document_type::DocumentType;
use crate::signatory_authority::SignatoryAuthority;
use crate::text::{decimal, decimal_string};

verus! {

/// The card of a document as a search on the portal lists it.
#[derive(Debug, Clone)]
pub struct PublicationDocumentCard {
    /// Number of electronic publication, e.g. "0001202406220019".
    pub eo_number: String,
    /// The document has SVG files attached.
    pub has_svg: bool,
    /// Size of the ZIP file with attachments, if there is one.
    pub zip_file_length: Option<u32>,
    /// Date of publication.
    pub publish_date_short: Date,
    /// Full name: kind, date and number, authority.
    pub complex_name: String,
    /// Number of pages of the PDF file.
    pub pages_count: u32,
    /// The page whose image comes next (0 before the first).
    pub curr_page: u32,
    /// Size of the PDF file.
    pub pdf_file_length: u32,
    /// Registration number at the Ministry of Justice.
    pub jd_reg_number: Option<String>,
    /// Registration date at the Ministry of Justice.
    pub jd_reg_date: Option<String>,
    /// Title of the document.
    pub title: String,
    /// Date of publication as the site shows it.
    pub view_date: Date,
    /// GUID of the document.
    pub id: String,
    pub signatory_authority_id: String,
    pub document_type_id: String,
    /// Date of signing.
    pub document_date: Date,
    /// Number of the document.
    pub number: String,
}

/// One page of a search on the portal.
#[derive(Debug, Clone)]
pub struct SearchResult {
    /// The cards on this page.
    pub items: Vec<PublicationDocumentCard>,
    /// Number of documents found in all.
    pub items_total_count: u32,
    /// Number of documents on one page.
    pub items_per_page: u32,
    /// This page's number.
    pub current_page: u32,
    /// Number of pages found in all.
    pub pages_total_count: u32,
}

/// The full card of a document (`api/Document?eoNumber=...`).
#[derive(Debug, Clone)]
pub struct ExtendedPublicationDocumentCard {
    pub id: String,
    pub document_type: DocumentType,
    pub signatory_authorities: Vec<SignatoryAuthority>,
    /// Number of electronic publication.
    pub eo_number: String,
    /// Size in bytes of the ZIP file with attachments, if there is one.
    pub zip_file_length: Option<u32>,
    /// The document has SVG files attached.
    pub has_svg: bool,
    /// Full name: kind, date and number, authority.
    pub complex_name: String,
    /// Number of pages of the PDF file.
    pub pages_count: u32,
    /// Size in bytes of the PDF file.
    pub pdf_file_length: u32,
    /// Registration number at the Ministry of Justice.
    pub jd_reg_number: Option<u32>,
    /// Registration date at the Ministry of Justice.
    pub jd_reg_date: Option<String>,
    pub name: Option<String>,
    pub number: String,
    /// Date of signing.
    pub document_date: Date,
    /// Date of publication.
    pub publish_date_short: Date,
    /// Date of publication as the site shows it.
    pub view_date: Date,
    pub signatory_authority_id: String,
    pub document_type_id: String,
}

/// The numbers `from..=to`, in increasing order (empty when `from > to`).
pub open spec fn page_range(from: int, to: int) -> Seq<u32> {
    if from <= to {
        Seq::new((to - from + 1) as nat, |i: int| (from + i) as u32)
    } else {
        Seq::empty()
    }
}

/// The page that the image walk is at: page 0 means that it has not started,
/// and it starts at page 1.
pub open spec fn effective_page(card: PublicationDocumentCard) -> int {
    if card.curr_page == 0 {
        1
    } else {
        card.curr_page as int
    }
}

/// The pages whose images are still to come, in order.
pub open spec fn images_left(card: PublicationDocumentCard) -> Seq<u32> {
    page_range(effective_page(card), card.pages_count as int)
}

/// The card after `next_image_page`: a walk that has not started is at page 1.
pub open spec fn card_after_next_image_page(card: PublicationDocumentCard) -> PublicationDocumentCard {
    PublicationDocumentCard { curr_page: effective_page(card) as u32, ..card }
}

/// The page that `next_image_page` gives: the first page still to come, if any.
pub open spec fn next_image_of(card: PublicationDocumentCard) -> Option<u32> {
    if images_left(card).len() > 0 {
        Some(images_left(card)[0])
    } else {
        None
    }
}

/// The card after `image_page_fetched`.
pub open spec fn card_after_image_fetched(card: PublicationDocumentCard) -> PublicationDocumentCard {
    PublicationDocumentCard { curr_page: (card.curr_page + 1) as u32, ..card }
}

/// One step of the image walk, as the caller makes it: ask for the next page
/// and, when there is one, record that its image was loaded. Gives the card
/// after the step and the page whose image was loaded.
pub open spec fn image_walk_step(card: PublicationDocumentCard) -> (PublicationDocumentCard, Option<u32>) {
    let c = card_after_next_image_page(card);
    match next_image_of(card) {
        Some(p) => (card_after_image_fetched(c), Some(p)),
        None => (c, None),
    }
}

/// The card after `k` steps of the image walk.
pub open spec fn image_walk(card: PublicationDocumentCard, k: nat) -> PublicationDocumentCard
    decreases k,
{
    if k == 0 {
        card
    } else {
        image_walk_step(image_walk(card, (k - 1) as nat)).0
    }
}

/// The image walk over a document of `n` pages that has not started: step
/// `k` (from 0) loads page `k + 1` while `k < n`; from step `n` on there is
/// no page, and after the first step such a step leaves the card as it is.
/// After `k` steps the walk is at page `min(k, n) + 1` (at 0 before the first
/// step), and nothing else of the card has changed.
pub proof fn lemma_image_walk(card: PublicationDocumentCard, k: nat)
    requires
        card.curr_page == 0,
        card.pages_count < u32::MAX,
    ensures
        image_walk(card, k) == (PublicationDocumentCard {
            curr_page: if k == 0 {
                0
            } else if k <= card.pages_count {
                (k + 1) as u32
            } else {
                (card.pages_count + 1) as u32
            },
            ..card
        }),
        image_walk_step(image_walk(card, k)).1 == (if k < card.pages_count {
            Some((k + 1) as u32)
        } else {
            None
        }),
        k > 0 && k >= card.pages_count ==> image_walk(card, k + 1) == image_walk(card, k),
    decreases k,
{
    let n = card.pages_count as int;
    if k > 0 {
        lemma_image_walk(card, (k - 1) as nat);
    }
    let c = image_walk(card, k);
    assert(effective_page(c) == if k <= n { k + 1int } else { n + 1 });
    assert(images_left(c).len() == if k < n { n - k } else { 0int });
    if k < n {
        assert(images_left(c)[0] == (k + 1) as u32);
    }
    assert(image_walk(card, k + 1) == image_walk_step(c).0);
}

impl PublicationDocumentCard {
    /// The page whose image comes next, if any is left. A walk that has not
    /// started (page 0) is set to page 1 first.
    pub fn next_image_page(&mut self) -> (page: Option<u32>)
        ensures
            *final(self) == (PublicationDocumentCard {
                curr_page: effective_page(*old(self)) as u32,
                ..*old(self)
            }),
            images_left(*final(self)) == images_left(*old(self)),
            page == (if images_left(*old(self)).len() > 0 {
                Some(images_left(*old(self))[0])
            } else {
                None
            }),
            page matches Some(p) ==> p == effective_page(*old(self)) && p <= old(self).pages_count,
            *final(self) == card_after_next_image_page(*old(self)),
            page == next_image_of(*old(self)),
    {
        if self.curr_page == 0 {
            self.curr_page = 1;
        }
        if self.curr_page <= self.pages_count {
            Some(self.curr_page)
        } else {
            None
        }
    }

    /// The image of the current page has been loaded: move to the next page.
    pub fn image_page_fetched(&mut self)
        requires
            old(self).curr_page < u32::MAX,
        ensures
            *final(self) == (PublicationDocumentCard {
                curr_page: (old(self).curr_page + 1) as u32,
                ..*old(self)
            }),
            old(self).curr_page != 0 && images_left(*old(self)).len() > 0 ==> images_left(*final(self))
                == images_left(*old(self)).drop_first(),
            *final(self) == card_after_image_fetched(*old(self)),
    {
        self.curr_page = self.curr_page + 1;
        proof {
            let o = images_left(*old(self));
            let n = images_left(*final(self));
            if old(self).curr_page != 0 && o.len() > 0 {
                assert(n =~= o.drop_first());
            }
        }
    }

    /// The short card of a document made from its full card: the fields that
    /// both have are copied, the title is the full name, the registration
    /// number is written in decimal, and the image walk has not started.
    pub fn from_extended(card: ExtendedPublicationDocumentCard) -> (r: PublicationDocumentCard)
        ensures
            r.eo_number == card.eo_number,
            r.has_svg == card.has_svg,
            r.zip_file_length == card.zip_file_length,
            r.publish_date_short == card.publish_date_short,
            r.complex_name == card.complex_name,
            r.pages_count == card.pages_count,
            r.curr_page == 0,
            r.pdf_file_length == card.pdf_file_length,
            r.jd_reg_number matches Some(n) ==> card.jd_reg_number matches Some(m) && n@ == decimal(
                m as nat,
            ),
            r.jd_reg_number is None <==> card.jd_reg_number is None,
            r.jd_reg_date == card.jd_reg_date,
            r.title == card.complex_name,
            r.view_date == card.view_date,
            r.id == card.id,
            r.signatory_authority_id == card.signatory_authority_id,
            r.document_type_id == card.document_type_id,
            r.document_date == card.document_date,
            r.number == card.number,
    {
        let jd_reg_number = match card.jd_reg_number {
            Some(n) => Some(decimal_string(n)),
            None => None,
        };
        let title = card.complex_name.clone();
        PublicationDocumentCard {
            eo_number: card.eo_number,
            has_svg: card.has_svg,
            zip_file_length: card.zip_file_length,
            publish_date_short: card.publish_date_short,
            complex_name: card.complex_name,
            pages_count: card.pages_count,
            curr_page: 0,
            pdf_file_length: card.pdf_file_length,
            jd_reg_number: jd_reg_number,
            jd_reg_date: card.jd_reg_date,
            title: title,
            view_date: card.view_date,
            id: card.id,
            signatory_authority_id: card.signatory_authority_id,
            document_type_id: card.document_type_id,
            document_date: card.document_date,
            number: card.number,
        }
    }
}

} // verus!
