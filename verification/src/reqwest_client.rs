//! The portal client built on `reqwest` with retries: its HTTP client, and
//! the addresses that it asks for.

use vstd::prelude::*;

use crate::date::{Date, DateParts};
use crate::publication_api::{
    date_view, lemma_param_names_differ, named, optional, optional_date, optional_number, push_named,
};
use crate::query::{push_pair, request_url, spec_request_url};
use crate::text::{concat_str, decimal, decimal_string};

verus! {

#[verifier::external_type_specification]
#[verifier::external_body]
pub struct ExClientWithMiddleware(reqwest_middleware::ClientWithMiddleware);

/// Number of times a request that failed for a passing reason is tried again.
pub const MAX_RETRIES: u32 = 8;

/// Builds `reqwest_middleware::ClientBuilder::new(reqwest::Client::new())`
/// with `RetryTransientMiddleware::new_with_policy` over
/// `ExponentialBackoff::builder().build_with_max_retries(max_retries)`.
/// Claims only that the client is built with `max_retries` retries (recorded
/// in `max_retries()`); how the middleware retries is `reqwest_retry`'s.
#[verifier::external_body]
fn retrying_client(max_retries: u32) -> (c: ReqwestPublicationApiClient)
    ensures
        c.max_retries() == max_retries,
{
    let policy = reqwest_retry::policies::ExponentialBackoff::builder().build_with_max_retries(
        max_retries,
    );
    let client = reqwest_middleware::ClientBuilder::new(reqwest::Client::new()).with(
        reqwest_retry::RetryTransientMiddleware::new_with_policy(policy),
    ).build();
    ReqwestPublicationApiClient { client: client, retries: Ghost(max_retries) }
}

/// The query that the client puts on a search for documents: the kinds of
/// documents, the authorities, the first and last day of signing, the page
/// size (200 unless given) and the page.
pub open spec fn spec_apply_params(
    date_from: Option<DateParts>,
    date_to: Option<DateParts>,
    doc_types: Seq<Seq<char>>,
    signatory_authority: Option<Seq<Seq<char>>>,
    page_size: Option<u32>,
    page_number: Option<u32>,
) -> Seq<(Seq<char>, Seq<char>)> {
    named("DocumentTypes"@, doc_types) + match signatory_authority {
        Some(sa) => named("SignatoryAuthorityId"@, sa),
        None => Seq::empty(),
    } + optional("DocumentDateFrom"@, optional_date(date_from)) + optional(
        "DocumentDateTo"@,
        optional_date(date_to),
    ) + seq![
        ("PageSize"@, match page_size {
            Some(ps) => decimal(ps as nat),
            None => "200"@,
        }),
    ] + optional("index"@, optional_number(page_number))
}

/// In the query of the client's search, the pairs named `DocumentTypes` come
/// first and are exactly the kinds of documents asked for, in order; then come
/// the authorities, each in a pair `SignatoryAuthorityId`, in order, and no
/// other pair has that name; the page size is the one given (200 when none
/// is); and the page is asked for by `index` exactly when a page is given.
pub proof fn lemma_apply_params_pairs(
    date_from: Option<DateParts>,
    date_to: Option<DateParts>,
    doc_types: Seq<Seq<char>>,
    signatory_authority: Option<Seq<Seq<char>>>,
    page_size: Option<u32>,
    page_number: Option<u32>,
)
    ensures
        ({
            let q = spec_apply_params(date_from, date_to, doc_types, signatory_authority, page_size, page_number);
            let size = match page_size {
                Some(ps) => decimal(ps as nat),
                None => "200"@,
            };
            &&& forall|i: int| 0 <= i < doc_types.len() ==> #[trigger] q[i] == ("DocumentTypes"@, doc_types[i])
            &&& forall|j: int| 0 <= j < q.len() && (#[trigger] q[j]).0 == "DocumentTypes"@ ==> j < doc_types.len()
            &&& signatory_authority matches Some(sa) ==> forall|i: int| 0 <= i < sa.len() ==> #[trigger] q[doc_types.len() + i]
                == ("SignatoryAuthorityId"@, sa[i])
            &&& forall|v: Seq<char>| #[trigger] q.contains(("SignatoryAuthorityId"@, v)) <==> (signatory_authority matches Some(sa)
                && sa.contains(v))
            &&& forall|v: Seq<char>| #[trigger] q.contains(("PageSize"@, v)) <==> v == size
            &&& forall|v: Seq<char>| #[trigger] q.contains(("index"@, v)) <==> (page_number matches Some(p) && v == decimal(p as nat))
        }),
{
    lemma_param_names_differ();
    let q = spec_apply_params(date_from, date_to, doc_types, signatory_authority, page_size, page_number);
    let size = match page_size {
        Some(ps) => decimal(ps as nat),
        None => "200"@,
    };
    let a = named("DocumentTypes"@, doc_types);
    let b = match signatory_authority {
        Some(sa) => named("SignatoryAuthorityId"@, sa),
        None => Seq::empty(),
    };
    let c = optional("DocumentDateFrom"@, optional_date(date_from)) + optional(
        "DocumentDateTo"@,
        optional_date(date_to),
    );
    let d = seq![("PageSize"@, size)] + optional("index"@, optional_number(page_number));
    assert(q =~= a + (b + (c + d)));
    let na = a.len() as int;
    let nb = b.len() as int;
    let nc = c.len() as int;
    assert forall|k: int| 0 <= k < b.len() implies (#[trigger] b[k]).0 == "SignatoryAuthorityId"@ by {}
    assert forall|k: int| 0 <= k < c.len() implies (#[trigger] c[k]).0 == "DocumentDateFrom"@ || c[k].0
        == "DocumentDateTo"@ by {}
    assert forall|k: int| 0 <= k < d.len() implies ((#[trigger] d[k]).0 == "PageSize"@ && d[k].1 == size)
        || (d[k].0 == "index"@ && (page_number matches Some(p) && d[k].1 == decimal(p as nat))) by {}
    assert forall|j: int| 0 <= j < q.len() implies {
        let e = #[trigger] q[j];
        &&& j < na ==> e == ("DocumentTypes"@, doc_types[j])
        &&& na <= j < na + nb ==> e == b[j - na]
        &&& na + nb <= j < na + nb + nc ==> e == c[j - na - nb]
        &&& na + nb + nc <= j ==> e == d[j - na - nb - nc]
    } by {}
    assert forall|j: int| 0 <= j < q.len() implies {
        let e = #[trigger] q[j];
        &&& e.0 == "DocumentTypes"@ ==> j < na
        &&& e.0 == "SignatoryAuthorityId"@ ==> na <= j < na + nb
        &&& e.0 == "PageSize"@ ==> e.1 == size
        &&& e.0 == "index"@ ==> (page_number matches Some(p) && e.1 == decimal(p as nat))
    } by {
        if na <= j < na + nb {
            let x = b[j - na];
        } else if na + nb <= j < na + nb + nc {
            let x = c[j - na - nb];
        } else if na + nb + nc <= j {
            let x = d[j - na - nb - nc];
        }
    }
    assert forall|v: Seq<char>| #[trigger] q.contains(("SignatoryAuthorityId"@, v)) <==> (
    signatory_authority matches Some(sa) && sa.contains(v)) by {
        if q.contains(("SignatoryAuthorityId"@, v)) {
            let j = choose|j: int| 0 <= j < q.len() && q[j] == ("SignatoryAuthorityId"@, v);
            assert(na <= j < na + nb);
            let x = b[j - na];
            if let Some(sa) = signatory_authority {
                assert(sa[j - na] == v);
            }
        }
        if let Some(sa) = signatory_authority {
            if sa.contains(v) {
                let i = choose|i: int| 0 <= i < sa.len() && sa[i] == v;
                assert(q[na + i] == ("SignatoryAuthorityId"@, v));
            }
        }
    }
    assert(q[na + nb + nc] == ("PageSize"@, size));
    assert forall|v: Seq<char>| #[trigger] q.contains(("PageSize"@, v)) <==> v == size by {
        if q.contains(("PageSize"@, v)) {
            let j = choose|j: int| 0 <= j < q.len() && q[j] == ("PageSize"@, v);
            let x = q[j];
        }
    }
    assert forall|v: Seq<char>| #[trigger] q.contains(("index"@, v)) <==> (page_number matches Some(p)
        && v == decimal(p as nat)) by {
        if q.contains(("index"@, v)) {
            let j = choose|j: int| 0 <= j < q.len() && q[j] == ("index"@, v);
            let x = q[j];
        }
        if page_number matches Some(p) && v == decimal(p as nat) {
            assert(q[q.len() - 1] == ("index"@, v));
        }
    }
}

/// The view of optional authorities.
pub open spec fn authorities_view(sa: Option<&[String]>) -> Option<Seq<Seq<char>>> {
    match sa {
        Some(v) => Some(v.deep_view()),
        None => None,
    }
}

/// The portal client on `reqwest`, retrying requests that fail for a
/// passing reason.
pub struct ReqwestPublicationApiClient {
    client: reqwest_middleware::ClientWithMiddleware,
    /// The number of retries that the client was built with.
    retries: Ghost<u32>,
}

impl ReqwestPublicationApiClient {
    /// The portal's site.
    pub const BASE_URL: &'static str = "http://publication.pravo.gov.ru/";

    /// The portal's API.
    pub const API_URL: &'static str = "http://publication.pravo.gov.ru/api/";

    /// A client that tries each request again up to `MAX_RETRIES` times,
    /// waiting longer each time.
    pub fn new() -> (c: Self)
        ensures
            c.max_retries() == MAX_RETRIES,
    {
        retrying_client(MAX_RETRIES)
    }

    /// The number of times the client tries a request again after a failure
    /// for a passing reason.
    pub closed spec fn max_retries(&self) -> u32 {
        self.retries@
    }

    /// The HTTP client that this value holds and sends the requests with.
    pub closed spec fn held_client(&self) -> reqwest_middleware::ClientWithMiddleware {
        self.client
    }

    /// The HTTP client that sends the requests.
    pub fn http(&self) -> (r: &reqwest_middleware::ClientWithMiddleware)
        ensures
            *r == self.held_client(),
    {
        &self.client
    }

    /// The query of a search for documents (see `spec_apply_params`).
    pub fn apply_params(
        date_from: Option<&Date>,
        date_to: Option<&Date>,
        doc_types: &[String],
        signatory_authority: Option<&[String]>,
        page_size: Option<u32>,
        page_number: Option<u32>,
    ) -> (params: Vec<(String, String)>)
        ensures
            params.deep_view() == spec_apply_params(
                date_view(date_from),
                date_view(date_to),
                doc_types.deep_view(),
                authorities_view(signatory_authority),
                page_size,
                page_number,
            ),
    {
        let mut params: Vec<(String, String)> = Vec::new();
        push_named(&mut params, "DocumentTypes", doc_types);
        if let Some(sa) = signatory_authority {
            push_named(&mut params, "SignatoryAuthorityId", sa);
        }
        if let Some(df) = date_from {
            push_pair(&mut params, "DocumentDateFrom", df.format_dot_date());
        }
        if let Some(dt) = date_to {
            push_pair(&mut params, "DocumentDateTo", dt.format_dot_date());
        }
        if let Some(ps) = page_size {
            push_pair(&mut params, "PageSize", decimal_string(ps));
        } else {
            push_pair(&mut params, "PageSize", "200".to_owned());
        }
        if let Some(pn) = page_number {
            push_pair(&mut params, "index", decimal_string(pn));
        }
        proof {
            assert(params.deep_view() =~= spec_apply_params(
                date_view(date_from),
                date_view(date_to),
                doc_types.deep_view(),
                authorities_view(signatory_authority),
                page_size,
                page_number,
            ));
        }
        params
    }

    /// The address of the first request of a search for documents:
    /// `api/Documents?` with the query of `apply_params`.
    pub fn get_documents_url(
        date_from: Option<&Date>,
        date_to: Option<&Date>,
        doc_types: &[String],
        signatory_authority: Option<&[String]>,
        page_number: Option<u32>,
        page_size: Option<u32>,
    ) -> (r: Option<String>)
        ensures
            r is Some <==> spec_request_url(
                Self::API_URL@ + "Documents?"@,
                spec_apply_params(
                    date_view(date_from),
                    date_view(date_to),
                    doc_types.deep_view(),
                    authorities_view(signatory_authority),
                    page_size,
                    page_number,
                ),
            ) is Some,
            r matches Some(u) ==> spec_request_url(
                Self::API_URL@ + "Documents?"@,
                spec_apply_params(
                    date_view(date_from),
                    date_view(date_to),
                    doc_types.deep_view(),
                    authorities_view(signatory_authority),
                    page_size,
                    page_number,
                ),
            ) == Some(u@),
    {
        let base = concat_str(Self::API_URL, "Documents?");
        let params = Self::apply_params(
            date_from,
            date_to,
            doc_types,
            signatory_authority,
            page_size,
            page_number,
        );
        request_url(base.as_str(), &params)
    }

    /// The address with which the client asks for each further page of a
    /// search: the query of `apply_params` with the default page size and
    /// the page number of the first request (the number of the page that is
    /// due is not put into the query).
    pub fn get_documents_following_url(
        date_from: Option<&Date>,
        date_to: Option<&Date>,
        doc_types: &[String],
        signatory_authority: Option<&[String]>,
        page_number: Option<u32>,
    ) -> (r: Option<String>)
        ensures
            r is Some <==> spec_request_url(
                Self::API_URL@ + "Documents?"@,
                spec_apply_params(
                    date_view(date_from),
                    date_view(date_to),
                    doc_types.deep_view(),
                    authorities_view(signatory_authority),
                    None,
                    page_number,
                ),
            ) is Some,
            r matches Some(u) ==> spec_request_url(
                Self::API_URL@ + "Documents?"@,
                spec_apply_params(
                    date_view(date_from),
                    date_view(date_to),
                    doc_types.deep_view(),
                    authorities_view(signatory_authority),
                    None,
                    page_number,
                ),
            ) == Some(u@),
    {
        Self::get_documents_url(date_from, date_to, doc_types, signatory_authority, page_number, None)
    }

    /// The address of the PDF file of a document: `file/pdf?eoNumber=...`.
    pub fn get_pdf_by_eo_number_url(eo_number: &str) -> (r: Option<String>)
        ensures
            r is Some <==> spec_request_url(
                Self::BASE_URL@ + "file/pdf?"@,
                seq![("eoNumber"@, eo_number@)],
            ) is Some,
            r matches Some(u) ==> spec_request_url(
                Self::BASE_URL@ + "file/pdf?"@,
                seq![("eoNumber"@, eo_number@)],
            ) == Some(u@),
    {
        let base = concat_str(Self::BASE_URL, "file/pdf?");
        let mut params: Vec<(String, String)> = Vec::new();
        push_pair(&mut params, "eoNumber", eo_number.to_owned());
        proof {
            assert(params.deep_view() =~= seq![("eoNumber"@, eo_number@)]);
        }
        request_url(base.as_str(), &params)
    }

    /// The address of the image of one page: `GetImage?documentId=...&pageNumber=...`.
    pub fn get_image_by_id_url(id: &str, page: u32) -> (r: Option<String>)
        ensures
            r is Some <==> spec_request_url(
                Self::BASE_URL@ + "GetImage?"@,
                seq![("documentId"@, id@), ("pageNumber"@, decimal(page as nat))],
            ) is Some,
            r matches Some(u) ==> spec_request_url(
                Self::BASE_URL@ + "GetImage?"@,
                seq![("documentId"@, id@), ("pageNumber"@, decimal(page as nat))],
            ) == Some(u@),
    {
        let base = concat_str(Self::BASE_URL, "GetImage?");
        let mut params: Vec<(String, String)> = Vec::new();
        push_pair(&mut params, "documentId", id.to_owned());
        push_pair(&mut params, "pageNumber", decimal_string(page));
        proof {
            assert(params.deep_view() =~= seq![
                ("documentId"@, id@),
                ("pageNumber"@, decimal(page as nat)),
            ]);
        }
        request_url(base.as_str(), &params)
    }

    /// The address of the first card of one authority and one kind of
    /// document: one card a page, page 1.
    pub fn get_first_document_url(sa: &str, doc_type: &str) -> (r: Option<String>)
        ensures
            r is Some <==> spec_request_url(
                Self::API_URL@ + "Documents?"@,
                spec_apply_params(None, None, seq![doc_type@], Some(seq![sa@]), Some(1), Some(1)),
            ) is Some,
            r matches Some(u) ==> spec_request_url(
                Self::API_URL@ + "Documents?"@,
                spec_apply_params(None, None, seq![doc_type@], Some(seq![sa@]), Some(1), Some(1)),
            ) == Some(u@),
    {
        let doc_types = vec![doc_type.to_owned()];
        let authorities = vec![sa.to_owned()];
        proof {
            assert(doc_types.deep_view() =~= seq![doc_type@]);
            assert(authorities.deep_view() =~= seq![sa@]);
        }
        Self::get_documents_url(
            None,
            None,
            doc_types.as_slice(),
            Some(authorities.as_slice()),
            Some(1),
            Some(1),
        )
    }

    /// The address of the card of the document with number of publication
    /// `eo_number`: `api/Document?eoNumber=...`.
    pub fn get_document_by_eo_number_url(eo_number: &str) -> (r: Option<String>)
        ensures
            r is Some <==> spec_request_url(
                Self::API_URL@ + "Document?"@,
                seq![("eoNumber"@, eo_number@)],
            ) is Some,
            r matches Some(u) ==> spec_request_url(
                Self::API_URL@ + "Document?"@,
                seq![("eoNumber"@, eo_number@)],
            ) == Some(u@),
    {
        let base = concat_str(Self::API_URL, "Document?");
        let mut params: Vec<(String, String)> = Vec::new();
        push_pair(&mut params, "eoNumber", eo_number.to_owned());
        proof {
            assert(params.deep_view() =~= seq![("eoNumber"@, eo_number@)]);
        }
        request_url(base.as_str(), &params)
    }

    /// The address of the full card of the document with GUID `id`:
    /// `api/Document?id=...`.
    pub fn get_extended_document_card_url(id: &str) -> (r: Option<String>)
        ensures
            r is Some <==> spec_request_url(Self::API_URL@ + "Document?"@, seq![("id"@, id@)])
                is Some,
            r matches Some(u) ==> spec_request_url(
                Self::API_URL@ + "Document?"@,
                seq![("id"@, id@)],
            ) == Some(u@),
    {
        let base = concat_str(Self::API_URL, "Document?");
        let mut params: Vec<(String, String)> = Vec::new();
        push_pair(&mut params, "id", id.to_owned());
        proof {
            assert(params.deep_view() =~= seq![("id"@, id@)]);
        }
        request_url(base.as_str(), &params)
    }

    /// The address of the list of signing authorities, without a query.
    pub fn get_signatory_authorites_url() -> (r: Option<String>)
        ensures
            r is Some <==> spec_request_url(
                Self::API_URL@ + "SignatoryAuthorities"@,
                Seq::empty(),
            ) is Some,
            r matches Some(u) ==> spec_request_url(
                Self::API_URL@ + "SignatoryAuthorities"@,
                Seq::empty(),
            ) == Some(u@),
    {
        let base = concat_str(Self::API_URL, "SignatoryAuthorities");
        let params: Vec<(String, String)> = Vec::new();
        proof {
            assert(params.deep_view() =~= Seq::<(Seq<char>, Seq<char>)>::empty());
        }
        request_url(base.as_str(), &params)
    }

    /// The address of the list of kinds of documents, of one authority when
    /// one is given.
    pub fn get_documents_types_url(signatory_authority: Option<&str>) -> (r: Option<String>)
        ensures
            ({
                let pairs = match signatory_authority {
                    Some(sa) => seq![("SignatoryAuthorityId"@, sa@)],
                    None => Seq::empty(),
                };
                &&& r is Some <==> spec_request_url(Self::API_URL@ + "DocumentTypes"@, pairs) is Some
                &&& r matches Some(u) ==> spec_request_url(Self::API_URL@ + "DocumentTypes"@, pairs)
                    == Some(u@)
            }),
    {
        let base = concat_str(Self::API_URL, "DocumentTypes");
        let mut params: Vec<(String, String)> = Vec::new();
        if let Some(sa) = signatory_authority {
            push_pair(&mut params, "SignatoryAuthorityId", sa.to_owned());
        }
        proof {
            let pairs = match signatory_authority {
                Some(sa) => seq![("SignatoryAuthorityId"@, sa@)],
                None => Seq::<(Seq<char>, Seq<char>)>::empty(),
            };
            assert(params.deep_view() =~= pairs);
        }
        request_url(base.as_str(), &params)
    }
}

} // verus!
