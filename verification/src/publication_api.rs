//! The requests that the portal client sends, and the checks on what comes
//! back. The sending itself belongs to the caller: each function here says
//! what to ask for, with which client settings, and what an answer means.

use vstd::prelude::*;

use crate::date::{spec_format_dot_date, Date, DateParts};
use crate::error::PublicationApiError;
use crate::models::PublicationDocumentCard;
use crate::query::{push_pair, request_url, spec_request_url};
use crate::text::{concat_str, decimal, decimal_string};

verus! {

/// The portal's API.
pub const API: &'static str = "http://publication.pravo.gov.ru/api/";

/// The portal's site (images and PDF files).
pub const SITE: &'static str = "http://publication.pravo.gov.ru/";

/// How an HTTP client for the portal is set up: its base address, two
/// timeouts in milliseconds, and how many times a request is tried.
#[derive(Debug, Clone)]
pub struct ClientConfig {
    pub base_url: String,
    pub connect_timeout_ms: u64,
    pub request_timeout_ms: u64,
    pub attempts: u32,
}

/// A request to the portal: the client to send it with, the path below the
/// client's base address, and the query parameters in order.
#[derive(Debug, Clone)]
pub struct ApiRequest {
    pub client: ClientConfig,
    pub path: String,
    pub params: Vec<(String, String)>,
}

/// Client of the portal publication.pravo.gov.ru.
pub struct PublicationApi {}

/// The settings of the client for the API.
pub open spec fn is_api_client(c: ClientConfig) -> bool {
    &&& c.base_url@ == API@
    &&& c.connect_timeout_ms == 5000
    &&& c.request_timeout_ms == 10000
    &&& c.attempts == 12
}

/// The settings of the client for page images.
pub open spec fn is_png_client(c: ClientConfig) -> bool {
    &&& c.base_url@ == SITE@
    &&& c.connect_timeout_ms == 300
    &&& c.request_timeout_ms == 500
    &&& c.attempts == 15
}

/// The settings of the client for PDF files.
pub open spec fn is_pdf_client(c: ClientConfig) -> bool {
    &&& c.base_url@ == SITE@
    &&& c.connect_timeout_ms == 10000
    &&& c.request_timeout_ms == 14000
    &&& c.attempts == 10
}

/// The headers that every request carries.
pub open spec fn spec_headers() -> Seq<(Seq<char>, Seq<char>)> {
    seq![
        ("host"@, "publication.pravo.gov.ru"@),
        ("user-agent"@, "Mozilla/5.0 (X11; Linux x86_64; rv:133.0) Gecko/20100101 Firefox/133.0"@),
        ("accept"@, "text/html,application/xhtml+xml,application/xml;q=0.9,image/avif,image/webp,*/*;q=0.8"@),
        ("accept-encoding"@, "gzip, deflate"@),
        ("accept-language"@, "ru-RU,ru;q=0.8,en-US;q=0.5,en;q=0.3"@),
        ("upgrade-insecure-requests"@, "1"@),
    ]
}

/// The message of a refused request: the status code that came, and the one
/// that was expected.
pub open spec fn status_message(status: u16) -> Seq<char> {
    "Сервер ответил кодом "@ + decimal(status as nat) + " ожидался код 200"@
}

/// The pairs `(name, v)` for each `v` of `values`, in order.
pub open spec fn named(name: Seq<char>, values: Seq<Seq<char>>) -> Seq<(Seq<char>, Seq<char>)> {
    values.map_values(|v: Seq<char>| (name, v))
}

/// One pair `(name, v)` when there is a value, none otherwise.
pub open spec fn optional(name: Seq<char>, value: Option<Seq<char>>) -> Seq<(Seq<char>, Seq<char>)> {
    match value {
        Some(v) => seq![(name, v)],
        None => Seq::empty(),
    }
}

/// The dot-date form of an optional date.
pub open spec fn optional_date(d: Option<DateParts>) -> Option<Seq<char>> {
    match d {
        Some(p) => Some(spec_format_dot_date(p)),
        None => None,
    }
}

/// The decimal form of an optional number.
pub open spec fn optional_number(n: Option<u32>) -> Option<Seq<char>> {
    match n {
        Some(v) => Some(decimal(v as nat)),
        None => None,
    }
}

/// The view of an optional date.
pub open spec fn date_view(d: Option<&Date>) -> Option<DateParts> {
    match d {
        Some(x) => Some(x@),
        None => None,
    }
}

/// The query of a search for documents: the kinds of documents, the
/// authority, the first day of signing, the last day of signing, 200 cards
/// a page, and the page.
pub open spec fn spec_get_params(
    date_from: DateParts,
    date_to: Option<DateParts>,
    doc_types: Seq<Seq<char>>,
    signatory_authority: Option<Seq<char>>,
    page_number: Option<u32>,
) -> Seq<(Seq<char>, Seq<char>)> {
    named("DocumentTypes"@, doc_types) + optional("SignatoryAuthorityId"@, signatory_authority)
        + seq![("DocumentDateFrom"@, spec_format_dot_date(date_from))] + optional(
        "DocumentDateTo"@,
        optional_date(date_to),
    ) + seq![("PageSize"@, "200"@)] + optional("index"@, optional_number(page_number))
}

/// The names of the query parameters of a search are all different.
pub(crate) proof fn lemma_param_names_differ()
    ensures
        "DocumentTypes"@.len() == 13,
        "SignatoryAuthorityId"@.len() == 20,
        "DocumentDateFrom"@.len() == 16,
        "DocumentDateTo"@.len() == 14,
        "PageSize"@.len() == 8,
        "index"@.len() == 5,
{
    reveal_strlit("DocumentTypes");
    reveal_strlit("SignatoryAuthorityId");
    reveal_strlit("DocumentDateFrom");
    reveal_strlit("DocumentDateTo");
    reveal_strlit("PageSize");
    reveal_strlit("index");
}

/// In the query of a search, the pairs named `DocumentTypes` come first and
/// are exactly the kinds of documents asked for, in order; the pair
/// `SignatoryAuthorityId` is there exactly when an authority is given, with
/// that authority, whatever the page and the dates; the page size is always
/// 200; and the page is asked for by `index` exactly when a page is given.
pub proof fn lemma_get_params_pairs(
    date_from: DateParts,
    date_to: Option<DateParts>,
    doc_types: Seq<Seq<char>>,
    signatory_authority: Option<Seq<char>>,
    page_number: Option<u32>,
)
    ensures
        ({
            let q = spec_get_params(date_from, date_to, doc_types, signatory_authority, page_number);
            &&& forall|i: int| 0 <= i < doc_types.len() ==> #[trigger] q[i] == ("DocumentTypes"@, doc_types[i])
            &&& forall|j: int| 0 <= j < q.len() && (#[trigger] q[j]).0 == "DocumentTypes"@ ==> j < doc_types.len()
            &&& forall|v: Seq<char>| #[trigger] q.contains(("SignatoryAuthorityId"@, v)) <==> signatory_authority == Some(v)
            &&& q.contains(("PageSize"@, "200"@))
            &&& forall|v: Seq<char>| #[trigger] q.contains(("PageSize"@, v)) ==> v == "200"@
            &&& forall|v: Seq<char>| #[trigger] q.contains(("index"@, v)) <==> (page_number matches Some(p) && v == decimal(p as nat))
        }),
{
    lemma_param_names_differ();
    let q = spec_get_params(date_from, date_to, doc_types, signatory_authority, page_number);
    let a = named("DocumentTypes"@, doc_types);
    let o1 = optional("SignatoryAuthorityId"@, signatory_authority);
    let tail = seq![("DocumentDateFrom"@, spec_format_dot_date(date_from))] + optional(
        "DocumentDateTo"@,
        optional_date(date_to),
    ) + seq![("PageSize"@, "200"@)] + optional("index"@, optional_number(page_number));
    assert(q =~= a + (o1 + tail));
    let na = a.len() as int;
    let n1 = o1.len() as int;
    assert forall|k: int| 0 <= k < tail.len() implies {
        let n = (#[trigger] tail[k]).0;
        n == "DocumentDateFrom"@ || n == "DocumentDateTo"@ || n == "PageSize"@ || n == "index"@
    } by {}
    assert forall|k: int| 0 <= k < tail.len() && (#[trigger] tail[k]).0 == "PageSize"@ implies tail[k].1
        == "200"@ by {}
    assert forall|k: int| 0 <= k < tail.len() && (#[trigger] tail[k]).0 == "index"@ implies (
    page_number matches Some(p) && tail[k].1 == decimal(p as nat)) by {}
    assert forall|j: int| 0 <= j < q.len() implies {
        let e = #[trigger] q[j];
        &&& j < na ==> e == ("DocumentTypes"@, doc_types[j])
        &&& na <= j < na + n1 ==> e == o1[j - na]
        &&& na + n1 <= j ==> e == tail[j - na - n1]
    } by {}
    assert forall|j: int| 0 <= j < q.len() && (#[trigger] q[j]).0 == "DocumentTypes"@ implies j < na by {
        if na <= j < na + n1 {
            assert(o1[j - na].0 == "SignatoryAuthorityId"@);
        } else if na + n1 <= j {
            let e = tail[j - na - n1];
        }
    }
    assert forall|v: Seq<char>| #[trigger] q.contains(("SignatoryAuthorityId"@, v)) <==> signatory_authority
        == Some(v) by {
        if q.contains(("SignatoryAuthorityId"@, v)) {
            let j = choose|j: int| 0 <= j < q.len() && q[j] == ("SignatoryAuthorityId"@, v);
            if j < na {
            } else if j < na + n1 {
            } else {
                let e = tail[j - na - n1];
            }
        }
        if signatory_authority == Some(v) {
            assert(q[na] == ("SignatoryAuthorityId"@, v));
        }
    }
    let ips = n1 + 1 + optional("DocumentDateTo"@, optional_date(date_to)).len();
    assert(tail[ips - n1] == ("PageSize"@, "200"@));
    assert(q[na + ips] == ("PageSize"@, "200"@));
    assert forall|v: Seq<char>| #[trigger] q.contains(("PageSize"@, v)) implies v == "200"@ by {
        let j = choose|j: int| 0 <= j < q.len() && q[j] == ("PageSize"@, v);
        if j < na {
        } else if j < na + n1 {
        } else {
            let e = tail[j - na - n1];
        }
    }
    assert forall|v: Seq<char>| #[trigger] q.contains(("index"@, v)) <==> (page_number matches Some(p)
        && v == decimal(p as nat)) by {
        if q.contains(("index"@, v)) {
            let j = choose|j: int| 0 <= j < q.len() && q[j] == ("index"@, v);
            if j < na {
            } else if j < na + n1 {
            } else {
                let e = tail[j - na - n1];
            }
        }
        if page_number matches Some(p) && v == decimal(p as nat) {
            assert(q[q.len() - 1] == ("index"@, v));
        }
    }
}

/// Appends `(name, v)` for each `v` of `values`.
pub(crate) fn push_named(params: &mut Vec<(String, String)>, name: &str, values: &[String])
    ensures
        final(params).deep_view() == old(params).deep_view() + named(name@, values.deep_view()),
{
    let ghost start = params.deep_view();
    let mut i: usize = 0;
    while i < values.len()
        invariant
            i <= values.len(),
            params.deep_view() == start + named(name@, values.deep_view().take(i as int)),
        decreases values.len() - i,
    {
        push_pair(params, name, values[i].clone());
        proof {
            assert(values.deep_view().take(i + 1) =~= values.deep_view().take(i as int).push(
                values.deep_view()[i as int],
            ));
            assert(named(name@, values.deep_view().take(i + 1)) =~= named(
                name@,
                values.deep_view().take(i as int),
            ).push((name@, values[i as int]@)));
        }
        i = i + 1;
    }
    proof {
        assert(values.deep_view().take(values.len() as int) =~= values.deep_view());
    }
}

/// A client of the portal with its fixed settings.
fn config(base: &str, connect_timeout_ms: u64, request_timeout_ms: u64, attempts: u32) -> (c:
    ClientConfig)
    ensures
        c.base_url@ == base@,
        c.connect_timeout_ms == connect_timeout_ms,
        c.request_timeout_ms == request_timeout_ms,
        c.attempts == attempts,
{
    ClientConfig {
        base_url: base.to_owned(),
        connect_timeout_ms: connect_timeout_ms,
        request_timeout_ms: request_timeout_ms,
        attempts: attempts,
    }
}

/// A request with the given client, path and parameters.
fn request(client: ClientConfig, path: &str, params: Vec<(String, String)>) -> (r: ApiRequest)
    ensures
        r.client == client,
        r.path@ == path@,
        r.params == params,
{
    ApiRequest { client: client, path: path.to_owned(), params: params }
}

impl ApiRequest {
    /// The full address of the request: the client's base address, the path,
    /// and the parameters as its query (`None` when that is not an address).
    pub fn url(&self) -> (r: Option<String>)
        ensures
            r is Some <==> spec_request_url(self.client.base_url@ + self.path@, self.params.deep_view())
                is Some,
            r matches Some(u) ==> spec_request_url(
                self.client.base_url@ + self.path@,
                self.params.deep_view(),
            ) == Some(u@),
    {
        let base = concat_str(self.client.base_url.as_str(), self.path.as_str());
        request_url(base.as_str(), &self.params)
    }
}

impl PublicationApi {
    /// The client for the API: 5000 and 10000 ms, 12 attempts.
    pub fn client() -> (c: ClientConfig)
        ensures
            is_api_client(c),
    {
        config(API, 5000, 10000, 12)
    }

    /// The client for page images: 300 and 500 ms, 15 attempts.
    pub fn png_client() -> (c: ClientConfig)
        ensures
            is_png_client(c),
    {
        config(SITE, 300, 500, 15)
    }

    /// The client for PDF files: 10000 and 14000 ms, 10 attempts.
    pub fn pdf_client() -> (c: ClientConfig)
        ensures
            is_pdf_client(c),
    {
        config(SITE, 10000, 14000, 10)
    }

    /// The headers that every request carries, in order.
    pub fn headers() -> (h: Vec<(String, String)>)
        ensures
            h.deep_view() == spec_headers(),
    {
        let mut h: Vec<(String, String)> = Vec::new();
        push_pair(&mut h, "host", "publication.pravo.gov.ru".to_owned());
        push_pair(
            &mut h,
            "user-agent",
            "Mozilla/5.0 (X11; Linux x86_64; rv:133.0) Gecko/20100101 Firefox/133.0".to_owned(),
        );
        push_pair(
            &mut h,
            "accept",
            "text/html,application/xhtml+xml,application/xml;q=0.9,image/avif,image/webp,*/*;q=0.8".to_owned(),
        );
        push_pair(&mut h, "accept-encoding", "gzip, deflate".to_owned());
        push_pair(&mut h, "accept-language", "ru-RU,ru;q=0.8,en-US;q=0.5,en;q=0.3".to_owned());
        push_pair(&mut h, "upgrade-insecure-requests", "1".to_owned());
        proof {
            assert(h.deep_view() =~= spec_headers());
        }
        h
    }

    /// Checks that the portal answered with status 200: then the body is the
    /// answer; any other status is an `ApiError` that names it.
    pub fn code_error_check(status: u16, body: Vec<u8>) -> (r: Result<Vec<u8>, PublicationApiError>)
        ensures
            status == 200 ==> r == Ok::<Vec<u8>, PublicationApiError>(body),
            status != 200 ==> (r matches Err(PublicationApiError::ApiError(m)) && m@
                == status_message(status)),
    {
        if status != 200 {
            let code = decimal_string(status as u32);
            let mut e = concat_str("Сервер ответил кодом ", code.as_str());
            e.append(" ожидался код 200");
            Err(PublicationApiError::ApiError(e))
        } else {
            Ok(body)
        }
    }

    /// The query of a search for documents (see `spec_get_params`).
    pub fn get_params(
        date_from: &Date,
        date_to: Option<&Date>,
        doc_types: &[String],
        signatory_authority: Option<&String>,
        page_number: Option<u32>,
    ) -> (params: Vec<(String, String)>)
        ensures
            params.deep_view() == spec_get_params(
                date_from@,
                date_view(date_to),
                doc_types.deep_view(),
                match signatory_authority {
                    Some(s) => Some(s@),
                    None => None,
                },
                page_number,
            ),
    {
        let mut params: Vec<(String, String)> = Vec::new();
        push_named(&mut params, "DocumentTypes", doc_types);
        if let Some(sa) = signatory_authority {
            push_pair(&mut params, "SignatoryAuthorityId", sa.clone());
        }
        push_pair(&mut params, "DocumentDateFrom", date_from.format_dot_date());
        if let Some(dt) = date_to {
            push_pair(&mut params, "DocumentDateTo", dt.format_dot_date());
        }
        push_pair(&mut params, "PageSize", "200".to_owned());
        if let Some(pn) = page_number {
            push_pair(&mut params, "index", decimal_string(pn));
        }
        proof {
            let sa = match signatory_authority {
                Some(s) => Some(s@),
                None => None,
            };
            assert(params.deep_view() =~= spec_get_params(
                date_from@,
                date_view(date_to),
                doc_types.deep_view(),
                sa,
                page_number,
            ));
        }
        params
    }

    /// The search for documents (`Documents`) with the query of `get_params`.
    pub fn get_documents_request(
        date_from: &Date,
        date_to: Option<&Date>,
        doc_types: &[String],
        signatory_authority: Option<&String>,
        page_number: Option<u32>,
    ) -> (r: ApiRequest)
        ensures
            is_api_client(r.client),
            r.path@ == "Documents"@,
            r.params.deep_view() == spec_get_params(
                date_from@,
                date_view(date_to),
                doc_types.deep_view(),
                match signatory_authority {
                    Some(s) => Some(s@),
                    None => None,
                },
                page_number,
            ),
    {
        let params = Self::get_params(date_from, date_to, doc_types, signatory_authority, page_number);
        request(Self::client(), "Documents", params)
    }

    /// The list of kinds of documents (`DocumentTypes`), without a query.
    pub fn get_documents_types_request() -> (r: ApiRequest)
        ensures
            is_api_client(r.client),
            r.path@ == "DocumentTypes"@,
            r.params.deep_view() == Seq::<(Seq<char>, Seq<char>)>::empty(),
    {
        let params: Vec<(String, String)> = Vec::new();
        proof {
            assert(params.deep_view() =~= Seq::<(Seq<char>, Seq<char>)>::empty());
        }
        request(Self::client(), "DocumentTypes", params)
    }

    /// The kinds of documents of one signing authority (`DocumentTypes`).
    pub fn get_documents_types_by_signatory_authority_request(signatory_authority: &str) -> (r:
        ApiRequest)
        ensures
            is_api_client(r.client),
            r.path@ == "DocumentTypes"@,
            r.params.deep_view() == seq![("SignatoryAuthorityId"@, signatory_authority@)],
    {
        let mut params: Vec<(String, String)> = Vec::new();
        push_pair(&mut params, "SignatoryAuthorityId", signatory_authority.to_owned());
        request(Self::client(), "DocumentTypes", params)
    }

    /// The list of signing authorities (`SignatoryAuthorities`), without a query.
    pub fn get_signatory_authorites_request() -> (r: ApiRequest)
        ensures
            is_api_client(r.client),
            r.path@ == "SignatoryAuthorities"@,
            r.params.deep_view() == Seq::<(Seq<char>, Seq<char>)>::empty(),
    {
        let params: Vec<(String, String)> = Vec::new();
        proof {
            assert(params.deep_view() =~= Seq::<(Seq<char>, Seq<char>)>::empty());
        }
        request(Self::client(), "SignatoryAuthorities", params)
    }

    /// The full card of the document with number of publication `eo_number` (`Document`).
    pub fn get_document_extended_card_request(eo_number: &str) -> (r: ApiRequest)
        ensures
            is_api_client(r.client),
            r.path@ == "Document"@,
            r.params.deep_view() == seq![("eoNumber"@, eo_number@)],
    {
        let mut params: Vec<(String, String)> = Vec::new();
        push_pair(&mut params, "eoNumber", eo_number.to_owned());
        request(Self::client(), "Document", params)
    }

    /// The first page of ten cards of one authority and one kind of document.
    pub fn get_first_document_request(sa: &str, doc_type: &str) -> (r: ApiRequest)
        ensures
            is_api_client(r.client),
            r.path@ == "Documents"@,
            r.params.deep_view() == seq![
                ("SignatoryAuthorityId"@, sa@),
                ("DocumentTypes"@, doc_type@),
                ("pageSize"@, "10"@),
                ("index"@, "1"@),
            ],
    {
        let mut params: Vec<(String, String)> = Vec::new();
        push_pair(&mut params, "SignatoryAuthorityId", sa.to_owned());
        push_pair(&mut params, "DocumentTypes", doc_type.to_owned());
        push_pair(&mut params, "pageSize", "10".to_owned());
        push_pair(&mut params, "index", "1".to_owned());
        proof {
            assert(params.deep_view() =~= seq![
                ("SignatoryAuthorityId"@, sa@),
                ("DocumentTypes"@, doc_type@),
                ("pageSize"@, "10"@),
                ("index"@, "1"@),
            ]);
        }
        request(Self::client(), "Documents", params)
    }

    /// The first card of a page, if it has any.
    pub fn first_item(items: Vec<PublicationDocumentCard>) -> (r: Option<PublicationDocumentCard>)
        ensures
            r == (if items@.len() > 0 {
                Some(items@[0])
            } else {
                None
            }),
    {
        if items.len() > 0 {
            let mut items = items;
            Some(items.swap_remove(0))
        } else {
            None
        }
    }

    /// The image of page `page` of the document with GUID `id` (`GetImage`).
    pub fn get_image_by_id_request(id: &str, page: u32) -> (r: ApiRequest)
        ensures
            is_png_client(r.client),
            r.path@ == "GetImage"@,
            r.params.deep_view() == seq![("documentId"@, id@), ("pageNumber"@, decimal(page as nat))],
    {
        let mut params: Vec<(String, String)> = Vec::new();
        push_pair(&mut params, "documentId", id.to_owned());
        push_pair(&mut params, "pageNumber", decimal_string(page));
        proof {
            assert(params.deep_view() =~= seq![
                ("documentId"@, id@),
                ("pageNumber"@, decimal(page as nat)),
            ]);
        }
        request(Self::png_client(), "GetImage", params)
    }

    /// The PDF file of the document with number of publication `eo_number` (`file/pdf`).
    pub fn get_pdf_by_eo_number_request(eo_number: &str) -> (r: ApiRequest)
        ensures
            is_pdf_client(r.client),
            r.path@ == "file/pdf"@,
            r.params.deep_view() == seq![("eoNumber"@, eo_number@)],
    {
        let mut params: Vec<(String, String)> = Vec::new();
        push_pair(&mut params, "eoNumber", eo_number.to_owned());
        request(Self::pdf_client(), "file/pdf", params)
    }
}

} // verus!
