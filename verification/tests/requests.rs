use publication_api::date::Date;
use publication_api::error::PublicationApiError;
use publication_api::deserialization::deserialize_date;
use publication_api::publication_api::{ApiRequest, ClientConfig, PublicationApi, API, SITE};
use publication_api::reqwest_client::ReqwestPublicationApiClient;

fn pairs(v: &[(&str, &str)]) -> Vec<(String, String)> {
    v.iter().map(|(a, b)| (a.to_string(), b.to_string())).collect()
}

#[test]
fn test_params() {
    let u = PublicationApi::get_params(
        &Date::parse("01.01.2024").unwrap(),
        Date::parse("13.12.2024").as_ref(),
        &["2dddb344-d3e2-4785-a899-7aa12bd47b6f".to_owned()],
        Some("3b24703c-c62f-4027-99ac-9eee99180df5".to_owned()).as_ref(),
        None,
    );
    assert_eq!(
        u,
        pairs(&[
            ("DocumentTypes", "2dddb344-d3e2-4785-a899-7aa12bd47b6f"),
            ("SignatoryAuthorityId", "3b24703c-c62f-4027-99ac-9eee99180df5"),
            ("DocumentDateFrom", "01.01.2024"),
            ("DocumentDateTo", "13.12.2024"),
            ("PageSize", "200"),
        ])
    );
}

#[test]
fn get_params_with_page_and_no_authority() {
    let u = PublicationApi::get_params(
        &Date::parse("01.04.2024").unwrap(),
        None,
        &["a".to_owned(), "b".to_owned()],
        None,
        Some(3),
    );
    assert_eq!(
        u,
        pairs(&[
            ("DocumentTypes", "a"),
            ("DocumentTypes", "b"),
            ("DocumentDateFrom", "01.04.2024"),
            ("PageSize", "200"),
            ("index", "3"),
        ])
    );
}

#[test]
fn code_error_check_keeps_body_of_ok() {
    let body = vec![1u8, 2, 3];
    assert_eq!(PublicationApi::code_error_check(200, body.clone()).unwrap(), body);
}

#[test]
fn code_error_check_names_the_status() {
    match PublicationApi::code_error_check(404, vec![]) {
        Err(PublicationApiError::ApiError(m)) => {
            assert_eq!(m, "Сервер ответил кодом 404 ожидался код 200")
        }
        other => panic!("unexpected {:?}", other),
    }
    assert!(PublicationApi::code_error_check(201, vec![]).is_err());
}

#[test]
fn error_messages() {
    let e = PublicationApiError::ApiError("x".to_owned());
    assert_eq!(e.message(), "Ошибка получения информации с api сервиса опубликования -> `x`");
    let e = PublicationApiError::SendError("svc".to_owned());
    assert_eq!(e.message(), "Ошибка подключения к сервису `svc` при отправке сообщения");
    let e = PublicationApiError::DeserializeError("bad json".to_owned());
    assert_eq!(e.message(), "bad json");
}

#[test]
fn headers_and_clients() {
    let h = PublicationApi::headers();
    assert_eq!(h.len(), 6);
    assert_eq!(h[0], ("host".to_owned(), "publication.pravo.gov.ru".to_owned()));
    assert_eq!(h[5], ("upgrade-insecure-requests".to_owned(), "1".to_owned()));
    let c = PublicationApi::client();
    assert_eq!((c.base_url.as_str(), c.connect_timeout_ms, c.request_timeout_ms, c.attempts), (API, 5000, 10000, 12));
    let c = PublicationApi::png_client();
    assert_eq!((c.base_url.as_str(), c.connect_timeout_ms, c.request_timeout_ms, c.attempts), (SITE, 300, 500, 15));
    let c = PublicationApi::pdf_client();
    assert_eq!((c.base_url.as_str(), c.connect_timeout_ms, c.request_timeout_ms, c.attempts), (SITE, 10000, 14000, 10));
}

#[test]
fn api_request_urls() {
    let r = PublicationApi::get_document_extended_card_request("2600202407050002");
    assert_eq!(r.url().unwrap(), "http://publication.pravo.gov.ru/api/Document?eoNumber=2600202407050002");
    let r = PublicationApi::get_documents_types_request();
    assert_eq!(r.url().unwrap(), "http://publication.pravo.gov.ru/api/DocumentTypes");
    let r = PublicationApi::get_image_by_id_request("dbf8d1c9-ed98-46ae-8cfb-1f7eb0fa066e", 1);
    assert_eq!(
        r.url().unwrap(),
        "http://publication.pravo.gov.ru/GetImage?documentId=dbf8d1c9-ed98-46ae-8cfb-1f7eb0fa066e&pageNumber=1"
    );
    let r = PublicationApi::get_pdf_by_eo_number_request("0001202308040071");
    assert_eq!(r.url().unwrap(), "http://publication.pravo.gov.ru/file/pdf?eoNumber=0001202308040071");
    let r = PublicationApi::get_first_document_request(
        "8d31525e-fafc-4590-8580-422f588d20c9",
        "2dddb344-d3e2-4785-a899-7aa12bd47b6f",
    );
    assert_eq!(
        r.url().unwrap(),
        "http://publication.pravo.gov.ru/api/Documents?SignatoryAuthorityId=8d31525e-fafc-4590-8580-422f588d20c9&DocumentTypes=2dddb344-d3e2-4785-a899-7aa12bd47b6f&pageSize=10&index=1"
    );
    let r = PublicationApi::get_documents_types_by_signatory_authority_request("8005d8c9-4b6d-48d3-861a-2a37e69fccb3");
    assert_eq!(r.params, pairs(&[("SignatoryAuthorityId", "8005d8c9-4b6d-48d3-861a-2a37e69fccb3")]));
    let r = PublicationApi::get_signatory_authorites_request();
    assert_eq!(r.path, "SignatoryAuthorities");
    assert!(r.params.is_empty());
}

#[test]
fn query_values_are_form_encoded() {
    let r = PublicationApi::get_document_extended_card_request("а б&c");
    assert_eq!(r.url().unwrap(), "http://publication.pravo.gov.ru/api/Document?eoNumber=%D0%B0+%D0%B1%26c");
}

#[test]
fn apply_params_defaults_page_size() {
    let d1 = Date::parse("01.01.2023").unwrap();
    let d2 = Date::parse("31.12.2023").unwrap();
    let types = vec!["t".to_owned()];
    let sa = vec!["s1".to_owned(), "s2".to_owned()];
    let p = ReqwestPublicationApiClient::apply_params(Some(&d1), Some(&d2), &types, Some(&sa), None, None);
    assert_eq!(
        p,
        pairs(&[
            ("DocumentTypes", "t"),
            ("SignatoryAuthorityId", "s1"),
            ("SignatoryAuthorityId", "s2"),
            ("DocumentDateFrom", "01.01.2023"),
            ("DocumentDateTo", "31.12.2023"),
            ("PageSize", "200"),
        ])
    );
    let p = ReqwestPublicationApiClient::apply_params(None, None, &[], None, Some(50), Some(2));
    assert_eq!(p, pairs(&[("PageSize", "50"), ("index", "2")]));
}

#[test]
fn reqwest_client_urls() {
    let d1 = Date::parse("01.01.2023").unwrap();
    let types = vec!["0790e34b-784b-4372-884e-3282622a24bd".to_owned()];
    let sa = vec!["225698f1-cfbc-4e42-9caa-32f9f7403211".to_owned()];
    let u = ReqwestPublicationApiClient::get_documents_url(Some(&d1), None, &types, Some(&sa), None, None).unwrap();
    assert_eq!(
        u,
        "http://publication.pravo.gov.ru/api/Documents?DocumentTypes=0790e34b-784b-4372-884e-3282622a24bd&SignatoryAuthorityId=225698f1-cfbc-4e42-9caa-32f9f7403211&DocumentDateFrom=01.01.2023&PageSize=200"
    );
    let u = ReqwestPublicationApiClient::get_documents_following_url(Some(&d1), None, &types, None, Some(4)).unwrap();
    assert_eq!(
        u,
        "http://publication.pravo.gov.ru/api/Documents?DocumentTypes=0790e34b-784b-4372-884e-3282622a24bd&DocumentDateFrom=01.01.2023&PageSize=200&index=4"
    );
    let u = ReqwestPublicationApiClient::get_first_document_url("sa", "dt").unwrap();
    assert_eq!(u, "http://publication.pravo.gov.ru/api/Documents?DocumentTypes=dt&SignatoryAuthorityId=sa&PageSize=1&index=1");
    let u = ReqwestPublicationApiClient::get_pdf_by_eo_number_url("0001202406220019").unwrap();
    assert_eq!(u, "http://publication.pravo.gov.ru/file/pdf?eoNumber=0001202406220019");
    let u = ReqwestPublicationApiClient::get_image_by_id_url("id1", 12).unwrap();
    assert_eq!(u, "http://publication.pravo.gov.ru/GetImage?documentId=id1&pageNumber=12");
    let u = ReqwestPublicationApiClient::get_document_by_eo_number_url("e").unwrap();
    assert_eq!(u, "http://publication.pravo.gov.ru/api/Document?eoNumber=e");
    let u = ReqwestPublicationApiClient::get_extended_document_card_url("g").unwrap();
    assert_eq!(u, "http://publication.pravo.gov.ru/api/Document?id=g");
    let u = ReqwestPublicationApiClient::get_signatory_authorites_url().unwrap();
    assert_eq!(u, "http://publication.pravo.gov.ru/api/SignatoryAuthorities");
    let u = ReqwestPublicationApiClient::get_documents_types_url(None).unwrap();
    assert_eq!(u, "http://publication.pravo.gov.ru/api/DocumentTypes");
    let u = ReqwestPublicationApiClient::get_documents_types_url(Some("x y")).unwrap();
    assert_eq!(u, "http://publication.pravo.gov.ru/api/DocumentTypes?SignatoryAuthorityId=x+y");
}

#[test]
fn reqwest_client_builds() {
    let c = ReqwestPublicationApiClient::new();
    let _ = c.http();
}

#[test]
fn request_url_is_normalized_by_the_parser() {
    let client = ClientConfig {
        base_url: "HTTP://Publication.PRAVO.gov.ru/api/".to_owned(),
        connect_timeout_ms: 1,
        request_timeout_ms: 1,
        attempts: 1,
    };
    let r = ApiRequest { client: client.clone(), path: "DocumentTypes".to_owned(), params: vec![] };
    assert_eq!(r.url().unwrap(), "http://publication.pravo.gov.ru/api/DocumentTypes");
    let r = ApiRequest {
        client: ClientConfig { base_url: "not an address".to_owned(), ..client },
        path: "x".to_owned(),
        params: pairs(&[("a", "b")]),
    };
    assert!(r.url().is_none());
}

#[test]
fn deserialize_date_messages() {
    assert_eq!(deserialize_date("22.06.2024").unwrap().format_dot_date(), "22.06.2024");
    assert_eq!(deserialize_date("22/06/2024").unwrap_err(), "Формат даты 22/06/2024 не поддерживается");
}
