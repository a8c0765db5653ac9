use publication_api::date::Date;
use publication_api::{
    DocumentType, ExtendedPublicationDocumentCard, PublicationDocumentCard, SearchResult,
    SignatoryAuthority,
};
use publication_api::paging::Pagination;
use publication_api::parsers::prezident_ukaz::PrezidentUkaz;
use publication_api::parsers::Extractor;
use publication_api::publication_api::PublicationApi;

fn card(eo: &str, pages: u32) -> PublicationDocumentCard {
    PublicationDocumentCard {
        eo_number: eo.to_owned(),
        has_svg: false,
        zip_file_length: None,
        publish_date_short: Date::parse("2024-06-22T00:00:00").unwrap(),
        complex_name: "Федеральный закон от 22.06.2024 № 160-ФЗ".to_owned(),
        pages_count: pages,
        curr_page: 0,
        pdf_file_length: 169841,
        jd_reg_number: None,
        jd_reg_date: None,
        title: "Федеральный закон".to_owned(),
        view_date: Date::parse("2024-06-22T00:00:00").unwrap(),
        id: "118e71c6-7e90-495c-9afb-56b38edea17a".to_owned(),
        signatory_authority_id: "".to_owned(),
        document_type_id: "".to_owned(),
        document_date: Date::parse("2024-06-22T00:00:00").unwrap(),
        number: "123".to_owned(),
    }
}

fn page(current: u32, total: u32, eos: &[&str]) -> SearchResult {
    SearchResult {
        items: eos.iter().map(|e| card(e, 1)).collect(),
        items_total_count: 0,
        items_per_page: 200,
        current_page: current,
        pages_total_count: total,
    }
}

fn eo_numbers(v: &[PublicationDocumentCard]) -> Vec<String> {
    v.iter().map(|c| c.eo_number.clone()).collect()
}

#[test]
fn test_prez() {
    let cards = vec![card("1", 1)];
    let p = <PrezidentUkaz as Extractor>::from(&cards);
    assert!(p.get_numbers().is_empty());
    assert!(p.get_skip_numbers().is_empty());
    assert_eq!(<PrezidentUkaz as Extractor>::SIGNATORY, "225698f1-cfbc-4e42-9caa-32f9f7403211");
    assert_eq!(<PrezidentUkaz as Extractor>::TYPE_ID, "0790e34b-784b-4372-884e-3282622a24bd");
}

#[test]
fn pagination_walks_all_pages() {
    let (mut p, progress) = Pagination::start(page(1, 4, &["a", "b"]));
    assert_eq!(progress, 25);
    let mut asked = Vec::new();
    let mut reported = Vec::new();
    while let Some(n) = p.next_page() {
        asked.push(n);
        let name = format!("p{}", n);
        reported.push(p.record_page(page(n, 4, &[&name])));
    }
    assert_eq!(asked, vec![2, 3, 4]);
    assert_eq!(reported, vec![50, 75, 100]);
    assert_eq!(eo_numbers(&p.into_items()), vec!["a", "b", "p2", "p3", "p4"]);
}

#[test]
fn pagination_single_page() {
    let (p, progress) = Pagination::start(page(1, 0, &["a"]));
    assert_eq!(progress, 100);
    assert_eq!(p.next_page(), None);
    let (p, progress) = Pagination::start(page(1, 1, &[]));
    assert_eq!(progress, 100);
    assert_eq!(p.next_page(), None);
    assert!(p.into_items().is_empty());
}

#[test]
fn pagination_progress_rounds_down() {
    let (mut p, progress) = Pagination::start(page(1, 3, &[]));
    assert_eq!(progress, 33);
    assert_eq!(p.next_page(), Some(2));
    assert_eq!(p.record_page(page(2, 3, &[])), 66);
    assert_eq!(p.record_page(page(3, 3, &[])), 99);
    assert_eq!(p.next_page(), None);
    let (_, progress) = Pagination::start(page(1, 150, &[]));
    assert_eq!(progress, 0);
}

#[test]
fn pagination_starting_from_later_page() {
    let (p, _) = Pagination::start(page(5, 3, &[]));
    assert_eq!(p.next_page(), None);
    let (p, _) = Pagination::start(page(0, 2, &[]));
    assert_eq!(p.next_page(), Some(1));
}

#[test]
fn next_image_walks_pages_in_order() {
    let mut d = card("0001202406220019", 3);
    let mut pages = Vec::new();
    while let Some(n) = d.next_image_page() {
        pages.push(n);
        d.image_page_fetched();
    }
    assert_eq!(pages, vec![1, 2, 3]);
    assert_eq!(d.curr_page, 4);
    assert_eq!(d.next_image_page(), None);
}

#[test]
fn next_image_of_document_without_pages() {
    let mut d = card("x", 0);
    assert_eq!(d.next_image_page(), None);
    assert_eq!(d.curr_page, 1);
}

#[test]
fn first_item_of_page() {
    assert!(PublicationApi::first_item(vec![]).is_none());
    let c = PublicationApi::first_item(vec![card("a", 1), card("b", 1)]).unwrap();
    assert_eq!(c.eo_number, "a");
}

#[test]
fn short_card_from_full_card() {
    let d = Date::parse("05.07.2024").unwrap();
    let full = ExtendedPublicationDocumentCard {
        id: "g".to_owned(),
        document_type: DocumentType { id: "t".to_owned(), weight: 1, name: "Указ".to_owned() },
        signatory_authorities: vec![SignatoryAuthority { id: "s".to_owned(), weight: 2, name: "П".to_owned() }],
        eo_number: "2600202407050002".to_owned(),
        zip_file_length: Some(10),
        has_svg: true,
        complex_name: "name".to_owned(),
        pages_count: 7,
        pdf_file_length: 99,
        jd_reg_number: Some(1234),
        jd_reg_date: Some("01.01.2024".to_owned()),
        name: None,
        number: "42".to_owned(),
        document_date: d,
        publish_date_short: d,
        view_date: d,
        signatory_authority_id: "s".to_owned(),
        document_type_id: "t".to_owned(),
    };
    let c = PublicationDocumentCard::from_extended(full);
    assert_eq!(c.eo_number, "2600202407050002");
    assert_eq!(c.jd_reg_number.as_deref(), Some("1234"));
    assert_eq!(c.title, "name");
    assert_eq!(c.curr_page, 0);
    assert_eq!(c.pages_count, 7);
    assert_eq!(c.publish_date_short.format_dot_date(), "05.07.2024");
}
