//! Requests, responses and paging logic for the Russian legal publication portal
//! (publication.pravo.gov.ru).

pub mod date;
pub mod deserialization;
pub mod document_type;
pub mod error;
pub mod models;
pub mod paging;
pub mod parsers;
pub mod publication_api;
pub mod query;
pub mod reqwest_client;
pub mod signatory_authority;
pub mod text;

pub use document_type::DocumentType;
pub use error::PublicationApiError;
pub use models::{ExtendedPublicationDocumentCard, PublicationDocumentCard, SearchResult};
pub use publication_api::PublicationApi;
pub use reqwest_client::ReqwestPublicationApiClient;
pub use signatory_authority::SignatoryAuthority;
