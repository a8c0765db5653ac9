//! Errors of the publication portal client.

use vstd::prelude::*;

use crate::text::concat_str;

verus! {

/// Why a request to the portal failed. The variants that wrap an error of
/// another library hold its message.
#[derive(Debug, Clone)]
pub enum PublicationApiError {
    /// The response body was not the JSON that was expected.
    DeserializeError(String),
    /// Reading or writing failed.
    IoError(String),
    /// The request could not be sent to the service named.
    SendError(String),
    /// The service answered, but not with success.
    ApiError(String),
    /// The HTTP helper layer failed.
    UtilitesError(String),
}

/// The message of each variant: wrapped errors show their own message.
pub open spec fn spec_error_message(e: PublicationApiError) -> Seq<char> {
    match e {
        PublicationApiError::DeserializeError(m) => m@,
        PublicationApiError::IoError(m) => m@,
        PublicationApiError::SendError(m) => "Ошибка подключения к сервису `"@ + m@
            + "` при отправке сообщения"@,
        PublicationApiError::ApiError(m) => "Ошибка получения информации с api сервиса опубликования -> `"@
            + m@ + "`"@,
        PublicationApiError::UtilitesError(m) => m@,
    }
}

impl PublicationApiError {
    /// The human-readable message of the error.
    pub fn message(&self) -> (s: String)
        ensures
            s@ == spec_error_message(*self),
    {
        match self {
            PublicationApiError::DeserializeError(m) => m.clone(),
            PublicationApiError::IoError(m) => m.clone(),
            PublicationApiError::SendError(m) => {
                let mut s = concat_str("Ошибка подключения к сервису `", m.as_str());
                s.append("` при отправке сообщения");
                s
            },
            PublicationApiError::ApiError(m) => {
                let mut s = concat_str(
                    "Ошибка получения информации с api сервиса опубликования -> `",
                    m.as_str(),
                );
                s.append("`");
                s
            },
            PublicationApiError::UtilitesError(m) => m.clone(),
        }
    }
}

} // verus!
