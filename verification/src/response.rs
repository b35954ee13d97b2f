//! Reading the body of a response: either the entity that was asked for, or
//! the error document that the API sends in its place.

use vstd::prelude::*;
use crate::errors::{ApiError, MastodonError};
use crate::json::{
    field_of, find_field, json_object, members_view, parse_json_object, FieldModel, JsonField,
    JsonMember, MemberModel,
};
use crate::text::opt_text;

verus! {

/// What an `ApiError` stands for.
pub struct ApiErrorModel {
    pub error: Option<Seq<char>>,
    pub error_description: Option<Seq<char>>,
}

impl View for ApiError {
    type V = ApiErrorModel;

    open spec fn view(&self) -> ApiErrorModel {
        ApiErrorModel {
            error: opt_text(self.error),
            error_description: opt_text(self.error_description),
        }
    }
}

/// A member that is a text or is left out: `Some(None)` where it is absent or
/// null, `Some(Some(text))` where it is a text, `None` where it is anything
/// else.
pub open spec fn optional_text(members: Seq<MemberModel>, key: Seq<char>) -> Option<
    Option<Seq<char>>,
> {
    match field_of(members, key) {
        None => Some(None),
        Some(FieldModel::Null) => Some(None),
        Some(FieldModel::Text(text)) => Some(Some(text)),
        Some(FieldModel::Other) => None,
    }
}

/// The error document that the members of a JSON object are: any object whose
/// `error` and `error_description`, where it has them, are texts or null.
pub open spec fn api_error_spec(members: Seq<MemberModel>) -> Option<ApiErrorModel> {
    match optional_text(members, "error"@) {
        None => None,
        Some(error) => match optional_text(members, "error_description"@) {
            None => None,
            Some(error_description) => Some(ApiErrorModel { error, error_description }),
        },
    }
}

/// The error document that the text `body` is, if it is one.
pub open spec fn api_error_in(body: Seq<char>) -> Option<ApiErrorModel> {
    match json_object(body) {
        None => None,
        Some(members) => api_error_spec(members),
    }
}

fn text_member(members: &Vec<JsonMember>, key: &str) -> (r: Option<Option<String>>)
    ensures
        match optional_text(members_view(members@), key@) {
            None => r is None,
            Some(text) => r matches Some(t) && opt_text(t) == text,
        },
{
    match find_field(members, key) {
        None => Some(None),
        Some(JsonField::Null) => Some(None),
        Some(JsonField::Text(text)) => Some(Some(text.clone())),
        Some(JsonField::Other) => None,
    }
}

/// The error document of a body, given the outcome of parsing the body as a
/// JSON object.
pub fn api_error_from(parsed: Result<Vec<JsonMember>, serde_json::Error>) -> (r: Option<ApiError>)
    ensures
        match parsed {
            Err(_) => r is None,
            Ok(members) => match api_error_spec(members_view(members@)) {
                Some(e) => r matches Some(a) && a@ == e,
                None => r is None,
            },
        },
{
    let members = match parsed {
        Ok(members) => members,
        Err(_) => {
            return None;
        },
    };
    let error = match text_member(&members, "error") {
        Some(text) => text,
        None => {
            return None;
        },
    };
    let error_description = match text_member(&members, "error_description") {
        Some(text) => text,
        None => {
            return None;
        },
    };
    Some(ApiError { error, error_description })
}

/// The error document that `body` is, if it is one.
pub fn api_error_of(body: &str) -> (r: Option<ApiError>)
    ensures
        match api_error_in(body@) {
            Some(e) => r matches Some(a) && a@ == e,
            None => r is None,
        },
{
    api_error_from(parse_json_object(body))
}

/// What reading a body comes to, given what decoding it as the entity gave
/// and the error document that the body is, if it is one. An entity that
/// decoded is the result. Else the error document is the error, and without
/// one the error of the decoding.
pub fn resolve<T>(decoded: Result<T, serde_json::Error>, fallback: Option<ApiError>) -> (r: Result<
    T,
    MastodonError,
>)
    ensures
        match decoded {
            Ok(entity) => r == Ok::<T, MastodonError>(entity),
            Err(e) => match fallback {
                Some(api) => r == Err::<T, MastodonError>(MastodonError::Api(api)),
                None => r == Err::<T, MastodonError>(MastodonError::Serde(e)),
            },
        },
{
    match decoded {
        Ok(entity) => Ok(entity),
        Err(e) => match fallback {
            Some(api) => Err(MastodonError::Api(api)),
            None => Err(MastodonError::Serde(e)),
        },
    }
}

/// Reads the body `body` of a response, given what decoding it as the entity
/// gave: the entity, or the error document that the body is, or the error of
/// the decoding.
pub fn deserialise<T>(decoded: Result<T, serde_json::Error>, body: &str) -> (r: Result<
    T,
    MastodonError,
>)
    ensures
        match decoded {
            Ok(entity) => r == Ok::<T, MastodonError>(entity),
            Err(e) => match api_error_in(body@) {
                Some(api) => r matches Err(MastodonError::Api(a)) && a@ == api,
                None => r == Err::<T, MastodonError>(MastodonError::Serde(e)),
            },
        },
{
    match decoded {
        Ok(entity) => Ok(entity),
        Err(e) => resolve(Err(e), api_error_of(body)),
    }
}

/// Which failure a response status stands for where a body is read only on
/// success: any status of a client error, of a server error, of a redirection
/// or of an interim response.
pub open spec fn status_refusal_spec(code: u16) -> Option<Seq<char>> {
    if 400 <= code <= 499 {
        Some("4xx status code"@)
    } else if 500 <= code <= 599 {
        Some("5xx status code"@)
    } else if (300 <= code <= 399) || (100 <= code <= 199) {
        Some("3xx or 1xx status code"@)
    } else {
        None
    }
}

/// Refuses the status of a response whose body is not to be read.
pub fn status_refusal(code: u16) -> (r: Result<(), MastodonError>)
    ensures
        match status_refusal_spec(code) {
            Some(text) => r matches Err(MastodonError::Other(t)) && t@ == text,
            None => r is Ok,
        },
{
    if 400 <= code && code <= 499 {
        Err(MastodonError::Other(String::from_str("4xx status code")))
    } else if 500 <= code && code <= 599 {
        Err(MastodonError::Other(String::from_str("5xx status code")))
    } else if (300 <= code && code <= 399) || (100 <= code && code <= 199) {
        Err(MastodonError::Other(String::from_str("3xx or 1xx status code")))
    } else {
        Ok(())
    }
}

/// How a request reaches a host.
#[derive(Clone, Copy, Debug, PartialEq, Eq, Structural)]
pub enum Transport {
    /// Over a plain connection.
    Plain,
    /// Over a TLS connection.
    Tls,
}

/// The transport of a scheme: plain for `http`, TLS for `https`, none for any
/// other.
pub open spec fn transport_spec(scheme: Seq<char>) -> Option<Transport> {
    if scheme == "http"@ {
        Some(Transport::Plain)
    } else if scheme == "https"@ {
        Some(Transport::Tls)
    } else {
        None
    }
}

/// The transport over which a URL with the scheme `scheme` is fetched.
pub fn transport_for(scheme: &str) -> (r: Result<Transport, MastodonError>)
    ensures
        match transport_spec(scheme@) {
            Some(t) => r == Ok::<Transport, MastodonError>(t),
            None => r matches Err(MastodonError::Other(text)) && text@ == "unsupported scheme '"@
                + scheme@ + "'"@,
        },
{
    if crate::text::str_eq(scheme, "http") {
        Ok(Transport::Plain)
    } else if crate::text::str_eq(scheme, "https") {
        Ok(Transport::Tls)
    } else {
        let mut text = String::from_str("unsupported scheme '");
        text.append(scheme);
        text.append("'");
        Err(MastodonError::Other(text))
    }
}

} // verus!
