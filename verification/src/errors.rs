//! The error type of the crate, and the error document that the API sends.

use vstd::prelude::*;
use vstd::std_specs::convert::FromSpecImpl;

verus! {

/// The error of `serde_json`, carried and not read.
#[verifier::external_type_specification]
#[verifier::external_body]
pub struct ExSerdeJsonError(serde_json::Error);

/// The error of the serializer of `serde_urlencoded`, carried and not read.
#[verifier::external_type_specification]
#[verifier::external_body]
pub struct ExUrlEncodedError(serde_urlencoded::ser::Error);

/// The error of `reqwest`, carried and not read.
#[verifier::external_type_specification]
#[verifier::external_body]
pub struct ExHttpError(reqwest::Error);

/// The error of `std::io`, carried and not read.
#[verifier::external_type_specification]
#[verifier::external_body]
pub struct ExIoError(std::io::Error);

/// The error of the parser of `url`, carried and not read.
#[verifier::external_type_specification]
#[verifier::external_body]
pub struct ExUrlParseError(url::ParseError);

/// The error of the serializer of `toml`, carried and not read.
#[verifier::external_type_specification]
#[verifier::external_body]
pub struct ExTomlSerError(toml::ser::Error);

/// The error of the deserializer of `toml`, carried and not read.
#[verifier::external_type_specification]
#[verifier::external_body]
pub struct ExTomlDeError(toml::de::Error);

/// The error of `HeaderValue::to_str` of `reqwest`, carried and not read.
#[verifier::external_type_specification]
#[verifier::external_body]
pub struct ExHeaderStrError(reqwest::header::ToStrError);

/// The error of `hyper_old_types`, carried and not read.
#[verifier::external_type_specification]
#[verifier::external_body]
pub struct ExHeaderParseError(hyper_old_types::Error);

/// The error of `serde_qs`, carried and not read.
#[verifier::external_type_specification]
#[verifier::external_body]
pub struct ExQueryStringError(serde_qs::Error);

/// Error document returned by the API in place of the entity that was asked for.
#[derive(Clone, Debug)]
pub struct ApiError {
    /// The type of error.
    pub error: Option<String>,
    /// The description of the error.
    pub error_description: Option<String>,
}

/// Everything that can go wrong in this crate.
#[derive(Debug)]
pub enum MastodonError {
    /// Error from the API: something is wrong with the authentication or the data.
    Api(ApiError),
    /// A JSON document could not be decoded.
    Serde(serde_json::Error),
    /// A value could not be written as a url-encoded string.
    UrlEncoded(serde_urlencoded::ser::Error),
    /// A value could not be written as a query string.
    QueryString(serde_qs::Error),
    /// The HTTP backend failed while requesting a route.
    Http(reqwest::Error),
    /// An input or output operation failed.
    Io(std::io::Error),
    /// A URL could not be parsed.
    Url(url::ParseError),
    /// Missing client id.
    ClientIdRequired,
    /// Missing client secret.
    ClientSecretRequired,
    /// Missing access token.
    AccessTokenRequired,
    /// The server answered with a status in 400..=499; the number is that status.
    Client(u16),
    /// The server answered with a status in 500..=599; the number is that status.
    Server(u16),
    /// A client was built without its data.
    DataMissing,
    /// A builder was finished without the named field.
    MissingField(&'static str),
    /// A value could not be written as TOML.
    TomlSer(toml::ser::Error),
    /// A TOML document could not be decoded.
    TomlDe(toml::de::Error),
    /// An HTTP header value is not text.
    HeaderStrError(reqwest::header::ToStrError),
    /// The `Link` header could not be parsed.
    HeaderParseError(hyper_old_types::Error),
    /// A streaming frame names an event that needs a payload, and has none.
    MissingData,
    /// A streaming frame names an event that this crate does not know.
    UnknownEvent(String),
    /// Any other failure, described in words.
    Other(String),
}

/// The text that describes an API error: its description if it has one, else
/// its type, else a fixed phrase.
pub open spec fn api_description(e: ApiError) -> Seq<char> {
    match e.error_description {
        Some(d) => d@,
        None => match e.error {
            Some(t) => t@,
            None => "Unknown API Error"@,
        },
    }
}

/// The reason phrase that HTTP registers for a status code, if it registers one.
pub uninterp spec fn status_reason(code: u16) -> Option<Seq<char>>;

/// Calls `StatusCode::from_u16` and `StatusCode::canonical_reason` of the `http`
/// crate: the registered reason phrase of `code`, which depends on `code` alone,
/// and `None` where `code` is no status code or has no registered phrase.
#[verifier::external_body]
fn canonical_reason(code: u16) -> (r: Option<String>)
    ensures
        r is Some <==> status_reason(code) is Some,
        r is Some ==> r->0@ == status_reason(code)->0,
{
    reqwest::StatusCode::from_u16(code).ok().and_then(|s| s.canonical_reason()).map(String::from)
}

/// Calls `to_string` of `std` on an error of `serde_json`: the text that its
/// `Display` writes, of which nothing is claimed.
#[verifier::external_body]
fn json_error_text(e: &serde_json::Error) -> (r: String) {
    e.to_string()
}

/// Calls `to_string` of `std` on an error of the serializer of
/// `serde_urlencoded`: the text that its `Display` writes, of which nothing is
/// claimed.
#[verifier::external_body]
fn url_encoded_error_text(e: &serde_urlencoded::ser::Error) -> (r: String) {
    e.to_string()
}

/// Calls `to_string` of `std` on an error of `serde_qs`: the text that its
/// `Display` writes, of which nothing is claimed.
#[verifier::external_body]
fn query_string_error_text(e: &serde_qs::Error) -> (r: String) {
    e.to_string()
}

/// Calls `to_string` of `std` on an error of `reqwest`: the text that its
/// `Display` writes, of which nothing is claimed.
#[verifier::external_body]
fn http_error_text(e: &reqwest::Error) -> (r: String) {
    e.to_string()
}

/// Calls `to_string` of `std` on an error of `std::io`: the text that its
/// `Display` writes, of which nothing is claimed.
#[verifier::external_body]
fn io_error_text(e: &std::io::Error) -> (r: String) {
    e.to_string()
}

/// Calls `to_string` of `std` on an error of the parser of `url`: the text
/// that its `Display` writes, of which nothing is claimed.
#[verifier::external_body]
fn url_error_text(e: &url::ParseError) -> (r: String) {
    e.to_string()
}

/// Writes an error of the serializer of `toml` with its `Debug`, which names
/// the variant; its `Display` is not called, since it does not return for
/// every variant. Nothing is claimed of the text.
#[verifier::external_body]
fn toml_ser_error_text(e: &toml::ser::Error) -> (r: String) {
    format!("{:?}", e)
}

/// Calls `to_string` of `std` on an error of the deserializer of `toml`: the
/// text that its `Display` writes, of which nothing is claimed.
#[verifier::external_body]
fn toml_de_error_text(e: &toml::de::Error) -> (r: String) {
    e.to_string()
}

/// Calls `to_string` of `std` on the error of `HeaderValue::to_str`: the text
/// that its `Display` writes, of which nothing is claimed.
#[verifier::external_body]
fn header_str_error_text(e: &reqwest::header::ToStrError) -> (r: String) {
    e.to_string()
}

/// Calls `to_string` of `std` on an error of `hyper_old_types`: the text that
/// its `Display` writes, of which nothing is claimed.
#[verifier::external_body]
fn header_parse_error_text(e: &hyper_old_types::Error) -> (r: String) {
    e.to_string()
}

impl ApiError {
    /// The text that describes this error.
    pub fn description(&self) -> (r: String)
        ensures
            r@ == api_description(*self),
    {
        match &self.error_description {
            Some(d) => d.clone(),
            None => match &self.error {
                Some(t) => t.clone(),
                None => String::from_str("Unknown API Error"),
            },
        }
    }
}

impl MastodonError {
    /// Whether this error wraps the error value of another crate.
    pub open spec fn carries_outside_error(&self) -> bool {
        ||| self is Serde
        ||| self is UrlEncoded
        ||| self is QueryString
        ||| self is Http
        ||| self is Io
        ||| self is Url
        ||| self is TomlSer
        ||| self is TomlDe
        ||| self is HeaderStrError
        ||| self is HeaderParseError
    }

    /// The description of an error that carries no error of another crate.
    pub open spec fn own_description(&self) -> Seq<char> {
        match self {
            MastodonError::Api(e) => api_description(*e),
            MastodonError::Client(code) | MastodonError::Server(code) => match status_reason(*code) {
                Some(reason) => reason,
                None => "Unknown Status code"@,
            },
            MastodonError::ClientIdRequired => "ClientIdRequired"@,
            MastodonError::ClientSecretRequired => "ClientSecretRequired"@,
            MastodonError::AccessTokenRequired => "AccessTokenRequired"@,
            MastodonError::DataMissing => "DataMissing"@,
            MastodonError::MissingField(_) => "MissingField"@,
            MastodonError::MissingData => "MissingData"@,
            MastodonError::UnknownEvent(_) => "UnknownEvent"@,
            MastodonError::Other(text) => text@,
            _ => Seq::empty(),
        }
    }

    /// A short description of the error. For an error that another crate
    /// raised, the text is the one that the crate writes for it; for an error
    /// of the serializer of `toml`, it is the name of the error.
    pub fn description(&self) -> (r: String)
        ensures
            !self.carries_outside_error() ==> r@ == self.own_description(),
    {
        match self {
            MastodonError::Api(e) => e.description(),
            MastodonError::Client(code) => match canonical_reason(*code) {
                Some(reason) => reason,
                None => String::from_str("Unknown Status code"),
            },
            MastodonError::Server(code) => match canonical_reason(*code) {
                Some(reason) => reason,
                None => String::from_str("Unknown Status code"),
            },
            MastodonError::ClientIdRequired => String::from_str("ClientIdRequired"),
            MastodonError::ClientSecretRequired => String::from_str("ClientSecretRequired"),
            MastodonError::AccessTokenRequired => String::from_str("AccessTokenRequired"),
            MastodonError::DataMissing => String::from_str("DataMissing"),
            MastodonError::MissingField(_) => String::from_str("MissingField"),
            MastodonError::MissingData => String::from_str("MissingData"),
            MastodonError::UnknownEvent(_) => String::from_str("UnknownEvent"),
            MastodonError::Other(text) => text.clone(),
            MastodonError::Serde(e) => json_error_text(e),
            MastodonError::UrlEncoded(e) => url_encoded_error_text(e),
            MastodonError::QueryString(e) => query_string_error_text(e),
            MastodonError::Http(e) => http_error_text(e),
            MastodonError::Io(e) => io_error_text(e),
            MastodonError::Url(e) => url_error_text(e),
            MastodonError::TomlSer(e) => toml_ser_error_text(e),
            MastodonError::TomlDe(e) => toml_de_error_text(e),
            MastodonError::HeaderStrError(e) => header_str_error_text(e),
            MastodonError::HeaderParseError(e) => header_parse_error_text(e),
        }
    }
}

/// Which failure a response status stands for, if any.
pub open spec fn status_error(code: u16) -> Option<MastodonError> {
    if 400 <= code <= 499 {
        Some(MastodonError::Client(code))
    } else if 500 <= code <= 599 {
        Some(MastodonError::Server(code))
    } else {
        None
    }
}

/// Turns the status of a response into the error it stands for: a client error
/// for 400..=499, a server error for 500..=599, and none otherwise.
pub fn check_status(code: u16) -> (r: Result<(), MastodonError>)
    ensures
        match status_error(code) {
            Some(e) => r == Err::<(), MastodonError>(e),
            None => r is Ok,
        },
{
    if 400 <= code && code <= 499 {
        Err(MastodonError::Client(code))
    } else if 500 <= code && code <= 599 {
        Err(MastodonError::Server(code))
    } else {
        Ok(())
    }
}

impl From<ApiError> for MastodonError {
    fn from(e: ApiError) -> (r: MastodonError) {
        MastodonError::Api(e)
    }
}

impl FromSpecImpl<ApiError> for MastodonError {
    open spec fn obeys_from_spec() -> bool {
        true
    }

    open spec fn from_spec(e: ApiError) -> MastodonError {
        MastodonError::Api(e)
    }
}

impl From<serde_json::Error> for MastodonError {
    fn from(e: serde_json::Error) -> (r: MastodonError) {
        MastodonError::Serde(e)
    }
}

impl FromSpecImpl<serde_json::Error> for MastodonError {
    open spec fn obeys_from_spec() -> bool {
        true
    }

    open spec fn from_spec(e: serde_json::Error) -> MastodonError {
        MastodonError::Serde(e)
    }
}

impl From<serde_urlencoded::ser::Error> for MastodonError {
    fn from(e: serde_urlencoded::ser::Error) -> (r: MastodonError) {
        MastodonError::UrlEncoded(e)
    }
}

impl FromSpecImpl<serde_urlencoded::ser::Error> for MastodonError {
    open spec fn obeys_from_spec() -> bool {
        true
    }

    open spec fn from_spec(e: serde_urlencoded::ser::Error) -> MastodonError {
        MastodonError::UrlEncoded(e)
    }
}

impl From<serde_qs::Error> for MastodonError {
    fn from(e: serde_qs::Error) -> (r: MastodonError) {
        MastodonError::QueryString(e)
    }
}

impl FromSpecImpl<serde_qs::Error> for MastodonError {
    open spec fn obeys_from_spec() -> bool {
        true
    }

    open spec fn from_spec(e: serde_qs::Error) -> MastodonError {
        MastodonError::QueryString(e)
    }
}

impl From<reqwest::Error> for MastodonError {
    fn from(e: reqwest::Error) -> (r: MastodonError) {
        MastodonError::Http(e)
    }
}

impl FromSpecImpl<reqwest::Error> for MastodonError {
    open spec fn obeys_from_spec() -> bool {
        true
    }

    open spec fn from_spec(e: reqwest::Error) -> MastodonError {
        MastodonError::Http(e)
    }
}

impl From<std::io::Error> for MastodonError {
    fn from(e: std::io::Error) -> (r: MastodonError) {
        MastodonError::Io(e)
    }
}

impl FromSpecImpl<std::io::Error> for MastodonError {
    open spec fn obeys_from_spec() -> bool {
        true
    }

    open spec fn from_spec(e: std::io::Error) -> MastodonError {
        MastodonError::Io(e)
    }
}

impl From<url::ParseError> for MastodonError {
    fn from(e: url::ParseError) -> (r: MastodonError) {
        MastodonError::Url(e)
    }
}

impl FromSpecImpl<url::ParseError> for MastodonError {
    open spec fn obeys_from_spec() -> bool {
        true
    }

    open spec fn from_spec(e: url::ParseError) -> MastodonError {
        MastodonError::Url(e)
    }
}

impl From<toml::ser::Error> for MastodonError {
    fn from(e: toml::ser::Error) -> (r: MastodonError) {
        MastodonError::TomlSer(e)
    }
}

impl FromSpecImpl<toml::ser::Error> for MastodonError {
    open spec fn obeys_from_spec() -> bool {
        true
    }

    open spec fn from_spec(e: toml::ser::Error) -> MastodonError {
        MastodonError::TomlSer(e)
    }
}

impl From<toml::de::Error> for MastodonError {
    fn from(e: toml::de::Error) -> (r: MastodonError) {
        MastodonError::TomlDe(e)
    }
}

impl FromSpecImpl<toml::de::Error> for MastodonError {
    open spec fn obeys_from_spec() -> bool {
        true
    }

    open spec fn from_spec(e: toml::de::Error) -> MastodonError {
        MastodonError::TomlDe(e)
    }
}

impl From<reqwest::header::ToStrError> for MastodonError {
    fn from(e: reqwest::header::ToStrError) -> (r: MastodonError) {
        MastodonError::HeaderStrError(e)
    }
}

impl FromSpecImpl<reqwest::header::ToStrError> for MastodonError {
    open spec fn obeys_from_spec() -> bool {
        true
    }

    open spec fn from_spec(e: reqwest::header::ToStrError) -> MastodonError {
        MastodonError::HeaderStrError(e)
    }
}

impl From<hyper_old_types::Error> for MastodonError {
    fn from(e: hyper_old_types::Error) -> (r: MastodonError) {
        MastodonError::HeaderParseError(e)
    }
}

impl FromSpecImpl<hyper_old_types::Error> for MastodonError {
    open spec fn obeys_from_spec() -> bool {
        true
    }

    open spec fn from_spec(e: hyper_old_types::Error) -> MastodonError {
        MastodonError::HeaderParseError(e)
    }
}

} // verus!
