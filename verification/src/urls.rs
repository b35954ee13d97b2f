//! URLs, kept as text. Parsing and changing them is the work of the `url`
//! crate; what it returns is named here, so that the rest of the crate can
//! say what it builds.

use vstd::prelude::*;
use vstd::utf8::encode_utf8;
use crate::errors::MastodonError;

verus! {

/// The longest text, in bytes, that is handed to the `url` crate to change a
/// URL with. The crate counts the bytes of a URL in 32 bits; with every text
/// within this limit, no URL that it builds outgrows that, escaped as it may
/// be.
pub const URL_TEXT_LIMIT: usize = 0x0FFF_FFFF;

/// Whether a text is within the limit.
pub open spec fn short(text: Seq<char>) -> bool {
    encode_utf8(text).len() <= URL_TEXT_LIMIT
}

/// Whether `text` is within the limit.
pub fn is_short(text: &str) -> (r: bool)
    ensures
        r == short(text@),
{
    text.as_bytes().len() <= URL_TEXT_LIMIT
}

/// How building a URL ends.
pub enum UrlOutcome {
    /// This is the URL.
    Url(Seq<char>),
    /// A text that should be a URL is none.
    NotAUrl,
    /// A text is over the limit.
    TooLong,
}

/// Whether the result `r` is what the outcome `o` calls for.
pub open spec fn url_agrees(r: Result<String, MastodonError>, o: UrlOutcome) -> bool {
    match o {
        UrlOutcome::Url(url) => r matches Ok(u) && u@ == url,
        UrlOutcome::NotAUrl => r matches Err(MastodonError::Url(_)),
        UrlOutcome::TooLong => r matches Err(MastodonError::Other(text)) && text@
            == "URL too long"@,
    }
}

/// The outcome of a parse.
pub open spec fn parsed(url: Option<Seq<char>>) -> UrlOutcome {
    match url {
        Some(u) => UrlOutcome::Url(u),
        None => UrlOutcome::NotAUrl,
    }
}

/// The URL of `o` with the pair of `key` and `value` added to its query.
pub open spec fn then_pair(o: UrlOutcome, key: Seq<char>, value: Seq<char>) -> UrlOutcome {
    match o {
        UrlOutcome::Url(url) => if short(url) && short(key) && short(value) {
            parsed(url_with_pair(url, key, value))
        } else {
            UrlOutcome::TooLong
        },
        other => other,
    }
}

/// The URL of `o` with `query` as its query.
pub open spec fn then_query(o: UrlOutcome, query: Seq<char>) -> UrlOutcome {
    match o {
        UrlOutcome::Url(url) => if short(url) && short(query) {
            parsed(url_with_query(url, query))
        } else {
            UrlOutcome::TooLong
        },
        other => other,
    }
}

/// The URL that `text` is, in its normal form, or `None` where `text` is no
/// absolute URL.
pub uninterp spec fn url_parse(text: Seq<char>) -> Option<Seq<char>>;

/// The URL that the reference `reference` names when it is read at the URL
/// `base`, or `None` where either is in error.
pub uninterp spec fn url_join(base: Seq<char>, reference: Seq<char>) -> Option<Seq<char>>;

/// The URL `url` with the pair `key` and `value` added to the end of its
/// query, or `None` where `url` is no URL.
pub uninterp spec fn url_with_pair(url: Seq<char>, key: Seq<char>, value: Seq<char>) -> Option<
    Seq<char>,
>;

/// The scheme of the URL `url`, or `None` where `url` is no URL.
pub uninterp spec fn url_scheme(url: Seq<char>) -> Option<Seq<char>>;

/// The URL `url` with its scheme changed to `scheme`: `None` where `url` is no
/// URL, `Some(None)` where the change is refused.
pub uninterp spec fn url_with_scheme(url: Seq<char>, scheme: Seq<char>) -> Option<
    Option<Seq<char>>,
>;

/// The URL `url` with `query` in place of its query, or `None` where `url` is
/// no URL.
pub uninterp spec fn url_with_query(url: Seq<char>, query: Seq<char>) -> Option<Seq<char>>;

/// Calls `url::Url::parse` and hands the URL on as its text: the URL in the
/// form in which the `url` crate writes it, which depends on the input alone.
#[verifier::external_body]
pub(crate) fn parse_url(text: &str) -> (r: Result<String, url::ParseError>)
    ensures
        match r {
            Ok(url) => url_parse(text@) == Some(url@),
            Err(_) => url_parse(text@) is None,
        },
{
    Ok(url::Url::parse(text)?.into())
}

/// Calls `url::Url::join` on the URL that `base` parses to: the URL that
/// `reference` names there, as text, which depends on the two inputs alone.
#[verifier::external_body]
pub(crate) fn join_url(base: &str, reference: &str) -> (r: Result<String, url::ParseError>)
    ensures
        match r {
            Ok(url) => url_join(base@, reference@) == Some(url@),
            Err(_) => url_join(base@, reference@) is None,
        },
{
    Ok(url::Url::parse(base)?.join(reference)?.into())
}

/// Calls `url::Url::query_pairs_mut` and `append_pair` on the URL that `url`
/// parses to: that URL with one more pair in its query, as text, which depends
/// on the three inputs alone. The texts are bounded because `append_pair`
/// counts the bytes of the URL in 32 bits and does not return where they do
/// not fit.
#[verifier::external_body]
pub(crate) fn append_pair(url: &str, key: &str, value: &str) -> (r: Result<String, url::ParseError>)
    requires
        short(url@),
        short(key@),
        short(value@),
    ensures
        match r {
            Ok(changed) => url_with_pair(url@, key@, value@) == Some(changed@),
            Err(_) => url_with_pair(url@, key@, value@) is None,
        },
{
    let mut parsed = url::Url::parse(url)?;
    parsed.query_pairs_mut().append_pair(key, value);
    Ok(parsed.into())
}

/// Calls `url::Url::scheme` on the URL that `url` parses to: its scheme, which
/// depends on the input alone.
#[verifier::external_body]
pub(crate) fn scheme_of(url: &str) -> (r: Result<String, url::ParseError>)
    ensures
        match r {
            Ok(scheme) => url_scheme(url@) == Some(scheme@),
            Err(_) => url_scheme(url@) is None,
        },
{
    Ok(url::Url::parse(url)?.scheme().to_string())
}

/// Calls `url::Url::set_scheme` on the URL that `url` parses to: that URL
/// with the new scheme, as text, or `None` where the `url` crate refuses the
/// change; which of the two depends on the two inputs alone. The texts are
/// bounded because `set_scheme` counts the bytes of the URL in 32 bits and does
/// not return where they do not fit.
#[verifier::external_body]
pub(crate) fn change_scheme(url: &str, scheme: &str) -> (r: Result<Option<String>, url::ParseError>)
    requires
        short(url@),
        short(scheme@),
    ensures
        match r {
            Ok(Some(changed)) => url_with_scheme(url@, scheme@) == Some(Some(changed@)),
            Ok(None) => url_with_scheme(url@, scheme@) == Some(None::<Seq<char>>),
            Err(_) => url_with_scheme(url@, scheme@) is None,
        },
{
    let mut parsed = url::Url::parse(url)?;
    Ok(parsed.set_scheme(scheme).ok().map(|_| parsed.into()))
}

/// Calls `url::Url::set_query` on the URL that `url` parses to: that URL with
/// the new query, as text, which depends on the two inputs alone. The texts are
/// bounded because `set_query` counts the bytes of the URL in 32 bits and does
/// not return where they do not fit.
#[verifier::external_body]
pub(crate) fn replace_query(url: &str, query: &str) -> (r: Result<String, url::ParseError>)
    requires
        short(url@),
        short(query@),
    ensures
        match r {
            Ok(changed) => url_with_query(url@, query@) == Some(changed@),
            Err(_) => url_with_query(url@, query@) is None,
        },
{
    let mut parsed = url::Url::parse(url)?;
    parsed.set_query(Some(query));
    Ok(parsed.into())
}

/// The error of a text that is over the limit.
pub fn too_long() -> (r: MastodonError)
    ensures
        r matches MastodonError::Other(text) && text@ == "URL too long"@,
{
    MastodonError::Other(String::from_str("URL too long"))
}

/// Adds the pair of `key` and `value` to the query of `url`.
pub fn add_pair(url: &str, key: &str, value: &str) -> (r: Result<String, MastodonError>)
    ensures
        url_agrees(r, then_pair(UrlOutcome::Url(url@), key@, value@)),
{
    if !is_short(url) || !is_short(key) || !is_short(value) {
        return Err(too_long());
    }
    match append_pair(url, key, value) {
        Ok(changed) => Ok(changed),
        Err(e) => Err(MastodonError::Url(e)),
    }
}

/// Puts `query` in place of the query of `url`.
pub fn set_query(url: &str, query: &str) -> (r: Result<String, MastodonError>)
    ensures
        url_agrees(r, then_query(UrlOutcome::Url(url@), query@)),
{
    if !is_short(url) || !is_short(query) {
        return Err(too_long());
    }
    match replace_query(url, query) {
        Ok(changed) => Ok(changed),
        Err(e) => Err(MastodonError::Url(e)),
    }
}

} // verus!
