//! The URLs of the API: where a request goes, and where a stream is read.

use vstd::prelude::*;
use crate::errors::MastodonError;
use crate::text::str_eq;
use crate::urls::{
    add_pair, change_scheme, is_short, join_url, parse_url, parsed, scheme_of, set_query, short,
    then_pair, then_query, too_long, url_agrees, url_join, url_parse, url_scheme, url_with_scheme,
    UrlOutcome,
};

verus! {

/// The URL of the route `path` of the instance at `base`.
pub fn route(base: &str, path: &str) -> (r: String)
    ensures
        r@ == base@ + path@,
{
    let mut r = String::from_str(base);
    r.append(path);
    r
}

/// The URL of the timeline of a hashtag: of all instances that the server
/// knows, or of the server alone.
pub open spec fn hashtag_timeline_spec(base: Seq<char>, hashtag: Seq<char>, local: bool) -> Seq<char> {
    if local {
        base + "/api/v1/timelines/tag/"@ + hashtag + "?local=1"@
    } else {
        base + "/api/v1/timelines/tag/"@ + hashtag
    }
}

/// The URL of the timeline of a hashtag.
pub fn hashtag_timeline_url(base: &str, hashtag: &str, local: bool) -> (r: String)
    ensures
        r@ == hashtag_timeline_spec(base@, hashtag@, local),
{
    let mut r = String::from_str(base);
    r.append("/api/v1/timelines/tag/");
    r.append(hashtag);
    if local {
        r.append("?local=1");
    }
    r
}

/// The URL of the statuses of the account `id`, with the query `query` where
/// there is one.
pub fn statuses_url(base: &str, id: &str, query: Option<&str>) -> (r: String)
    ensures
        r@ == base@ + "/api/v1/accounts/"@ + id@ + "/statuses"@ + match query {
            Some(q) => q@,
            None => Seq::<char>::empty(),
        },
{
    let mut r = String::from_str(base);
    r.append("/api/v1/accounts/");
    r.append(id);
    r.append("/statuses");
    match query {
        Some(q) => {
            r.append(q);
        },
        None => {
            proof {
                assert(r@ + Seq::<char>::empty() =~= r@);
            }
        },
    }
    r
}

/// The URL of the filter `id`.
pub fn filter_url(base: &str, id: &str) -> (r: String)
    ensures
        r@ == base@ + "/api/v1/filters/"@ + id@,
{
    let mut r = String::from_str(base);
    r.append("/api/v1/filters/");
    r.append(id);
    r
}

/// The ids as pairs of an array parameter: `id[]=` and the id, with `&`
/// between two pairs.
pub open spec fn id_pairs(ids: Seq<Seq<char>>) -> Seq<char>
    decreases ids.len(),
{
    if ids.len() == 0 {
        Seq::empty()
    } else if ids.len() == 1 {
        "id[]="@ + ids[0]
    } else {
        id_pairs(ids.drop_last()) + "&"@ + "id[]="@ + ids.last()
    }
}

/// The query that asks for the relationships to the accounts `ids`: a plain
/// parameter for one id, an array parameter for several, nothing for none.
pub open spec fn relationships_query(ids: Seq<Seq<char>>) -> Seq<char> {
    if ids.len() == 1 {
        "?id="@ + ids[0]
    } else if ids.len() == 0 {
        Seq::empty()
    } else {
        "?"@ + id_pairs(ids)
    }
}

/// The texts of a list of ids.
pub open spec fn ids_view(ids: Seq<&str>) -> Seq<Seq<char>> {
    ids.map_values(|id: &str| id@)
}

/// The URL that asks for the relationships to the accounts `ids`.
pub fn relationships_url(base: &str, ids: &[&str]) -> (r: String)
    ensures
        r@ == base@ + "/api/v1/accounts/relationships"@ + relationships_query(ids_view(ids@)),
{
    let mut r = String::from_str(base);
    r.append("/api/v1/accounts/relationships");
    let ghost head = r@;
    let ghost all = ids_view(ids@);
    if ids.len() == 1 {
        r.append("?id=");
        r.append(ids[0]);
        proof {
            assert(r@ =~= head + ("?id="@ + all[0]));
        }
    } else if ids.len() == 0 {
        proof {
            assert(r@ =~= head + Seq::<char>::empty());
        }
    } else {
        r.append("?");
        r.append("id[]=");
        r.append(ids[0]);
        let mut i: usize = 1;
        proof {
            assert(all.take(1).len() == 1);
            assert(all.take(1)[0] == all[0]);
            assert(r@ =~= head + "?"@ + id_pairs(all.take(1)));
        }
        while i < ids.len()
            invariant
                1 <= i <= ids.len(),
                all == ids_view(ids@),
                r@ == head + "?"@ + id_pairs(all.take(i as int)),
            decreases ids.len() - i,
        {
            r.append("&");
            r.append("id[]=");
            r.append(ids[i]);
            proof {
                let now = all.take(i + 1);
                assert(now.drop_last() =~= all.take(i as int));
                assert(now.last() == all[i as int]);
                assert(r@ =~= head + "?"@ + id_pairs(now));
            }
            i += 1;
        }
        proof {
            assert(all.take(ids.len() as int) =~= all);
            assert(r@ =~= head + ("?"@ + id_pairs(all)));
        }
    }
    r
}

/// The streams that the API offers.
#[derive(Clone, Debug, PartialEq, Eq)]
pub enum Stream {
    /// What concerns the user: the home timeline and the notifications.
    User,
    /// All public statuses.
    Public,
    /// All public statuses of the server.
    PublicLocal,
    /// All public statuses with a hashtag.
    Hashtag(String),
    /// All public statuses of the server with a hashtag.
    HashtagLocal(String),
    /// The statuses of a list.
    List(String),
    /// The direct messages.
    Direct,
}

impl Stream {
    /// The value of the `stream` parameter.
    pub open spec fn name_spec(&self) -> Seq<char> {
        match self {
            Stream::User => "user"@,
            Stream::Public => "public"@,
            Stream::PublicLocal => "public:local"@,
            Stream::Hashtag(_) => "hashtag"@,
            Stream::HashtagLocal(_) => "hashtag:local"@,
            Stream::List(_) => "list"@,
            Stream::Direct => "direct"@,
        }
    }

    /// The parameter that the stream takes besides its name: the hashtag as
    /// `tag`, or the list as `list`.
    pub open spec fn parameter_spec(&self) -> Option<(Seq<char>, Seq<char>)> {
        match self {
            Stream::Hashtag(tag) => Some(("tag"@, tag@)),
            Stream::HashtagLocal(tag) => Some(("tag"@, tag@)),
            Stream::List(id) => Some(("list"@, id@)),
            _ => None,
        }
    }

    /// The value of the `stream` parameter.
    pub fn name(&self) -> (r: &'static str)
        ensures
            r@ == self.name_spec(),
    {
        match self {
            Stream::User => "user",
            Stream::Public => "public",
            Stream::PublicLocal => "public:local",
            Stream::Hashtag(_) => "hashtag",
            Stream::HashtagLocal(_) => "hashtag:local",
            Stream::List(_) => "list",
            Stream::Direct => "direct",
        }
    }
}

/// The URL at which the stream is asked for: the streaming route of the
/// instance with the access token, the name of the stream, and the parameter
/// of the stream where it has one.
pub open spec fn streaming_url_spec(base: Seq<char>, token: Seq<char>, stream: Stream) -> UrlOutcome {
    let start = parsed(url_parse(base + "/api/v1/streaming"@));
    let with_token = then_pair(start, "access_token"@, token);
    let with_name = then_pair(with_token, "stream"@, stream.name_spec());
    match stream.parameter_spec() {
        None => with_name,
        Some((key, value)) => then_pair(with_name, key, value),
    }
}

/// The URL at which the stream `stream` is asked for with the access token
/// `token`.
pub fn streaming_url(base: &str, token: &str, stream: &Stream) -> (r: Result<String, MastodonError>)
    ensures
        url_agrees(r, streaming_url_spec(base@, token@, *stream)),
{
    let start = match parse_url(route(base, "/api/v1/streaming").as_str()) {
        Ok(u) => u,
        Err(e) => {
            return Err(MastodonError::Url(e));
        },
    };
    let with_token = match add_pair(start.as_str(), "access_token", token) {
        Ok(u) => u,
        Err(e) => {
            return Err(e);
        },
    };
    let with_name = match add_pair(with_token.as_str(), "stream", stream.name()) {
        Ok(u) => u,
        Err(e) => {
            return Err(e);
        },
    };
    match stream {
        Stream::Hashtag(tag) => add_pair(with_name.as_str(), "tag", tag.as_str()),
        Stream::HashtagLocal(tag) => add_pair(with_name.as_str(), "tag", tag.as_str()),
        Stream::List(id) => add_pair(with_name.as_str(), "list", id.as_str()),
        _ => Ok(with_name),
    }
}

/// The URL at which the public stream is asked for without an access token.
pub open spec fn public_streaming_url_spec(base: Seq<char>) -> UrlOutcome {
    then_pair(parsed(url_join(base, "/api/v1/streaming/public/local"@)), "stream"@, "public"@)
}

/// The URL at which the public stream is asked for without an access token.
pub fn public_streaming_url(base: &str) -> (r: Result<String, MastodonError>)
    ensures
        url_agrees(r, public_streaming_url_spec(base@)),
{
    let start = match join_url(base, "/api/v1/streaming/public/local") {
        Ok(u) => u,
        Err(e) => {
            return Err(MastodonError::Url(e));
        },
    };
    add_pair(start.as_str(), "stream", "public")
}

/// The scheme of the socket that stands for an HTTP scheme: `ws` for `http`
/// and `wss` for `https`. No other scheme has one.
pub open spec fn websocket_scheme_spec(scheme: Seq<char>) -> Option<Seq<char>> {
    if scheme == "http"@ {
        Some("ws"@)
    } else if scheme == "https"@ {
        Some("wss"@)
    } else {
        None
    }
}

/// The scheme of the socket that stands for the HTTP scheme `scheme`.
pub fn websocket_scheme(scheme: &str) -> (r: Result<&'static str, MastodonError>)
    ensures
        match websocket_scheme_spec(scheme@) {
            Some(s) => r matches Ok(x) && x@ == s,
            None => r matches Err(MastodonError::Other(text)) && text@ == "Bad URL scheme: "@
                + scheme@,
        },
{
    if str_eq(scheme, "http") {
        Ok("ws")
    } else if str_eq(scheme, "https") {
        Ok("wss")
    } else {
        let mut text = String::from_str("Bad URL scheme: ");
        text.append(scheme);
        Err(MastodonError::Other(text))
    }
}

/// How turning an HTTP URL into the URL of a socket ends.
pub enum SocketUrl {
    /// This is the URL of the socket.
    Url(Seq<char>),
    /// The text is no URL.
    NotAUrl,
    /// The scheme, which is given, is neither `http` nor `https`.
    BadScheme(Seq<char>),
    /// The URL does not take the scheme of a socket.
    Refused,
    /// The URL is over the limit of the texts that are changed.
    TooLong,
}

/// The URL of the socket for the HTTP URL `url`: the same URL with `ws` in
/// place of `http`, or `wss` in place of `https`.
pub open spec fn websocket_url_spec(url: Seq<char>) -> SocketUrl {
    match url_scheme(url) {
        None => SocketUrl::NotAUrl,
        Some(scheme) => match websocket_scheme_spec(scheme) {
            None => SocketUrl::BadScheme(scheme),
            Some(socket) => if !short(url) || !short(socket) {
                SocketUrl::TooLong
            } else {
                match url_with_scheme(url, socket) {
                    None => SocketUrl::NotAUrl,
                    Some(None) => SocketUrl::Refused,
                    Some(Some(changed)) => SocketUrl::Url(changed),
                }
            },
        },
    }
}

/// The URL of the socket for the HTTP URL `url`.
pub fn websocket_url(url: &str) -> (r: Result<String, MastodonError>)
    ensures
        match websocket_url_spec(url@) {
            SocketUrl::Url(socket) => r matches Ok(u) && u@ == socket,
            SocketUrl::NotAUrl => r matches Err(MastodonError::Url(_)),
            SocketUrl::BadScheme(scheme) => r matches Err(MastodonError::Other(text)) && text@
                == "Bad URL scheme: "@ + scheme,
            SocketUrl::Refused => r matches Err(MastodonError::Other(text)) && text@
                == "Bad URL scheme!"@,
            SocketUrl::TooLong => r matches Err(MastodonError::Other(text)) && text@
                == "URL too long"@,
        },
{
    let scheme = match scheme_of(url) {
        Ok(s) => s,
        Err(e) => {
            return Err(MastodonError::Url(e));
        },
    };
    let socket = match websocket_scheme(scheme.as_str()) {
        Ok(s) => s,
        Err(e) => {
            return Err(e);
        },
    };
    if !is_short(url) || !is_short(socket) {
        return Err(too_long());
    }
    match change_scheme(url, socket) {
        Ok(Some(changed)) => Ok(changed),
        Ok(None) => Err(MastodonError::Other(String::from_str("Bad URL scheme!"))),
        Err(e) => Err(MastodonError::Url(e)),
    }
}

/// The URL of an instance that is named with or without `https://` in front.
pub open spec fn instance_url_spec(base: Seq<char>) -> Option<Seq<char>> {
    if crate::text::has_prefix(base, "https://"@) {
        url_parse(base)
    } else {
        url_parse("https://"@ + base)
    }
}

/// The URL of the instance `base`: a name without `https://` in front gets it.
pub fn instance_url(base: &str) -> (r: Result<String, MastodonError>)
    ensures
        match instance_url_spec(base@) {
            Some(url) => r matches Ok(u) && u@ == url,
            None => r matches Err(MastodonError::Url(_)),
        },
{
    let chars = crate::text::chars_of(base);
    let prefix = crate::text::chars_of("https://");
    let parsed = if crate::text::starts_with(&chars, &prefix) {
        parse_url(base)
    } else {
        let mut full = String::from_str("https://");
        full.append(base);
        parse_url(full.as_str())
    };
    match parsed {
        Ok(u) => Ok(u),
        Err(e) => Err(MastodonError::Url(e)),
    }
}

/// The URL that `text` is, in the form in which URLs are kept.
pub fn absolute_url(text: &str) -> (r: Result<String, MastodonError>)
    ensures
        url_agrees(r, parsed(url_parse(text@))),
{
    match parse_url(text) {
        Ok(u) => Ok(u),
        Err(e) => Err(MastodonError::Url(e)),
    }
}

/// The URL of the route `path` below the URL `base`.
pub fn api_url(base: &str, path: &str) -> (r: Result<String, MastodonError>)
    ensures
        match url_join(base@, path@) {
            Some(url) => r matches Ok(u) && u@ == url,
            None => r matches Err(MastodonError::Url(_)),
        },
{
    match join_url(base, path) {
        Ok(u) => Ok(u),
        Err(e) => Err(MastodonError::Url(e)),
    }
}

/// The URL of the route `path` below the URL `base`, with `query` as its
/// query where there is one.
pub open spec fn api_url_with_query_spec(
    base: Seq<char>,
    path: Seq<char>,
    query: Option<Seq<char>>,
) -> UrlOutcome {
    match query {
        None => parsed(url_join(base, path)),
        Some(q) => then_query(parsed(url_join(base, path)), q),
    }
}

/// The URL of the route `path` below the URL `base`, with `query` as its
/// query where there is one.
pub fn api_url_with_query(base: &str, path: &str, query: Option<&str>) -> (r: Result<
    String,
    MastodonError,
>)
    ensures
        url_agrees(r, api_url_with_query_spec(base@, path@, crate::link_header::header_view(query))),
{
    let joined = match join_url(base, path) {
        Ok(u) => u,
        Err(e) => {
            return Err(MastodonError::Url(e));
        },
    };
    match query {
        None => Ok(joined),
        Some(q) => set_query(joined.as_str(), q),
    }
}

} // verus!
