use elefren::query::{add_pair, decimal, pair, to_query, Pair};
use elefren::requests::{DirectoryRequest, StatusesRequest};

fn qs(request: StatusesRequest) -> String {
    request.to_querystring().expect("Failed to serialize querystring")
}

#[test]
fn test_to_querystring() {
    let new = StatusesRequest::new;
    assert_eq!(&qs(new().only_media()), "?only_media=1");
    assert_eq!(&qs(new().exclude_replies()), "?exclude_replies=1");
    assert_eq!(&qs(new().pinned()), "?pinned=1");
    assert_eq!(&qs(new().max_id("foo")), "?max_id=foo");
    assert_eq!(&qs(new().since_id("foo")), "?since_id=foo");
    assert_eq!(&qs(new().limit(42)), "?limit=42");
    assert_eq!(&qs(new().only_media().exclude_replies()), "?only_media=1&exclude_replies=1");
    assert_eq!(&qs(new().only_media().pinned()), "?only_media=1&pinned=1");
    assert_eq!(&qs(new().only_media().max_id("foo")), "?only_media=1&max_id=foo");
    assert_eq!(&qs(new().only_media().since_id("foo")), "?only_media=1&since_id=foo");
    assert_eq!(&qs(new().only_media().limit(42)), "?only_media=1&limit=42");
    assert_eq!(&qs(new().exclude_replies().only_media()), "?only_media=1&exclude_replies=1");
    assert_eq!(&qs(new().exclude_replies().pinned()), "?exclude_replies=1&pinned=1");
    assert_eq!(&qs(new().exclude_replies().max_id("foo")), "?exclude_replies=1&max_id=foo");
    assert_eq!(&qs(new().exclude_replies().since_id("foo")), "?exclude_replies=1&since_id=foo");
    assert_eq!(&qs(new().exclude_replies().limit(42)), "?exclude_replies=1&limit=42");
    assert_eq!(&qs(new().pinned().only_media()), "?only_media=1&pinned=1");
    assert_eq!(&qs(new().pinned().exclude_replies()), "?exclude_replies=1&pinned=1");
    assert_eq!(&qs(new().pinned().max_id("foo")), "?pinned=1&max_id=foo");
    assert_eq!(&qs(new().pinned().since_id("foo")), "?pinned=1&since_id=foo");
    assert_eq!(&qs(new().pinned().limit(42)), "?pinned=1&limit=42");
    assert_eq!(&qs(new().max_id("foo").only_media()), "?only_media=1&max_id=foo");
    assert_eq!(&qs(new().max_id("foo").exclude_replies()), "?exclude_replies=1&max_id=foo");
    assert_eq!(&qs(new().max_id("foo").pinned()), "?pinned=1&max_id=foo");
    assert_eq!(&qs(new().max_id("foo").since_id("foo")), "?max_id=foo&since_id=foo");
    assert_eq!(&qs(new().max_id("foo").limit(42)), "?max_id=foo&limit=42");
    assert_eq!(&qs(new().since_id("foo").only_media()), "?only_media=1&since_id=foo");
    assert_eq!(&qs(new().since_id("foo").exclude_replies()), "?exclude_replies=1&since_id=foo");
    assert_eq!(&qs(new().since_id("foo").pinned()), "?pinned=1&since_id=foo");
    assert_eq!(&qs(new().since_id("foo").max_id("foo")), "?max_id=foo&since_id=foo");
    assert_eq!(&qs(new().since_id("foo").limit(42)), "?since_id=foo&limit=42");
    assert_eq!(&qs(new().limit(42).only_media()), "?only_media=1&limit=42");
    assert_eq!(&qs(new().limit(42).exclude_replies()), "?exclude_replies=1&limit=42");
    assert_eq!(&qs(new().limit(42).pinned()), "?pinned=1&limit=42");
    assert_eq!(&qs(new().limit(42).max_id("foo")), "?max_id=foo&limit=42");
    assert_eq!(&qs(new().limit(42).since_id("foo")), "?since_id=foo&limit=42");
}

#[test]
fn test_querystring_of_every_field() {
    let request = StatusesRequest::new()
        .exclude_reblogs()
        .min_id("foobar")
        .limit(10)
        .since_id("b")
        .max_id("a")
        .pinned()
        .exclude_replies()
        .only_media();
    assert_eq!(
        &qs(request),
        "?only_media=1&exclude_replies=1&pinned=1&max_id=a&since_id=b&limit=10&min_id=foobar&exclude_reblogs=1"
    );
    assert_eq!(&qs(StatusesRequest::new()), "?");
    assert_eq!(&qs(StatusesRequest::new().min_id("foobar")), "?min_id=foobar");
    assert_eq!(&qs(StatusesRequest::new().exclude_reblogs()), "?exclude_reblogs=1");
    assert_eq!(&qs(StatusesRequest::new().limit(10).pinned()), "?pinned=1&limit=10");
    assert_eq!(
        &qs(StatusesRequest::new().only_media().pinned().since_id("foo")),
        "?only_media=1&pinned=1&since_id=foo"
    );
}

#[test]
fn test_querystring_escapes_values() {
    // a value is escaped, so the text that goes in is not the text that comes out
    let text = qs(StatusesRequest::new().max_id("a b&c=d"));
    assert_ne!(text, "?max_id=a b&c=d");
    assert!(!text.contains(' '));
    assert_eq!(text.matches('&').count(), 0);
    let back: Vec<(String, String)> =
        url::form_urlencoded::parse(text[1..].as_bytes()).into_owned().collect();
    assert_eq!(back, vec![("max_id".to_string(), "a b&c=d".to_string())]);
}

#[test]
fn test_directory_querystring() {
    let request = DirectoryRequest::new();
    assert_eq!(&request.limit(10).to_querystring().expect("Couldn't serialize qs"), "limit=10");
    let request = DirectoryRequest::new().local().order("new").limit(3).offset(40);
    assert_eq!(
        &request.to_querystring().expect("Couldn't serialize qs"),
        "offset=40&limit=3&order=new&local=1"
    );
    assert_eq!(&DirectoryRequest::new().to_querystring().expect("error"), "");
    assert_eq!(
        DirectoryRequest::new().offset(1).order("active").local(),
        DirectoryRequest {
            offset: Some(1),
            limit: None,
            order: Some("active".to_string()),
            local: true
        }
    );
    assert_eq!(DirectoryRequest::new(), DirectoryRequest::default());
}

#[test]
fn test_decimal() {
    for n in [0usize, 1, 9, 10, 11, 42, 99, 100, 101, 1234567890, usize::MAX] {
        assert_eq!(decimal(n), n.to_string());
    }
}

#[test]
fn test_to_query_and_add_pair() {
    assert_eq!(to_query(&vec![]).expect("error"), "");
    assert_eq!(to_query(&vec![pair("a", "1")]).expect("error"), "a=1");
    assert_eq!(
        to_query(&vec![pair("b", "2"), pair("a", "1"), pair("b", "3")]).expect("error"),
        "b=2&a=1&b=3"
    );
    assert_eq!(pair("k", "v"), Pair { key: "k".to_string(), value: "v".to_string() });
    assert_eq!(add_pair("x=1".to_string(), true, Ok("y=2".to_string())).expect("error"), "y=2");
    assert_eq!(
        add_pair("x=1".to_string(), false, Ok("y=2".to_string())).expect("error"),
        "x=1&y=2"
    );
    let pairs = StatusesRequest::new().pinned().limit(5).pairs();
    assert_eq!(pairs, vec![pair("pinned", "1"), pair("limit", "5")]);
}
