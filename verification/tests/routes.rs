use elefren::errors::MastodonError;
use elefren::urls::{add_pair, is_short, set_query, URL_TEXT_LIMIT};
use elefren::response::{
    api_error_from, api_error_of, deserialise, resolve, status_refusal, transport_for, Transport,
};
use elefren::routes::{
    absolute_url, api_url, api_url_with_query, filter_url, hashtag_timeline_url, instance_url, public_streaming_url,
    relationships_url, route, statuses_url, streaming_url, websocket_scheme, websocket_url, Stream,
};

#[test]
fn test_route_urls() {
    assert_eq!(route("https://a.example", "/api/v1/filters"), "https://a.example/api/v1/filters");
    assert_eq!(
        hashtag_timeline_url("https://a.example", "coffee", false),
        "https://a.example/api/v1/timelines/tag/coffee"
    );
    assert_eq!(
        hashtag_timeline_url("https://a.example", "coffee", true),
        "https://a.example/api/v1/timelines/tag/coffee?local=1"
    );
    assert_eq!(
        statuses_url("https://a.example", "7", None),
        "https://a.example/api/v1/accounts/7/statuses"
    );
    assert_eq!(
        statuses_url("https://a.example", "7", Some("?pinned=1")),
        "https://a.example/api/v1/accounts/7/statuses?pinned=1"
    );
    assert_eq!(filter_url("https://a.example", "3"), "https://a.example/api/v1/filters/3");
    assert_eq!(
        api_url("https://a.example/x/y", "api/v1/instance").expect("no url"),
        "https://a.example/x/api/v1/instance"
    );
    assert!(matches!(api_url("a.example", "api"), Err(MastodonError::Url(_))));
}

#[test]
fn test_relationships_url() {
    let base = "https://a.example";
    assert_eq!(relationships_url(base, &[]), "https://a.example/api/v1/accounts/relationships");
    assert_eq!(
        relationships_url(base, &["1"]),
        "https://a.example/api/v1/accounts/relationships?id=1"
    );
    assert_eq!(
        relationships_url(base, &["1", "2"]),
        "https://a.example/api/v1/accounts/relationships?id[]=1&id[]=2"
    );
    assert_eq!(
        relationships_url(base, &["1", "2", "30"]),
        "https://a.example/api/v1/accounts/relationships?id[]=1&id[]=2&id[]=30"
    );
}

#[test]
fn test_streaming_urls() {
    let base = "https://a.example";
    let url = |stream: Stream| streaming_url(base, "t k", &stream).expect("no url");
    assert_eq!(
        url(Stream::User),
        "https://a.example/api/v1/streaming?access_token=t+k&stream=user"
    );
    assert_eq!(
        url(Stream::Public),
        "https://a.example/api/v1/streaming?access_token=t+k&stream=public"
    );
    assert_eq!(
        url(Stream::PublicLocal),
        "https://a.example/api/v1/streaming?access_token=t+k&stream=public%3Alocal"
    );
    assert_eq!(
        url(Stream::Hashtag("tea".to_string())),
        "https://a.example/api/v1/streaming?access_token=t+k&stream=hashtag&tag=tea"
    );
    assert_eq!(
        url(Stream::HashtagLocal("tea".to_string())),
        "https://a.example/api/v1/streaming?access_token=t+k&stream=hashtag%3Alocal&tag=tea"
    );
    assert_eq!(
        url(Stream::List("12".to_string())),
        "https://a.example/api/v1/streaming?access_token=t+k&stream=list&list=12"
    );
    assert_eq!(
        url(Stream::Direct),
        "https://a.example/api/v1/streaming?access_token=t+k&stream=direct"
    );
    assert!(matches!(streaming_url("nonsense", "t", &Stream::User), Err(MastodonError::Url(_))));
    assert_eq!(
        public_streaming_url("https://a.example/").expect("no url"),
        "https://a.example/api/v1/streaming/public/local?stream=public"
    );
    assert!(public_streaming_url("").is_err());
    assert_eq!(Stream::PublicLocal.name(), "public:local");
}

#[test]
fn test_websocket_urls() {
    assert_eq!(websocket_scheme("http").expect("no scheme"), "ws");
    assert_eq!(websocket_scheme("https").expect("no scheme"), "wss");
    match websocket_scheme("ftp") {
        Err(MastodonError::Other(text)) => assert_eq!(text, "Bad URL scheme: ftp"),
        _ => panic!("ftp has no socket"),
    }
    assert_eq!(
        websocket_url("https://a.example/api/v1/streaming?stream=user").expect("no url"),
        "wss://a.example/api/v1/streaming?stream=user"
    );
    assert_eq!(websocket_url("http://a.example/s").expect("no url"), "ws://a.example/s");
    match websocket_url("mailto:a@b.example") {
        Err(MastodonError::Other(text)) => assert_eq!(text, "Bad URL scheme: mailto"),
        _ => panic!("mailto has no socket"),
    }
    assert!(matches!(websocket_url("no url"), Err(MastodonError::Url(_))));
}

#[test]
fn test_instance_url() {
    assert_eq!(instance_url("a.example").expect("no url"), "https://a.example/");
    assert_eq!(instance_url("https://a.example").expect("no url"), "https://a.example/");
    assert_eq!(instance_url("http://a.example").expect("no url"), "https://http//a.example");
    assert!(matches!(instance_url(""), Err(MastodonError::Url(_))));
}

#[test]
fn test_deserialise() {
    let good: Result<u32, serde_json::Error> = serde_json::from_str("5");
    assert_eq!(deserialise(good, "5").expect("error"), 5);
    // a body that is an error document
    let body = r#"{"error":"Record not found"}"#;
    let bad: Result<u32, serde_json::Error> = serde_json::from_str(body);
    match deserialise(bad, body) {
        Err(MastodonError::Api(e)) => {
            assert_eq!(e.error.as_deref(), Some("Record not found"));
            assert_eq!(e.error_description, None);
        },
        _ => panic!("the error document was not found"),
    }
    let body = r#"{"error_description":"d","error":null,"more":[1]}"#;
    let e = api_error_of(body).expect("no error document");
    assert_eq!(e.error, None);
    assert_eq!(e.error_description.as_deref(), Some("d"));
    // any object without the two members is an error document that says nothing
    let e = api_error_of("{}").expect("no error document");
    assert_eq!((e.error, e.error_description), (None, None));
    // members of another type, and bodies that are no objects
    assert!(api_error_of(r#"{"error":5}"#).is_none());
    assert!(api_error_of(r#"{"error":"e","error_description":{}}"#).is_none());
    assert!(api_error_of("[]").is_none());
    assert!(api_error_of("<html>").is_none());
    assert!(api_error_from(serde_json::from_str::<()>("x").map(|_| vec![])).is_none());
    let bad: Result<u32, serde_json::Error> = serde_json::from_str("<html>");
    assert!(matches!(deserialise(bad, "<html>"), Err(MastodonError::Serde(_))));
    let bad: Result<u32, serde_json::Error> = serde_json::from_str("x");
    assert!(matches!(resolve(bad, None), Err(MastodonError::Serde(_))));
}

#[test]
fn test_status_refusal_and_transport() {
    assert!(status_refusal(200).is_ok());
    assert!(status_refusal(299).is_ok());
    assert!(status_refusal(99).is_ok());
    assert!(status_refusal(600).is_ok());
    let text = |code: u16| match status_refusal(code) {
        Err(MastodonError::Other(text)) => text,
        _ => panic!("status {} was let through", code),
    };
    assert_eq!(text(404), "4xx status code");
    assert_eq!(text(500), "5xx status code");
    assert_eq!(text(301), "3xx or 1xx status code");
    assert_eq!(text(100), "3xx or 1xx status code");
    assert_eq!(transport_for("http").expect("none"), Transport::Plain);
    assert_eq!(transport_for("https").expect("none"), Transport::Tls);
    match transport_for("gopher") {
        Err(MastodonError::Other(text)) => assert_eq!(text, "unsupported scheme 'gopher'"),
        _ => panic!("gopher was taken"),
    }
}

#[test]
fn test_api_url_with_query() {
    let base = "https://a.example/";
    assert_eq!(
        api_url_with_query(base, "api/v1/trends", None).expect("no url"),
        "https://a.example/api/v1/trends"
    );
    assert_eq!(
        api_url_with_query(base, "api/v1/trends", Some("limit=3")).expect("no url"),
        "https://a.example/api/v1/trends?limit=3"
    );
    // the query takes the place of one that the path brought
    assert_eq!(
        api_url_with_query(base, "api/v1/x?a=1#f", Some("b=2 3")).expect("no url"),
        "https://a.example/api/v1/x?b=2%203#f"
    );
    assert!(matches!(api_url_with_query("nonsense", "x", Some("a=1")), Err(MastodonError::Url(_))));
    assert_eq!(absolute_url("HTTPS://A.example").expect("no url"), "https://a.example/");
    assert!(matches!(absolute_url("a.example"), Err(MastodonError::Url(_))));
}

#[test]
fn test_texts_over_the_limit_are_refused() {
    let long = "a".repeat(URL_TEXT_LIMIT + 1);
    let short = "a".repeat(16);
    assert!(!is_short(&long));
    assert!(is_short(&short));
    assert!(is_short(&long[1..]));
    let refused = |r: Result<String, MastodonError>| match r {
        Err(MastodonError::Other(text)) => text == "URL too long",
        _ => false,
    };
    assert!(refused(add_pair("https://a.example/", "k", &long)));
    assert!(refused(add_pair("https://a.example/", &long, "v")));
    assert!(refused(add_pair(&long, "k", "v")));
    assert!(refused(set_query("https://a.example/", &long)));
    assert!(refused(streaming_url("https://a.example", &long, &Stream::User)));
    assert!(refused(api_url_with_query("https://a.example", "x", Some(&long))));
    assert_eq!(
        add_pair("https://a.example/#f", "k", "v w").expect("no url"),
        "https://a.example/?k=v+w#f"
    );
    assert_eq!(set_query("https://a.example/?x", "y").expect("no url"), "https://a.example/?y");
}
