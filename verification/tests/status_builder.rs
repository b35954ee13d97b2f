use elefren::errors::MastodonError;
use elefren::status_builder::{NewStatus, StatusBuilder, Visibility};

#[test]
fn status_builder_test_new() {
    let s = StatusBuilder::new()
        .status("a status")
        .build()
        .expect("Couldn't build status");
    let expected = NewStatus {
        status: Some("a status".to_string()),
        in_reply_to_id: None,
        media_ids: None,
        sensitive: None,
        spoiler_text: None,
        visibility: None,
        language: None,
        content_type: None,
    };
    assert_eq!(s, expected);
}

#[test]
fn test_default_visibility() {
    let v: Visibility = Default::default();
    assert_eq!(v, Visibility::Public);
}

#[test]
fn test_status_builder_all_fields() {
    let s = StatusBuilder::new()
        .status("awoo")
        .in_reply_to("12345")
        .media_ids(&["foo", "bar"])
        .sensitive(true)
        .spoiler_text("a CW")
        .content_type("text/html")
        .visibility(Visibility::Unlisted)
        .language(isolang::Language::Eng)
        .build()
        .expect("Couldn't build status");
    assert_eq!(
        s,
        NewStatus {
            status: Some("awoo".to_string()),
            in_reply_to_id: Some("12345".to_string()),
            media_ids: Some(vec!["foo".to_string(), "bar".to_string()]),
            sensitive: Some(true),
            spoiler_text: Some("a CW".to_string()),
            visibility: Some(Visibility::Unlisted),
            language: Some(isolang::Language::Eng),
            content_type: Some("text/html".to_string()),
        }
    );
}

#[test]
fn test_status_builder_media_only() {
    let s = StatusBuilder::new().media_ids(&["foo"]).build().expect("Couldn't build status");
    assert_eq!(s.status, None);
    assert_eq!(s.media_ids, Some(vec!["foo".to_string()]));
}

#[test]
fn test_status_builder_needs_text_or_media() {
    let r = StatusBuilder::new().sensitive(true).build();
    match r {
        Err(MastodonError::Other(text)) => assert_eq!(
            text,
            "status text or media ids are required in order to post a status"
        ),
        _ => panic!("a status without text and media was built"),
    }
    assert_eq!(StatusBuilder::default(), StatusBuilder::new());
    assert_eq!(NewStatus::default().status, None);
}
