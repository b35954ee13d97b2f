use elefren::entities::account::{Credentials, MetadataField, UpdateSource};
use elefren::requests::UpdateCredsRequest;
use elefren::status_builder::Visibility;

#[test]
fn test_update_creds_request_new() {
    let builder = UpdateCredsRequest::new();
    assert_eq!(
        builder,
        UpdateCredsRequest {
            ..Default::default()
        }
    );
}

#[test]
fn test_update_creds_request_display_name() {
    let builder = UpdateCredsRequest::new().display_name("foo");
    assert_eq!(
        builder,
        UpdateCredsRequest {
            display_name: Some("foo".into()),
            ..Default::default()
        }
    );
}

#[test]
fn test_update_creds_request_note() {
    let builder = UpdateCredsRequest::new().note("foo");
    assert_eq!(
        builder,
        UpdateCredsRequest {
            note: Some("foo".into()),
            ..Default::default()
        }
    );
}

#[test]
fn test_update_creds_request_avatar() {
    let builder = UpdateCredsRequest::new().avatar("/path/to/avatar.png");
    assert_eq!(
        builder,
        UpdateCredsRequest {
            avatar: Some("/path/to/avatar.png".to_string()),
            ..Default::default()
        }
    );
}

#[test]
fn test_update_creds_request_header() {
    let builder = UpdateCredsRequest::new().header("/path/to/header.png");
    assert_eq!(
        builder,
        UpdateCredsRequest {
            header: Some("/path/to/header.png".to_string()),
            ..Default::default()
        }
    );
}

#[test]
fn test_update_creds_request_privacy() {
    let builder = UpdateCredsRequest::new().privacy(Visibility::Public);
    assert_eq!(
        builder,
        UpdateCredsRequest {
            privacy: Some(Visibility::Public),
            ..Default::default()
        }
    );
}

#[test]
fn test_update_creds_request_sensitive() {
    let builder = UpdateCredsRequest::new().sensitive(true);
    assert_eq!(
        builder,
        UpdateCredsRequest {
            sensitive: Some(true),
            ..Default::default()
        }
    );
}

#[test]
fn test_update_creds_request_field_attribute() {
    let builder = UpdateCredsRequest::new().field_attribute("foo", "bar");
    assert_eq!(
        builder,
        UpdateCredsRequest {
            field_attributes: vec![MetadataField::new("foo", "bar")],
            ..Default::default()
        }
    );
}

#[test]
fn test_update_creds_request_build() {
    let builder = UpdateCredsRequest::new()
        .display_name("test")
        .note("a note");
    let creds = builder.build().expect("Couldn't build Credentials");
    assert_eq!(
        creds,
        Credentials {
            display_name: Some("test".into()),
            note: Some("a note".into()),
            source: Some(UpdateSource {
                ..Default::default()
            }),
            ..Default::default()
        }
    );
}

#[test]
fn test_update_creds_request_build_all_fields() {
    let creds = UpdateCredsRequest::new()
        .avatar("/a.png")
        .header("/h.png")
        .privacy(Visibility::Unlisted)
        .sensitive(false)
        .field_attribute("k1", "v1")
        .field_attribute("k2", "v2")
        .build()
        .expect("Couldn't build Credentials");
    assert_eq!(creds.avatar, Some("/a.png".to_string()));
    assert_eq!(creds.header, Some("/a.png".to_string()));
    assert_eq!(
        creds.source,
        Some(UpdateSource { privacy: Some(Visibility::Unlisted), sensitive: Some(false) })
    );
    assert_eq!(
        creds.fields_attributes,
        vec![MetadataField::new("k1", "v1"), MetadataField::new("k2", "v2")]
    );
}
