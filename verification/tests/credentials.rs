use elefren::entities::account::{CredentialsBuilder, FormPart};

#[test]
fn test_credentials_builder_to_form() {
    let avatar = "/tmp/avatar-file";
    let header = "/tmp/header-file";
    let tests = [
        (None, None, None, None),
        (Some("my-display-name"), None, None, None),
        (None, Some("my-note"), None, None),
        (None, None, Some(avatar), None),
        (None, None, None, Some(header)),
        (Some("my-display-name"), Some("my-note"), None, None),
        (Some("my-display-name"), None, Some(avatar), None),
        (None, Some("my-note"), Some(avatar), None),
        (None, Some("my-note"), None, Some(header)),
        (None, None, Some(avatar), Some(header)),
        (Some("my-display-name"), None, None, Some(header)),
        (Some("my-display-name"), Some("my-note"), Some(avatar), None),
        (Some("my-display-name"), Some("my-note"), None, Some(header)),
        (Some("my-display-name"), None, Some(avatar), Some(header)),
        (None, Some("my-note"), Some(avatar), Some(header)),
        (Some("my-display-name"), Some("my-note"), Some(avatar), Some(header)),
    ];

    for test in tests.iter() {
        let (display_name, note, avatar, header) = test;
        let credentials_builder = CredentialsBuilder {
            display_name: display_name.map(String::from),
            note: note.map(String::from),
            avatar: avatar.map(String::from),
            header: header.map(String::from),
        };
        let form = credentials_builder.into_form();
        let set = [display_name, note, avatar, header].iter().filter(|f| f.is_some()).count();
        assert_eq!(form.len(), set);
    }
}

#[test]
fn test_credentials_form_parts_in_order() {
    let text = |name: &str, value: &str| FormPart::Text {
        name: name.to_string(),
        value: value.to_string(),
    };
    let file = |name: &str, path: &str| FormPart::File {
        name: name.to_string(),
        path: path.to_string(),
    };
    let builder = CredentialsBuilder {
        display_name: Some("n".to_string()),
        note: Some("about".to_string()),
        avatar: Some("/a.png".to_string()),
        header: Some("/h.png".to_string()),
    };
    assert_eq!(
        builder.into_form(),
        vec![
            text("display_name", "n"),
            text("note", "about"),
            file("avatar", "/a.png"),
            file("header", "/h.png")
        ]
    );
    let builder = CredentialsBuilder { header: Some("/h.png".to_string()), ..Default::default() };
    assert_eq!(builder.into_form(), vec![file("header", "/h.png")]);
    assert_eq!(CredentialsBuilder::default().into_form(), vec![]);
}
