use elefren::entities::filter::FilterContext;
use elefren::requests::AddFilterRequest;
use std::time::Duration;

#[test]
fn filter_test_new() {
    let request = AddFilterRequest::new("foo", FilterContext::Home);
    assert_eq!(
        request,
        AddFilterRequest {
            phrase: "foo".to_string(),
            context: FilterContext::Home,
            irreversible: None,
            whole_word: None,
            expires_in: None,
        }
    )
}

#[test]
fn test_irreversible() {
    let request = AddFilterRequest::new("foo", FilterContext::Home).irreversible();
    assert_eq!(
        request,
        AddFilterRequest {
            phrase: "foo".to_string(),
            context: FilterContext::Home,
            irreversible: Some(true),
            whole_word: None,
            expires_in: None,
        }
    )
}

#[test]
fn test_whole_word() {
    let request = AddFilterRequest::new("foo", FilterContext::Home).whole_word();
    assert_eq!(
        request,
        AddFilterRequest {
            phrase: "foo".to_string(),
            context: FilterContext::Home,
            irreversible: None,
            whole_word: Some(true),
            expires_in: None,
        }
    )
}

#[test]
fn test_expires_in() {
    let request =
        AddFilterRequest::new("foo", FilterContext::Home).expires_in(Duration::from_secs(300));
    assert_eq!(
        request,
        AddFilterRequest {
            phrase: "foo".to_string(),
            context: FilterContext::Home,
            irreversible: None,
            whole_word: None,
            expires_in: Some(Duration::from_secs(300)),
        }
    )
}
