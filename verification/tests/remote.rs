use stream_pad::remote::{client_request, ClientRequest};

#[test]
fn trigger_requests() {
    match client_request(r#"{"type":"triggerButton","buttonId":"b7","profileId":"p2"}"#) {
        ClientRequest::TriggerButton { button_id, profile_id } => {
            assert_eq!(button_id, "b7");
            assert_eq!(profile_id, Some("p2".to_string()));
        }
        other => panic!("{other:?}"),
    }
    match client_request(r#"{"type":"triggerButton","buttonId":"b7","profileId":3}"#) {
        ClientRequest::TriggerButton { button_id, profile_id } => {
            assert_eq!(button_id, "b7");
            assert_eq!(profile_id, None);
        }
        other => panic!("{other:?}"),
    }
}

#[test]
fn config_requests() {
    assert!(matches!(client_request(r#"{"type":"getConfig"}"#), ClientRequest::GetConfig));
}

#[test]
fn ignored_messages() {
    assert!(matches!(client_request(r#"{"type":"triggerButton"}"#), ClientRequest::Ignore));
    assert!(matches!(client_request(r#"{"type":"triggerButton","buttonId":5}"#), ClientRequest::Ignore));
    assert!(matches!(client_request(r#"{"type":"other"}"#), ClientRequest::Ignore));
    assert!(matches!(client_request("not json"), ClientRequest::Ignore));
    assert!(matches!(client_request("[1,2]"), ClientRequest::Ignore));
}
