//! Tests of the authorization gateway's state machine, and of the
//! request-input helpers: id parsing, media types, and validation.

use poster::gateway::Author;
use poster::gateway::GatewayDecision;
use poster::gateway::VerifierReply;
use poster::ident::parse_post_id;
use poster::models::check_caption;
use poster::models::check_username;
use poster::models::file_extension;
use poster::models::Ext;
use poster::models::GatewayError;
use poster::models::ImageFile;
use poster::models::PostCreate;
use poster::models::ServiceError;

fn creds(u: Option<&str>, t: Option<&str>) -> (Option<String>, Option<String>) {
    (u.map(|s| s.to_string()), t.map(|s| s.to_string()))
}

#[test]
fn gateway_missing_username_short_circuits() {
    let (u, t) = creds(None, Some("tok"));
    let run = Author::gate(u, t, &VerifierReply::Status(200));
    assert_eq!(run.decision, GatewayDecision::ShortCircuit(GatewayError::BadRequest));
    assert!(!run.verifier_called);
}

#[test]
fn gateway_missing_token_short_circuits() {
    let (u, t) = creds(Some("alice"), None);
    let run = Author::gate(u, t, &VerifierReply::Status(200));
    assert_eq!(run.decision, GatewayDecision::ShortCircuit(GatewayError::BadRequest));
    assert!(!run.verifier_called);
}

#[test]
fn gateway_missing_both_short_circuits() {
    let (u, t) = creds(None, None);
    let run = Author::gate(u, t, &VerifierReply::TransportFault);
    assert_eq!(run.decision, GatewayDecision::ShortCircuit(GatewayError::BadRequest));
    assert!(!run.verifier_called);
}

#[test]
fn gateway_status_200_proceeds() {
    let (u, t) = creds(Some("alice"), Some("tok"));
    let run = Author::gate(u, t, &VerifierReply::Status(200));
    assert_eq!(run.decision, GatewayDecision::Proceed);
    assert!(run.verifier_called);
}

#[test]
fn gateway_other_status_is_unauthorized() {
    for status in [201u16, 301, 401, 403, 500] {
        let (u, t) = creds(Some("alice"), Some("tok"));
        let run = Author::gate(u, t, &VerifierReply::Status(status));
        assert_eq!(run.decision, GatewayDecision::ShortCircuit(GatewayError::Unauthorized));
        assert!(run.verifier_called);
    }
}

#[test]
fn gateway_transport_fault_is_service_unavailable() {
    let (u, t) = creds(Some("alice"), Some("tok"));
    let run = Author::gate(u, t, &VerifierReply::TransportFault);
    assert_eq!(run.decision, GatewayDecision::ShortCircuit(GatewayError::ServiceUnavailable));
    assert!(run.verifier_called);
}

#[test]
fn extract_credentials_hands_back_the_pair() {
    let (u, t) = creds(Some("alice"), Some("tok"));
    let v = Author::extract_credentials(u, t).unwrap();
    assert_eq!(v.username, "alice");
    assert_eq!(v.access_token, "tok");
}

#[test]
fn extract_credentials_refuses_missing_credential() {
    let (u, t) = creds(None, Some("tok"));
    assert_eq!(Author::extract_credentials(u, t).err(), Some(GatewayError::BadRequest));
}

#[test]
fn interpret_verifier_outcomes() {
    assert_eq!(Author::interpret_verifier(&VerifierReply::Status(200)), Ok(true));
    assert_eq!(Author::interpret_verifier(&VerifierReply::Status(404)), Ok(false));
    assert_eq!(
        Author::interpret_verifier(&VerifierReply::TransportFault),
        Err(GatewayError::ServiceUnavailable)
    );
}

#[test]
fn parse_post_id_reads_canonical_uuid() {
    let r = parse_post_id("550e8400-e29b-41d4-a716-446655440000").unwrap();
    assert_eq!(r.id, 0x550e8400_e29b_41d4_a716_446655440000u128);
}

#[test]
fn parse_post_id_reads_simple_form() {
    let r = parse_post_id("000000000000000000000000000000ff").unwrap();
    assert_eq!(r.id, 255);
}

#[test]
fn parse_post_id_refuses_malformed_segment() {
    assert_eq!(parse_post_id("not-a-uuid").err(), Some(ServiceError::Validation));
    assert_eq!(parse_post_id("").err(), Some(ServiceError::Validation));
}

#[test]
fn file_extension_follows_allow_list() {
    assert_eq!(file_extension(&"image/png".to_string()), Some(Ext::Png));
    assert_eq!(file_extension(&"image/jpeg".to_string()), Some(Ext::Jpg));
    assert_eq!(file_extension(&"image/gif".to_string()), None);
    assert_eq!(file_extension(&"text/plain".to_string()), None);
}

#[test]
fn username_and_caption_length_rules() {
    assert!(!check_username(&"ab".to_string()));
    assert!(check_username(&"abc".to_string()));
    assert!(check_username(&"a".repeat(20)));
    assert!(!check_username(&"a".repeat(21)));
    assert!(check_caption(&None));
    assert!(check_caption(&Some("x".repeat(256))));
    assert!(!check_caption(&Some("x".repeat(257))));
}

#[test]
fn validate_reports_validation_error() {
    let bad = PostCreate {
        username: "ab".to_string(),
        img_file: ImageFile { file_type: "image/png".to_string(), data: vec![1] },
        caption: None,
    };
    assert_eq!(bad.validate().err(), Some(ServiceError::Validation));
    let good = PostCreate {
        username: "alice".to_string(),
        img_file: ImageFile { file_type: "image/png".to_string(), data: vec![1] },
        caption: Some("hello".to_string()),
    };
    assert!(good.validate().is_ok());
}
