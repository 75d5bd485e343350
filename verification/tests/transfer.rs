use pam_rc2022::{
    discord_webhook, status_outcome, transfer_outcome, OutboundRequest, TransferOutcome,
};

fn request_to(url: &str) -> OutboundRequest {
    OutboundRequest::new(url, "alice logging in from 10.0.0.5".to_string())
}

#[test]
fn ordinary_request_is_set_up() {
    assert!(discord_webhook(&request_to("https://example.invalid/hook")).is_ok());
}

#[test]
fn empty_message_is_set_up() {
    let request = OutboundRequest::new("https://example.invalid/hook", String::new());
    assert!(discord_webhook(&request).is_ok());
}

#[test]
fn address_with_terminator_fails_setup() {
    let ready = discord_webhook(&request_to("https://example.invalid/\0hook"));
    assert_eq!(ready.err(), Some(TransferOutcome::SetupFailed));
}

#[test]
fn header_with_terminator_fails_setup() {
    let mut request = request_to("https://example.invalid/hook");
    request.header = "User-Agent: pam\0rc2022".to_string();
    assert_eq!(discord_webhook(&request).err(), Some(TransferOutcome::SetupFailed));
}

#[test]
fn empty_field_name_fails_setup() {
    let mut request = request_to("https://example.invalid/hook");
    request.field = String::new();
    assert_eq!(discord_webhook(&request).err(), Some(TransferOutcome::SetupFailed));
}

#[test]
fn other_field_name_is_set_up() {
    let mut request = request_to("https://example.invalid/hook");
    request.field = "c".to_string();
    assert!(discord_webhook(&request).is_ok());
}

#[test]
fn failed_transfer_is_a_transport_failure() {
    let easy = discord_webhook(&request_to("https://example.invalid/hook")).unwrap();
    assert_eq!(transfer_outcome(&easy, false), TransferOutcome::TransportFailed);
}

#[test]
fn handle_without_response_reports_status_zero() {
    let easy = discord_webhook(&request_to("https://example.invalid/hook")).unwrap();
    assert_eq!(transfer_outcome(&easy, true), TransferOutcome::Status(0));
}

#[test]
fn transfer_that_cannot_start_is_a_transport_failure() {
    let easy = discord_webhook(&request_to("no-such-scheme://example.invalid/hook")).unwrap();
    let performed = easy.perform().is_ok();
    assert!(!performed);
    assert_eq!(transfer_outcome(&easy, performed), TransferOutcome::TransportFailed);
}

#[test]
fn status_that_was_read_is_the_outcome() {
    assert_eq!(status_outcome(Ok(204)), TransferOutcome::Status(204));
    assert_eq!(status_outcome(Ok(503)), TransferOutcome::Status(503));
    assert_eq!(status_outcome(Ok(0)), TransferOutcome::Status(0));
}

#[test]
fn status_that_could_not_be_read_gives_the_error_text() {
    let why = curl::Error::new(48);
    let reason = format!("{}", why);
    assert!(reason.starts_with("[48] "));
    assert_eq!(status_outcome(Err(why)), TransferOutcome::StatusUnavailable(reason));
}
