use pam_rc2022::relay::{AGENT_HEADER, CONTENT_FIELD};
use pam_rc2022::{
    decimal, is_success_status, judge, login_message, OutboundRequest, PamResultCode,
    TransferOutcome, Verdict,
};

#[test]
fn login_line_names_user_and_origin() {
    assert_eq!(login_message("alice", "10.0.0.5"), "alice logging in from 10.0.0.5");
    assert_eq!(login_message("bob", "<unknown>"), "bob logging in from <unknown>");
    assert_eq!(login_message("", ""), " logging in from ");
}

#[test]
fn status_codes_in_the_two_hundreds_succeed() {
    assert!(is_success_status(200));
    assert!(is_success_status(204));
    assert!(is_success_status(299));
}

#[test]
fn other_status_codes_fail() {
    assert!(!is_success_status(404));
    assert!(!is_success_status(500));
    assert!(!is_success_status(301));
    assert!(!is_success_status(101));
    assert!(!is_success_status(199));
    assert!(!is_success_status(300));
    assert!(!is_success_status(0));
    assert!(!is_success_status(2));
    assert!(!is_success_status(20));
    assert!(!is_success_status(2000));
    assert!(!is_success_status(u32::MAX));
}

#[test]
fn numbers_are_written_in_decimal() {
    assert_eq!(decimal(0), "0");
    assert_eq!(decimal(7), "7");
    assert_eq!(decimal(10), "10");
    assert_eq!(decimal(503), "503");
    assert_eq!(decimal(1000), "1000");
    assert_eq!(decimal(u32::MAX), "4294967295");
}

#[test]
fn request_carries_the_message_under_the_fixed_header() {
    let request = OutboundRequest::new("https://example.invalid/hook", "hello".to_string());
    assert_eq!(request.url, "https://example.invalid/hook");
    assert_eq!(request.header, "User-Agent: pam_rc2022");
    assert_eq!(request.field, "content");
    assert_eq!(request.content, "hello");
    assert_eq!(AGENT_HEADER, "User-Agent: pam_rc2022");
    assert_eq!(CONTENT_FIELD, "content");
}

#[test]
fn failed_setup_is_a_system_error() {
    assert_eq!(
        judge(TransferOutcome::SetupFailed),
        Verdict::Settled(Err(PamResultCode::PAM_SYSTEM_ERR))
    );
}

#[test]
fn failed_transport_is_ignored() {
    assert_eq!(
        judge(TransferOutcome::TransportFailed),
        Verdict::Settled(Err(PamResultCode::PAM_IGNORE))
    );
}

#[test]
fn unreadable_status_is_reported_as_a_system_error() {
    assert_eq!(
        judge(TransferOutcome::StatusUnavailable("[48] no such option".to_string())),
        Verdict::Diagnose {
            text: "can't perform discord webhook: [48] no such option".to_string(),
            fallback: PamResultCode::PAM_SYSTEM_ERR,
        }
    );
}

#[test]
fn accepted_status_settles_with_success() {
    assert_eq!(judge(TransferOutcome::Status(200)), Verdict::Settled(Ok(())));
    assert_eq!(judge(TransferOutcome::Status(204)), Verdict::Settled(Ok(())));
    assert_eq!(judge(TransferOutcome::Status(299)), Verdict::Settled(Ok(())));
}

#[test]
fn refused_status_is_reported_and_ignored() {
    assert_eq!(
        judge(TransferOutcome::Status(503)),
        Verdict::Diagnose {
            text: "can't send message to discord: got status code 503".to_string(),
            fallback: PamResultCode::PAM_IGNORE,
        }
    );
    assert_eq!(
        judge(TransferOutcome::Status(0)),
        Verdict::Diagnose {
            text: "can't send message to discord: got status code 0".to_string(),
            fallback: PamResultCode::PAM_IGNORE,
        }
    );
}
