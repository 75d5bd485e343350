use pam_rc2022::conversation::contains_terminator;
use pam_rc2022::{info, prompt_outcome, MessageStyle, PamResultCode, Prompt};

#[test]
fn plain_message_becomes_an_informational_prompt() {
    let prompt = info("status 503".to_string());
    assert_eq!(
        prompt,
        Ok(Prompt { style: MessageStyle::PAM_TEXT_INFO, text: "status 503".to_string() })
    );
}

#[test]
fn empty_message_is_accepted() {
    assert_eq!(
        info(String::new()),
        Ok(Prompt { style: MessageStyle::PAM_TEXT_INFO, text: String::new() })
    );
}

#[test]
fn embedded_terminator_is_a_buffer_error() {
    assert_eq!(info("a\0b".to_string()), Err(PamResultCode::PAM_BUF_ERR));
    assert_eq!(info("\0".to_string()), Err(PamResultCode::PAM_BUF_ERR));
    assert_eq!(info("trailing\0".to_string()), Err(PamResultCode::PAM_BUF_ERR));
}

#[test]
fn terminator_is_found_wherever_it_stands() {
    assert!(contains_terminator("\0abc"));
    assert!(contains_terminator("ab\0c"));
    assert!(contains_terminator("abc\0"));
    assert!(contains_terminator("\u{2603}\0"));
    assert!(!contains_terminator(""));
    assert!(!contains_terminator("abc"));
    assert!(!contains_terminator("0"));
    assert!(!contains_terminator("\u{100}\u{2603}"));
}

#[test]
fn only_success_counts_as_shown() {
    assert_eq!(prompt_outcome(PamResultCode::PAM_SUCCESS), Ok(()));
    assert_eq!(prompt_outcome(PamResultCode::PAM_CONV_ERR), Err(PamResultCode::PAM_CONV_ERR));
    assert_eq!(prompt_outcome(PamResultCode::PAM_IGNORE), Err(PamResultCode::PAM_IGNORE));
    assert_eq!(prompt_outcome(PamResultCode::PAM_BUF_ERR), Err(PamResultCode::PAM_BUF_ERR));
}
