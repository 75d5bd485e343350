use pam_rc2022::{decode, get_item, get_rhost, get_user, normalize_rhost, PamResultCode};

#[test]
fn present_value_is_taken() {
    let item = get_item(PamResultCode::PAM_SUCCESS, Some(b"alice".to_vec()));
    assert_eq!(item, Ok(b"alice".to_vec()));
}

#[test]
fn present_value_is_taken_whatever_the_code() {
    let item = get_item(PamResultCode::PAM_BAD_ITEM, Some(vec![1, 2, 3]));
    assert_eq!(item, Ok(vec![1, 2, 3]));
}

#[test]
fn missing_value_fails_with_the_host_code() {
    assert_eq!(get_item(PamResultCode::PAM_BAD_ITEM, None), Err(PamResultCode::PAM_BAD_ITEM));
    assert_eq!(get_item(PamResultCode::PAM_SYSTEM_ERR, None), Err(PamResultCode::PAM_SYSTEM_ERR));
    assert_eq!(get_user(PamResultCode::PAM_PERM_DENIED, None), Err(PamResultCode::PAM_PERM_DENIED));
    assert_eq!(get_rhost(PamResultCode::PAM_BUF_ERR, None), Err(PamResultCode::PAM_BUF_ERR));
}

#[test]
fn missing_value_under_success_is_no_data() {
    assert_eq!(get_item(PamResultCode::PAM_SUCCESS, None), Err(PamResultCode::PAM_NO_MODULE_DATA));
    assert_eq!(get_user(PamResultCode::PAM_SUCCESS, None), Err(PamResultCode::PAM_NO_MODULE_DATA));
    assert_eq!(get_rhost(PamResultCode::PAM_SUCCESS, None), Err(PamResultCode::PAM_NO_MODULE_DATA));
}

#[test]
fn well_formed_bytes_decode_to_their_text() {
    assert_eq!(decode(b"alice"), "alice");
    assert_eq!(decode(b""), "");
    assert_eq!(decode("gr\u{fc}\u{df}e \u{2603}".as_bytes()), "gr\u{fc}\u{df}e \u{2603}");
}

#[test]
fn malformed_bytes_are_replaced_not_refused() {
    assert_eq!(decode(&[0x66, 0xff, 0x6f]), "f\u{fffd}o");
    assert_eq!(decode(&[0xc3]), "\u{fffd}");
    assert_eq!(decode(&[0x80, 0x80]), "\u{fffd}\u{fffd}");
    let every_byte: Vec<u8> = (0..=255).collect();
    assert!(decode(&every_byte).starts_with("\u{0}\u{1}\u{2}"));
}

#[test]
fn user_is_decoded_without_further_change() {
    assert_eq!(get_user(PamResultCode::PAM_SUCCESS, Some(b"alice".to_vec())), Ok("alice".to_string()));
    assert_eq!(get_user(PamResultCode::PAM_SUCCESS, Some(Vec::new())), Ok(String::new()));
    assert_eq!(
        get_user(PamResultCode::PAM_SUCCESS, Some(vec![0x62, 0xfe, 0x62])),
        Ok("b\u{fffd}b".to_string())
    );
}

#[test]
fn empty_remote_host_becomes_unknown() {
    assert_eq!(
        get_rhost(PamResultCode::PAM_SUCCESS, Some(Vec::new())),
        Ok("<unknown>".to_string())
    );
    assert_eq!(normalize_rhost(String::new()), "<unknown>");
}

#[test]
fn remote_host_passes_through() {
    assert_eq!(
        get_rhost(PamResultCode::PAM_SUCCESS, Some(b"203.0.113.9".to_vec())),
        Ok("203.0.113.9".to_string())
    );
    assert_eq!(normalize_rhost("10.0.0.5".to_string()), "10.0.0.5");
    assert_eq!(normalize_rhost(" ".to_string()), " ");
    assert_eq!(normalize_rhost("<unknown>".to_string()), "<unknown>");
}

#[test]
fn malformed_remote_host_is_not_taken_for_empty() {
    assert_eq!(get_rhost(PamResultCode::PAM_SUCCESS, Some(vec![0xff])), Ok("\u{fffd}".to_string()));
    assert_eq!(
        get_rhost(PamResultCode::PAM_SUCCESS, Some(vec![0xc3, 0x28])),
        Ok("\u{fffd}(".to_string())
    );
    assert_eq!(decode(&[0x80]), "\u{fffd}");
    assert_eq!(decode(&[0]), "\u{0}");
}
