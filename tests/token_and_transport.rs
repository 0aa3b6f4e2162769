use zerotierone_controller::{
    auth_client, authtoken_path, default_token_path, local_client, platform_of, ControllerError,
    Platform, BAD_TOKEN,
};

#[test]
fn override_path_wins_on_every_platform() {
    for p in [Platform::Linux, Platform::Windows, Platform::MacOs, Platform::Other] {
        let r = authtoken_path(Some("/tmp/my.secret".to_string()), p);
        assert_eq!(r, Ok("/tmp/my.secret".to_string()));
    }
}

#[test]
fn default_paths_per_platform() {
    assert_eq!(
        authtoken_path(None, Platform::Linux),
        Ok("/var/lib/zerotier-one/authtoken.secret".to_string())
    );
    assert_eq!(
        authtoken_path(None, Platform::Windows),
        Ok("C:/ProgramData/ZeroTier/One/authtoken.secret".to_string())
    );
    assert_eq!(
        authtoken_path(None, Platform::MacOs),
        Ok("/Library/Application Support/ZeroTier/One/authtoken.secret".to_string())
    );
}

#[test]
fn unsupported_platform_is_config_error() {
    assert!(matches!(authtoken_path(None, Platform::Other), Err(ControllerError::Config(_))));
    assert!(matches!(default_token_path(Platform::Other), Err(ControllerError::Config(_))));
}

#[test]
fn platform_names() {
    assert_eq!(platform_of("linux"), Platform::Linux);
    assert_eq!(platform_of("windows"), Platform::Windows);
    assert_eq!(platform_of("macos"), Platform::MacOs);
    assert_eq!(platform_of("freebsd"), Platform::Other);
    assert_eq!(platform_of(""), Platform::Other);
}

#[test]
fn valid_token_builds_client() {
    assert!(auth_client("abcdef0123456789").is_ok());
    assert!(auth_client("").is_ok());
}

#[test]
fn nul_token_is_config_error() {
    assert!(matches!(auth_client("\0"), Err(ControllerError::Config(_))));
    assert!(matches!(auth_client("\0\0\0"), Err(ControllerError::Config(_))));
    assert!(matches!(local_client("\0".to_string()), Err(ControllerError::Config(_))));
}

#[test]
fn control_bytes_are_rejected_but_tab_is_not() {
    assert!(matches!(auth_client("ab\x7fcd"), Err(ControllerError::Config(_))));
    assert!(matches!(auth_client("ab\ncd"), Err(ControllerError::Config(_))));
    assert!(auth_client("ab\tcd").is_ok());
}

#[test]
fn trailing_newline_of_token_file_is_trimmed() {
    // a newline is not a valid header byte: it must be gone before the header is built
    assert!(matches!(auth_client("secret\n"), Err(ControllerError::Config(_))));
    assert!(local_client("secret\n".to_string()).is_ok());
    assert!(local_client("secret \r\n".to_string()).is_ok());
}

#[test]
fn inner_newline_of_token_file_is_kept_and_rejected() {
    assert!(matches!(local_client("sec\nret".to_string()), Err(ControllerError::Config(_))));
}

#[test]
fn token_error_text_is_fixed_and_hides_the_token() {
    match auth_client("top\0secret") {
        Err(ControllerError::Config(m)) => {
            assert_eq!(m, BAD_TOKEN);
            assert!(!m.contains("secret"));
        }
        other => panic!("unexpected result {:?}", other.map(|_| ())),
    }
    match local_client("\0".to_string()) {
        Err(ControllerError::Config(m)) => assert_eq!(m, BAD_TOKEN),
        other => panic!("unexpected result {:?}", other.map(|_| ())),
    }
}

#[test]
fn only_whitespace_is_trimmed() {
    // NUL is no whitespace: it stays and is rejected
    assert!(matches!(local_client("abc\0".to_string()), Err(ControllerError::Config(_))));
    assert!(local_client("abc123\n".to_string()).is_ok());
    assert!(local_client("abc123\u{3000}".to_string()).is_ok());
}
