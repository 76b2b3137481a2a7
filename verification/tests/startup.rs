use kbot::StartupError;
use kbot::check_token;

#[test]
fn missing_token_is_fatal() {
    match check_token(None) {
        Err(StartupError::MissingToken) => {}
        Ok(_) => panic!("startup must fail when no token is present"),
    }
}

#[test]
fn present_token_passes_through() {
    match check_token(Some("abc123".to_string())) {
        Ok(token) => assert_eq!(token, "abc123"),
        Err(_) => panic!("startup must proceed when a token is present"),
    }
}
