use ia_get_core::error::IaGetError;
use ia_get_core::http::Status;
use ia_get_core::login::{
    csrf_token, describe_login_error, login_error_text, login_request, login_session,
    LoginResponse, LoginResponseValue, LoginTokenResponse, LoginTokenValue,
};

fn status(code: u16) -> Status {
    Status::from_u16(code).unwrap()
}

fn reply(success: bool, word: Option<&str>, error: Option<&str>) -> LoginResponse {
    LoginResponse {
        success,
        value: word.map(|word| LoginResponseValue::Status(word.to_string())),
        error: error.map(|error| error.to_string()),
    }
}

#[test]
fn describe_login_error_for_bad_login() {
    let response = LoginResponse {
        success: false,
        value: Some(LoginResponseValue::Status("bad_login".to_string())),
        error: Some("Email address and/or Password incorrect".to_string()),
    };

    let description = describe_login_error(status(400), &response);
    assert!(description.contains("HTTP 400"));
    assert!(description.contains("Email address and/or password incorrect"));
    assert_eq!(
        description,
        "Authentication failed (HTTP 400 Bad Request): Email address and/or password incorrect"
    );
}

#[test]
fn login_error_reasons() {
    assert_eq!(
        login_error_text("S", &reply(false, Some("account_not_verified"), Some("e"))),
        "Authentication failed (HTTP S): Account email address is not verified. Check your inbox for verification instructions."
    );
    assert_eq!(
        login_error_text("S", &reply(false, Some("account_max_unverified"), None)),
        "Authentication failed (HTTP S): Too many verification emails have been sent. Contact info@archive.org for assistance."
    );
    assert_eq!(
        login_error_text("S", &reply(false, Some("Bad_login"), Some("e"))),
        "Authentication failed (HTTP S): Bad_login"
    );
    assert_eq!(
        login_error_text("S", &reply(false, None, Some("e"))),
        "Authentication failed (HTTP S): e"
    );
    let other = LoginResponse {
        success: false,
        value: Some(LoginResponseValue::Other),
        error: None,
    };
    assert_eq!(
        login_error_text("S", &other),
        "Authentication failed (HTTP S): Unknown authentication error"
    );
}

#[test]
fn status_codes_are_shown_with_their_reason() {
    assert_eq!(status(200).text(), "200 OK");
    assert_eq!(status(999).text(), "999 <unknown status code>");
    assert_eq!(status(100).text(), "100 Continue");
    assert_eq!(Status::from_u16(99), None);
    assert_eq!(Status::from_u16(1000), None);
    assert!(!status(199).is_success());
    assert!(status(200).is_success());
    assert!(status(299).is_success());
    assert!(!status(300).is_success());
}

#[test]
fn token_replies() {
    let token = |success: bool, value: Option<&str>, error: Option<&str>| {
        csrf_token(LoginTokenResponse {
            success,
            value: value.map(|token| LoginTokenValue { token: token.to_string() }),
            error: error.map(|error| error.to_string()),
        })
    };
    assert_eq!(token(true, Some("t1"), Some("ignored")), Ok("t1".to_string()));
    assert_eq!(
        token(true, None, Some("ignored")),
        Err(IaGetError::Network("Login token missing from response".to_string()))
    );
    assert_eq!(
        token(false, Some("t1"), Some("down")),
        Err(IaGetError::Network("Failed to obtain login token: down".to_string()))
    );
    assert_eq!(
        token(false, None, None),
        Err(IaGetError::Network(
            "Failed to obtain login token: Unknown token response error".to_string()
        ))
    );
}

#[test]
fn login_request_is_for_one_session() {
    let request = login_request("me", "pw", "t1".to_string());
    assert_eq!(request.username, "me");
    assert_eq!(request.password, "pw");
    assert_eq!(request.remember, "false");
    assert_eq!(request.t, "t1");
}

#[test]
fn login_sessions() {
    let cookie = || Some("a=b".to_string());
    assert_eq!(
        login_session(status(200), &reply(true, Some("ok"), None), cookie()),
        Ok("a=b".to_string())
    );
    assert_eq!(
        login_session(status(200), &reply(true, Some("ok"), None), None),
        Err(IaGetError::Network(
            "Authentication succeeded but archive.org did not return session cookies.".to_string()
        ))
    );
    assert_eq!(
        login_session(status(401), &reply(true, None, None), cookie()),
        Err(IaGetError::Network(
            "Authentication failed (HTTP 401 Unauthorized): Unknown authentication error"
                .to_string()
        ))
    );
    assert_eq!(
        login_session(status(200), &reply(false, Some("bad_login"), None), cookie()),
        Err(IaGetError::Network(
            "Authentication failed (HTTP 200 OK): Email address and/or password incorrect"
                .to_string()
        ))
    );
}
