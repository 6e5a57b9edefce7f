use ia_get_core::auth::Cli;
use ia_get_core::error::IaGetError;
use ia_get_core::http::Status;
use ia_get_core::login::{LoginResponse, LoginResponseValue, LoginTokenResponse, LoginTokenValue};
use ia_get_core::plan::ListedFile;
use ia_get_core::run::{login_answer, Action, Event, Run};
use reqwest::header::{HeaderMap, HeaderValue, SET_COOKIE};

fn cli(credentials: Option<(&str, &str)>) -> Cli {
    Cli {
        url: "https://archive.org/details/item 1/".to_string(),
        username: credentials.map(|pair| pair.0.to_string()),
        password: credentials.map(|pair| pair.1.to_string()),
        password_stdin: false,
    }
}

fn file(name: &str, private: Option<&str>) -> ListedFile {
    ListedFile {
        name: name.to_string(),
        private: private.map(|mark| mark.to_string()),
        md5: None,
        sanitized_name: name.to_string(),
        was_modified: false,
    }
}

fn open_run_at_metadata() -> Run {
    Run::start(&cli(None), None)
        .unwrap_or_else(|error| panic!("{}", error.message()))
        .step(Event::UrlValid)
        .step(Event::ClientReady)
        .step(Event::Accessible)
        .step(Event::Accessible)
}

fn run_at_login() -> Run {
    Run::start(&cli(Some(("me", "pw"))), None)
        .unwrap_or_else(|error| panic!("{}", error.message()))
        .step(Event::UrlValid)
        .step(Event::ClientReady)
        .step(Event::Token(LoginTokenResponse {
            success: true,
            value: Some(LoginTokenValue { token: "t1".to_string() }),
            error: None,
        }))
}

fn login_reply(code: u16, success: bool, session_cookie: Option<&str>) -> Event {
    Event::LoginReply {
        status: Status::from_u16(code).unwrap(),
        session_cookie: session_cookie.map(|cookie| cookie.to_string()),
        payload: LoginResponse {
            success,
            value: Some(LoginResponseValue::Status("bad_login".to_string())),
            error: None,
        },
    }
}

#[test]
fn open_run_goes_from_url_to_downloads() {
    let run = Run::start(&cli(None), None).unwrap_or_else(|error| panic!("{}", error.message()));
    assert!(matches!(
        run.action(),
        Action::ValidateUrl { url: "https://archive.org/details/item 1/" }
    ));
    let run = run.step(Event::UrlValid);
    match run.action() {
        Action::BuildClient { settings } => assert_eq!(settings.cookie, None),
        _ => panic!("a client is built first"),
    }
    let run = run.step(Event::ClientReady);
    assert!(matches!(
        run.action(),
        Action::CheckItem { url: "https://archive.org/details/item 1/", timeout_secs: 60 }
    ));
    let run = run.step(Event::Accessible);
    assert!(matches!(
        run.action(),
        Action::CheckMetadata {
            url: "https://archive.org/download/item 1/item 1_files.xml",
            timeout_secs: 60
        }
    ));
    let run = run.step(Event::Accessible);
    assert!(matches!(
        run.action(),
        Action::FetchMetadata { url: "https://archive.org/download/item 1/item 1_files.xml" }
    ));
    let run = run.step(Event::Metadata(vec![file("a", None), file("b", Some("true"))]));
    match run.action() {
        Action::Download { plan, authenticated } => {
            assert!(!authenticated);
            assert_eq!(plan.private_count, 1);
            assert_eq!(plan.downloads.len(), 1);
            assert_eq!(plan.downloads[0].0, "https://archive.org/download/item%201/a");
        }
        _ => panic!("files are downloaded"),
    }
    let run = run.step(Event::Downloaded);
    assert!(matches!(run.action(), Action::Finish));
}

#[test]
fn run_with_credentials_logs_in_first() {
    let run = Run::start(&cli(Some(("me", "pw"))), None)
        .unwrap_or_else(|error| panic!("{}", error.message()))
        .step(Event::UrlValid)
        .step(Event::ClientReady);
    assert!(matches!(
        run.action(),
        Action::GetLoginToken {
            url: "https://archive.org/services/account/login/",
            timeout_secs: 60
        }
    ));
    let run = run_at_login();
    match run.action() {
        Action::PostLogin { url, timeout_secs, request } => {
            assert_eq!(url, "https://archive.org/services/account/login/");
            assert_eq!(timeout_secs, 60);
            assert_eq!(request.username, "me");
            assert_eq!(request.password, "pw");
            assert_eq!(request.remember, "false");
            assert_eq!(request.t, "t1");
        }
        _ => panic!("the login is sent"),
    }
    let run = run.step(login_reply(200, true, Some("a=b")));
    match run.action() {
        Action::BuildClient { settings } => assert_eq!(settings.cookie, Some(b"a=b".to_vec())),
        _ => panic!("a client with the cookie is built"),
    }
    let run = run.step(Event::ClientReady);
    assert!(matches!(run.action(), Action::CheckItem { .. }));
    let run = run
        .step(Event::Accessible)
        .step(Event::Accessible)
        .step(Event::Metadata(vec![file("b", Some("true"))]));
    match run.action() {
        Action::Download { plan, authenticated } => {
            assert!(authenticated);
            assert_eq!(plan.private_count, 0);
            assert_eq!(plan.downloads.len(), 1);
        }
        _ => panic!("private files are downloaded in a session"),
    }
}

#[test]
fn refused_credentials_end_before_the_run() {
    let error = match Run::start(&cli(Some((" ", "pw"))), None) {
        Ok(_) => panic!("a blank username is refused"),
        Err(error) => error,
    };
    assert_eq!(error.message(), "Authentication username cannot be empty.");
}

#[test]
fn failed_logins_end_the_run() {
    for (event, text) in [
        (
            login_reply(400, false, Some("a=b")),
            "Authentication failed (HTTP 400 Bad Request): Email address and/or password incorrect",
        ),
        (
            login_reply(200, true, None),
            "Authentication succeeded but archive.org did not return session cookies.",
        ),
    ] {
        let run = run_at_login().step(event);
        match run.action() {
            Action::ReportFailedLogin { error } => {
                assert_eq!(error, &IaGetError::Network(text.to_string()))
            }
            _ => panic!("the login has failed"),
        }
        assert!(matches!(
            run.step(Event::ClientReady).action(),
            Action::ReportFailedLogin { .. }
        ));
    }
}

#[test]
fn cookie_that_cannot_be_sent_ends_the_run() {
    let run = run_at_login().step(login_reply(200, true, Some("a\n")));
    match run.action() {
        Action::Fail { error } => assert_eq!(
            error.message(),
            "Invalid auth cookie value: failed to parse header value"
        ),
        _ => panic!("the run has failed"),
    };
}

#[test]
fn session_cookie_comes_from_the_headers_of_the_reply() {
    let mut headers = HeaderMap::new();
    headers.append(SET_COOKIE, HeaderValue::from_static("user=me; Path=/"));
    headers.append(SET_COOKIE, HeaderValue::from_static("sig=1; Secure"));
    let payload = LoginResponse { success: true, value: None, error: None };
    let answer = login_answer(Status::from_u16(200).unwrap(), &headers, payload);
    let run = run_at_login().step(answer);
    match run.action() {
        Action::BuildClient { settings } => {
            assert_eq!(settings.cookie, Some(b"user=me; sig=1".to_vec()))
        }
        _ => panic!("a client with the cookie is built"),
    };
    let payload = LoginResponse { success: false, value: None, error: Some("e".to_string()) };
    match login_answer(Status::from_u16(403).unwrap(), &HeaderMap::new(), payload) {
        Event::LoginReply { status, session_cookie, payload } => {
            assert_eq!(status.text(), "403 Forbidden");
            assert_eq!(session_cookie, None);
            assert!(!payload.success);
            assert_eq!(payload.error, Some("e".to_string()));
        }
        _ => panic!("a login reply"),
    };
}

#[test]
fn refused_token_ends_the_run() {
    let run = Run::start(&cli(Some(("me", "pw"))), None)
        .unwrap_or_else(|error| panic!("{}", error.message()))
        .step(Event::UrlValid)
        .step(Event::ClientReady)
        .step(Event::Token(LoginTokenResponse { success: false, value: None, error: None }));
    match run.action() {
        Action::ReportFailedLogin { error } => assert_eq!(
            error.message(),
            "Failed to obtain login token: Unknown token response error"
        ),
        _ => panic!("the login has failed"),
    };
}

#[test]
fn items_without_open_files() {
    let run = open_run_at_metadata().step(Event::Metadata(vec![
        file("a", Some("true")),
        file("b", Some("TRUE")),
    ]));
    match run.action() {
        Action::ReportNoFiles { private_count, error } => {
            assert_eq!(private_count, 2);
            assert!(error.message().contains("Try again with --username"));
        }
        _ => panic!("nothing can be downloaded"),
    }
    let run = open_run_at_metadata().step(Event::Metadata(Vec::new()));
    match run.action() {
        Action::ReportNoFiles { private_count, error } => {
            assert_eq!(private_count, 0);
            assert_eq!(error.message(), "No downloadable files found in archive metadata.");
        }
        _ => panic!("nothing can be downloaded"),
    };
}

#[test]
fn events_out_of_turn_change_nothing() {
    let run = Run::start(&cli(None), None)
        .unwrap_or_else(|error| panic!("{}", error.message()))
        .step(Event::ClientReady)
        .step(Event::Accessible)
        .step(Event::Downloaded)
        .step(Event::Metadata(vec![file("a", None)]));
    assert!(matches!(run.action(), Action::ValidateUrl { .. }));
}
