use ia_get_core::auth::{reads_password_from_stdin, resolve_auth_credentials, Cli};
use ia_get_core::error::IaGetError;

fn stdin_cli(username: &str) -> Cli {
    Cli {
        url: "https://archive.org/details/item1".to_string(),
        username: Some(username.to_string()),
        password: None,
        password_stdin: true,
    }
}

#[test]
fn resolve_auth_credentials_without_auth() {
    let cli = Cli {
        url: "https://archive.org/details/item1".to_string(),
        username: None,
        password: None,
        password_stdin: false,
    };

    let credentials = resolve_auth_credentials(&cli, None).expect("No auth should be valid");
    assert!(credentials.is_none());
}

#[test]
fn resolve_auth_credentials_requires_password() {
    let cli = Cli {
        url: "https://archive.org/details/item1".to_string(),
        username: Some("user@example.com".to_string()),
        password: None,
        password_stdin: false,
    };

    let error = resolve_auth_credentials(&cli, None).expect_err("Missing password should fail");
    assert!(error.message().contains("Authentication requires --password"));
    assert_eq!(
        error,
        IaGetError::Network(
            "Authentication requires --password or --password-stdin when --username is set."
                .to_string()
        )
    );
}

#[test]
fn resolve_auth_credentials_rejects_empty_username() {
    let cli = Cli {
        url: "https://archive.org/details/item1".to_string(),
        username: Some("   ".to_string()),
        password: Some("s3cret".to_string()),
        password_stdin: false,
    };

    let error = resolve_auth_credentials(&cli, None).expect_err("Empty username should fail");
    assert!(error.message().contains("username cannot be empty"));
}

#[test]
fn resolve_auth_credentials_with_password() {
    let cli = Cli {
        url: "https://archive.org/details/item1".to_string(),
        username: Some("user@example.com".to_string()),
        password: Some("s3cret".to_string()),
        password_stdin: false,
    };

    let credentials = resolve_auth_credentials(&cli, None).expect("Credentials should resolve");
    assert_eq!(
        credentials,
        Some(("user@example.com".to_string(), "s3cret".to_string()))
    );
}

#[test]
fn resolve_auth_credentials_rejects_empty_password() {
    let cli = Cli {
        url: "https://archive.org/details/item1".to_string(),
        username: Some("user@example.com".to_string()),
        password: Some("".to_string()),
        password_stdin: false,
    };

    let error = resolve_auth_credentials(&cli, None).expect_err("Empty password should fail");
    assert!(error.message().contains("password cannot be empty"));
}

#[test]
fn password_from_stdin_loses_its_line_break_only() {
    let cli = stdin_cli(" user ");
    assert!(reads_password_from_stdin(&cli));
    for line in [" s3cret ", " s3cret \n", " s3cret \r\n"] {
        assert_eq!(
            resolve_auth_credentials(&cli, Some(line.to_string())),
            Ok(Some((" user ".to_string(), " s3cret ".to_string())))
        );
    }
}

#[test]
fn password_from_stdin_can_be_empty() {
    assert_eq!(
        resolve_auth_credentials(&stdin_cli("user"), Some("\r\n".to_string())),
        Err(IaGetError::Network("Authentication password cannot be empty.".to_string()))
    );
}

#[test]
fn stdin_is_read_only_where_it_is_asked_for() {
    assert!(!reads_password_from_stdin(&stdin_cli("  \t\u{a0}\u{3000}\n")));
    let mut cli = stdin_cli("user");
    cli.password = Some("flag".to_string());
    assert!(!reads_password_from_stdin(&cli));
    assert_eq!(
        resolve_auth_credentials(&cli, None),
        Ok(Some(("user".to_string(), "flag".to_string())))
    );
    cli.username = None;
    cli.password = None;
    assert!(!reads_password_from_stdin(&cli));
    assert_eq!(resolve_auth_credentials(&cli, None), Ok(None));
}

#[test]
fn blank_username_is_refused_before_stdin_is_read() {
    assert_eq!(
        resolve_auth_credentials(&stdin_cli("\u{2003}"), None),
        Err(IaGetError::Network("Authentication username cannot be empty.".to_string()))
    );
    // A zero width space is not white space.
    assert_eq!(
        resolve_auth_credentials(&stdin_cli("\u{200b}"), Some("p".to_string())),
        Ok(Some(("\u{200b}".to_string(), "p".to_string())))
    );
}
