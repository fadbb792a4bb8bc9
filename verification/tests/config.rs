use zendesk::{Config, ConfigError};

#[test]
fn test_auth_present() {
    assert_eq!(Config::new(String::from("username"),
                           String::from("http://zendesk.com"),
                           None,
                           None)
                   .unwrap_err(),
               ConfigError::MissingAuth);

    let test_config = Config {
        url: String::from("http://zendesk.com"),
        username: String::from("username"),
        password: None,
        token: Some(String::from("abc123")),
    };
    assert_eq!(Config::new(String::from("http://zendesk.com"),
                           String::from("username"),
                           None,
                           Some(String::from("abc123")))
                   .unwrap(),
               test_config);
}

#[test]
fn new_without_token_and_password_is_missing_auth() {
    let result = Config::new(
        String::from("http://zendesk.com"),
        String::from("username"),
        None,
        None,
    );
    assert_eq!(result, Err(ConfigError::MissingAuth));
}

#[test]
fn new_without_credentials_fails_whatever_the_url_and_username() {
    let pairs = vec![
        ("http://zendesk.com", "username"),
        ("", ""),
        ("not a url", "someone@example.com"),
        ("https://example.zendesk.com/api/v2", ""),
    ];
    for (url, username) in pairs {
        let result = Config::new(String::from(url), String::from(username), None, None);
        assert_eq!(result.unwrap_err(), ConfigError::MissingAuth);
    }
}

#[test]
fn new_with_token_keeps_all_four_inputs() {
    let config = Config::new(
        String::from("http://zendesk.com"),
        String::from("username"),
        None,
        Some(String::from("abc123")),
    )
    .unwrap();
    assert_eq!(config.url, "http://zendesk.com");
    assert_eq!(config.username, "username");
    assert_eq!(config.password, None);
    assert_eq!(config.token, Some(String::from("abc123")));
}

#[test]
fn new_with_password_only_succeeds() {
    let config = Config::new(
        String::from("http://zendesk.com"),
        String::from("username"),
        Some(String::from("hunter2")),
        None,
    )
    .unwrap();
    assert_eq!(config.url, "http://zendesk.com");
    assert_eq!(config.username, "username");
    assert_eq!(config.password, Some(String::from("hunter2")));
    assert_eq!(config.token, None);
}

#[test]
fn new_with_token_and_password_keeps_both() {
    let config = Config::new(
        String::from("http://zendesk.com"),
        String::from("username"),
        Some(String::from("hunter2")),
        Some(String::from("abc123")),
    )
    .unwrap();
    assert_eq!(config.password, Some(String::from("hunter2")));
    assert_eq!(config.token, Some(String::from("abc123")));
}

#[test]
fn new_does_not_swap_password_and_token() {
    let config = Config::new(
        String::from("u"),
        String::from("n"),
        Some(String::from("first")),
        Some(String::from("second")),
    )
    .unwrap();
    assert_eq!(config.password.as_deref(), Some("first"));
    assert_eq!(config.token.as_deref(), Some("second"));
}

#[test]
fn new_accepts_empty_url_and_username() {
    let config = Config::new(String::new(), String::new(), None, Some(String::from("abc123")))
        .unwrap();
    assert_eq!(config.url, "");
    assert_eq!(config.username, "");
    assert_eq!(config.token, Some(String::from("abc123")));
}

#[test]
fn new_accepts_an_empty_credential_as_present() {
    let config = Config::new(
        String::from("http://zendesk.com"),
        String::from("username"),
        Some(String::new()),
        None,
    )
    .unwrap();
    assert_eq!(config.password, Some(String::new()));
    assert_eq!(config.token, None);
}

#[test]
fn new_keeps_text_as_given() {
    let config = Config::new(
        String::from("  HTTP://Zendesk.COM/  "),
        String::from(" User Name\t"),
        Some(String::from("p\u{e4}ss w\u{f6}rd")),
        None,
    )
    .unwrap();
    assert_eq!(config.url, "  HTTP://Zendesk.COM/  ");
    assert_eq!(config.username, " User Name\t");
    assert_eq!(config.password.as_deref(), Some("p\u{e4}ss w\u{f6}rd"));
}

#[test]
fn new_twice_with_the_same_inputs_gives_equal_results() {
    let build = || {
        Config::new(
            String::from("http://zendesk.com"),
            String::from("username"),
            Some(String::from("hunter2")),
            Some(String::from("abc123")),
        )
    };
    assert_eq!(build(), build());
    assert!(build().is_ok());

    let fail = || Config::new(String::from("http://zendesk.com"), String::from("username"), None, None);
    assert_eq!(fail(), fail());
    assert_eq!(fail(), Err(ConfigError::MissingAuth));
}

#[test]
fn configs_compare_by_every_field() {
    let base = || Config {
        url: String::from("http://zendesk.com"),
        username: String::from("username"),
        token: Some(String::from("abc123")),
        password: None,
    };
    assert!(base() == base());

    let mut other = base();
    other.url = String::from("http://zendesk.org");
    assert!(base() != other);

    let mut other = base();
    other.username = String::from("someone");
    assert!(base() != other);

    let mut other = base();
    other.token = Some(String::from("abc124"));
    assert!(base() != other);

    let mut other = base();
    other.token = None;
    assert!(base() != other);

    let mut other = base();
    other.password = Some(String::new());
    assert!(base() != other);

    let mut other = base();
    other.password = Some(String::from("abc123"));
    other.token = None;
    assert!(base() != other);
}

#[test]
fn errors_are_three_different_tags() {
    assert_ne!(ConfigError::MissingUsername, ConfigError::MissingURL);
    assert_ne!(ConfigError::MissingUsername, ConfigError::MissingAuth);
    assert_ne!(ConfigError::MissingURL, ConfigError::MissingAuth);
    let copy = ConfigError::MissingAuth;
    let same = copy;
    assert_eq!(copy, same);
    assert_eq!(format!("{:?}", ConfigError::MissingURL), "MissingURL");
}
