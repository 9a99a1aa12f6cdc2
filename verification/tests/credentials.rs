use rsssh::credentials::{
    effective_credentials, netrc_credentials, override_from_env, read_netrc, Credentials,
    NetrcHost,
};

/// A fixed environment for the tests: one variable is set.
fn var(name: &str) -> Option<String> {
    match name {
        "RSSSH_EMAIL" => Some("env@example.com".to_string()),
        _ => None,
    }
}

#[test]
fn both_exist() {
    let value = Some("test@example.com".to_string());

    assert_eq!(Some("env@example.com".to_string()), override_from_env(value, var("RSSSH_EMAIL")));
}

#[test]
fn value_exists() {
    let value = Some("test@example.com".to_string());

    assert_eq!(value.clone(), override_from_env(value, var("ENV_VAR_THAT_DOES_NOT_EXIST")));
}

#[test]
fn env_exists() {
    assert_eq!(Some("env@example.com".to_string()), override_from_env(None, var("RSSSH_EMAIL")));
}

#[test]
fn neither_exists() {
    assert_eq!(None, override_from_env(None, var("ENV_VAR_THAT_DOES_NOT_EXIST")));
}

#[test]
fn empty_variable_does_not_override() {
    let value = Some("test@example.com".to_string());
    assert_eq!(value.clone(), override_from_env(value, Some(String::new())));
    assert_eq!(None, override_from_env(None, Some(String::new())));
}

#[test]
fn overrides_apply_to_email_and_password_independently() {
    let saved = Credentials {
        email: Some("saved@example.com".to_string()),
        password: Some("saved-secret".to_string()),
    };
    let merged = effective_credentials(saved, None, Some("from-env".to_string()));
    assert_eq!(
        merged,
        Credentials {
            email: Some("saved@example.com".to_string()),
            password: Some("from-env".to_string()),
        }
    );
}

#[test]
fn netrc_entry_for_rsssh_is_read() {
    let text = "machine example.com login other password nope\n\
                machine rsssh\n  login me@example.com\n  password MyPassword\n";
    assert_eq!(
        read_netrc(text),
        Some(Credentials {
            email: Some("me@example.com".to_string()),
            password: Some("MyPassword".to_string()),
        })
    );
}

#[test]
fn netrc_without_entry_gives_nothing() {
    let text = "machine example.com login other password nope\n";
    assert_eq!(read_netrc(text), Some(Credentials { email: None, password: None }));
}

#[test]
fn netrc_that_does_not_parse_gives_nothing() {
    assert_eq!(
        read_netrc("login before-any-machine"),
        Some(Credentials { email: None, password: None })
    );
}

#[test]
fn netrc_entry_without_password() {
    assert_eq!(
        read_netrc("machine rsssh login me@example.com"),
        Some(Credentials { email: Some("me@example.com".to_string()), password: None })
    );
}

#[test]
fn netrc_outside_ascii_is_not_read() {
    assert_eq!(read_netrc("machine rsssh login m\u{e9}@example.com password x"), None);
}

#[test]
fn first_entry_for_rsssh_counts_and_empty_login_is_none() {
    let hosts = vec![
        NetrcHost { name: "other".to_string(), login: "a".to_string(), password: None },
        NetrcHost {
            name: "rsssh".to_string(),
            login: String::new(),
            password: Some("first".to_string()),
        },
        NetrcHost {
            name: "rsssh".to_string(),
            login: "second@example.com".to_string(),
            password: Some("second".to_string()),
        },
    ];
    assert_eq!(
        netrc_credentials(Some(hosts)),
        Credentials { email: None, password: Some("first".to_string()) }
    );
    assert_eq!(netrc_credentials(None), Credentials { email: None, password: None });
    assert_eq!(netrc_credentials(Some(vec![])), Credentials { email: None, password: None });
}

#[test]
fn netrc_with_other_entries_and_macros() {
    let text = "default login anonymous password guest\n\
                machine rsssh login me@example.com password pw account acct port 22\n\
                macdef init\ncd /pub\nbin\n\n\
                machine later login x password y\n";
    assert_eq!(
        read_netrc(text),
        Some(Credentials {
            email: Some("me@example.com".to_string()),
            password: Some("pw".to_string()),
        })
    );
}

#[test]
fn netrc_with_a_bad_port_or_a_cut_entry_gives_nothing() {
    for text in [
        "machine rsssh login me@example.com password pw port seventy",
        "machine rsssh login",
        "machine",
        "machine rsssh login me@example.com passwd pw",
    ] {
        assert_eq!(read_netrc(text), Some(Credentials { email: None, password: None }));
    }
    assert_eq!(read_netrc(""), Some(Credentials { email: None, password: None }));
    assert_eq!(read_netrc(" \t\r\n\x0b\x0c "), Some(Credentials { email: None, password: None }));
}
