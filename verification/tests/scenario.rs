use rsssh::config::HostConfig;
use rsssh::connect::connect;
use rsssh::credentials::{effective_credentials, Credentials};
use rsssh::discovery::{discovery_request, find_ips, InstancesResponse};
use rsssh::json::JsonValue;
use rsssh::request::{Method, Request};
use rsssh::selector::{select, Selection};
use rsssh::session::{begin_login, log_in, LoginResponse, LoginStep, LOGIN_URL, MAX_REDIRECTS};
use rsssh::ssh::ssh_connect;

fn listed(name: &str, ips: &[&str]) -> JsonValue {
    JsonValue::Object(vec![
        ("name".to_string(), JsonValue::Text(name.to_string())),
        (
            "public_ip_addresses".to_string(),
            JsonValue::List(ips.iter().map(|ip| JsonValue::Text(ip.to_string())).collect()),
        ),
    ])
}

#[test]
fn saved_alias_leads_to_the_one_server_with_an_address() {
    let credentials = effective_credentials(
        Credentials { email: None, password: None },
        Some("me@example.com".to_string()),
        Some("s3cret".to_string()),
    );
    let saved = HostConfig {
        account: Some(123),
        server: Some("web".to_string()),
        user: None,
        command: None,
        exact_match: Some(false),
    };
    let run = connect(HostConfig::empty(), Some(saved), credentials).unwrap();
    assert_eq!(run.target.account_id, 123);
    assert_eq!(run.target.server_pattern, "web");
    assert!(!run.target.exact_match);

    let login = begin_login(
        LOGIN_URL,
        &run.email,
        &run.password,
        run.target.account_id,
        MAX_REDIRECTS,
    );
    assert_eq!(login.request.method, Method::Post);
    assert_eq!(login.request.url, "https://my.rightscale.com/api/sessions");
    assert_eq!(
        login.request.body,
        Some("email=me@example.com&password=s3cret&account_href=/api/accounts/123".to_string())
    );

    let session = match log_in(
        login,
        LoginResponse {
            status: 204,
            location: None,
            set_cookies: vec!["rs_gbl=abc; path=/".to_string()],
            host: Some("us-3.example.com".to_string()),
        },
    ) {
        LoginStep::Session(session) => session,
        other => panic!("expected a session, got {:?}", other),
    };
    assert_eq!(session.shard_host, "us-3.example.com");

    let query = discovery_request(&session, &run.target);
    assert_eq!(
        query,
        Request {
            method: Method::Get,
            url: "https://us-3.example.com/api/instances?filter=name%3D%25web%25%26state%3Doperational"
                .to_string(),
            headers: vec![
                ("X-Api-Version".to_string(), "1.6".to_string()),
                ("X-Account".to_string(), "123".to_string()),
                ("Cookie".to_string(), "rs_gbl=abc".to_string()),
            ],
            body: None,
        }
    );

    let answer = InstancesResponse {
        status: 200,
        body: Some(JsonValue::List(vec![listed("web-1", &["10.0.0.1"]), listed("web-2", &[])])),
    };
    let found = find_ips(&answer).unwrap();
    assert_eq!(found, vec![("web-1".to_string(), "10.0.0.1".to_string())]);

    let ip = match select(&found, false) {
        Ok(Selection::Address(ip)) => ip,
        other => panic!("expected an address, got {:?}", other),
    };
    assert_eq!(ip, "10.0.0.1");

    let call = ssh_connect(ip, run.host_config.user.clone(), run.host_config.command.clone(), false);
    assert_eq!(call.argv[6], "rightscale@10.0.0.1");
    assert_eq!(call.argv[7], "");
}
