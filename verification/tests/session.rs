use rsssh::connect::ConnectionTarget;
use rsssh::discovery::discovery_request;
use rsssh::error::Error;
use rsssh::request::Method;
use rsssh::session::{
    begin_login, collect_cookies, log_in, login_request, Login, LoginResponse, LoginStep,
    LOGIN_URL, MAX_REDIRECTS,
};

fn answer(status: u16, location: Option<&str>, host: &str) -> LoginResponse {
    LoginResponse {
        status,
        location: location.map(|l| l.to_string()),
        set_cookies: vec![],
        host: Some(host.to_string()),
    }
}

fn target() -> ConnectionTarget {
    ConnectionTarget { account_id: 123, server_pattern: "web".to_string(), exact_match: false }
}

fn form(account: i64) -> String {
    login_request("u", "e", "p", account).body.unwrap()
}

#[test]
fn login_form_names_email_password_and_account() {
    let request = login_request("https://my.rightscale.com/api/sessions", "me@example.com", "s3cret", 60073);
    assert_eq!(request.method, Method::Post);
    assert_eq!(request.url, "https://my.rightscale.com/api/sessions");
    assert_eq!(
        request.body,
        Some("email=me@example.com&password=s3cret&account_href=/api/accounts/60073".to_string())
    );
    assert_eq!(request.headers, vec![("X-Api-Version".to_string(), "1.5".to_string())]);
}

#[test]
fn login_form_writes_negative_and_extreme_accounts() {
    assert_eq!(form(0), "email=e&password=p&account_href=/api/accounts/0");
    assert_eq!(form(-42), "email=e&password=p&account_href=/api/accounts/-42");
    assert_eq!(form(i64::MAX), "email=e&password=p&account_href=/api/accounts/9223372036854775807");
    assert_eq!(form(i64::MIN), "email=e&password=p&account_href=/api/accounts/-9223372036854775808");
}

#[test]
fn login_form_takes_the_credentials_as_they_are() {
    let request = login_request("u", "a&b=c@example.com", "p w%d", 1);
    assert_eq!(
        request.body,
        Some("email=a&b=c@example.com&password=p w%d&account_href=/api/accounts/1".to_string())
    );
}

fn login(max_redirects: u32) -> Login {
    begin_login(LOGIN_URL, "me@example.com", "s3cret", 60073, max_redirects)
}

#[test]
fn login_starts_at_the_central_address() {
    let start = login(MAX_REDIRECTS);
    assert_eq!(
        start.request,
        login_request(
            "https://my.rightscale.com/api/sessions",
            "me@example.com",
            "s3cret",
            60073
        )
    );
    assert_eq!(start.hops_left, 5);
}

#[test]
fn redirect_then_success_lands_on_the_second_shard() {
    let first = answer(302, Some("https://shard2.example/api/sessions"), "my.rightscale.com");
    let next = match log_in(login(5), first) {
        LoginStep::Redirected(next) => next,
        other => panic!("expected a redirect, got {:?}", other),
    };
    assert_eq!(
        next.request,
        login_request("https://shard2.example/api/sessions", "me@example.com", "s3cret", 60073)
    );
    assert_eq!(next.hops_left, 4);

    let second = answer(204, None, "shard2.example");
    match log_in(next, second) {
        LoginStep::Session(session) => assert_eq!(session.shard_host, "shard2.example"),
        other => panic!("expected a session, got {:?}", other),
    }
}

#[test]
fn third_redirect_is_one_too_many_with_a_limit_of_two() {
    let mut state = login(2);
    for shard in ["https://a.example/api/sessions", "https://b.example/api/sessions"] {
        match log_in(state, answer(302, Some(shard), "my.rightscale.com")) {
            LoginStep::Redirected(next) => {
                assert_eq!(next.request.url, shard);
                state = next;
            }
            other => panic!("expected a redirect, got {:?}", other),
        }
    }
    assert_eq!(state.hops_left, 0);
    match log_in(state, answer(302, Some("https://c.example/api/sessions"), "b.example")) {
        LoginStep::Failed(error) => assert_eq!(error, Error::TooManyRedirects),
        other => panic!("expected a failure, got {:?}", other),
    }
}

#[test]
fn other_statuses_are_refusals() {
    for status in [200u16, 301, 401, 403, 500] {
        match log_in(login(5), answer(status, Some("https://x.example/"), "my.rightscale.com")) {
            LoginStep::Failed(error) => assert_eq!(error, Error::AuthenticationFailed(status)),
            other => panic!("expected a failure, got {:?}", other),
        }
    }
    match log_in(login(5), answer(302, None, "my.rightscale.com")) {
        LoginStep::Failed(error) => assert_eq!(error, Error::AuthenticationFailed(302)),
        other => panic!("expected a failure, got {:?}", other),
    }
}

#[test]
fn success_from_a_host_without_a_name_leads_nowhere() {
    let response = LoginResponse { status: 204, location: None, set_cookies: vec![], host: None };
    match log_in(login(5), response) {
        LoginStep::Failed(error) => assert_eq!(error, Error::NetworkError),
        other => panic!("expected a failure, got {:?}", other),
    }
}

#[test]
fn success_needs_no_hops() {
    match log_in(login(0), answer(204, None, "us-3.example.com")) {
        LoginStep::Session(session) => assert_eq!(session.shard_host, "us-3.example.com"),
        other => panic!("expected a session, got {:?}", other),
    }
}

#[test]
fn session_cookies_travel_as_name_and_value() {
    let response = LoginResponse {
        status: 204,
        location: None,
        set_cookies: vec![
            "rs_gbl=abc123; path=/; secure; HttpOnly".to_string(),
            "not a cookie".to_string(),
            "_session_id=first".to_string(),
            " _session_id = second ; Domain=example.com".to_string(),
        ],
        host: Some("us-3.example.com".to_string()),
    };
    let session = match log_in(login(5), response) {
        LoginStep::Session(session) => session,
        other => panic!("expected a session, got {:?}", other),
    };
    let request = discovery_request(&session, &target());
    assert_eq!(request.headers.len(), 3);
    assert_eq!(request.headers[2].0, "Cookie");
    let sent = &request.headers[2].1;
    assert!(
        sent == "_session_id=second; rs_gbl=abc123" || sent == "rs_gbl=abc123; _session_id=second",
        "cookies sent: {:?}",
        sent
    );
}

#[test]
fn no_headers_no_cookies() {
    let jar = collect_cookies(&vec![]);
    assert_eq!(jar.iter().count(), 0);
    let jar = collect_cookies(&vec!["=novalue".to_string(), "garbage".to_string()]);
    assert_eq!(jar.iter().count(), 0);
}

#[test]
fn name_and_value_stand_before_the_first_semicolon() {
    let cases: Vec<(&str, Option<(&str, &str)>)> = vec![
        ("a=b", Some(("a", "b"))),
        ("a=b=c; d=e", Some(("a", "b=c"))),
        ("  a \t=  b  ;x", Some(("a", "b"))),
        ("a=", Some(("a", ""))),
        ("a=;", Some(("a", ""))),
        ("a= \"q\" ", Some(("a", "\"q\""))),
        ("\u{a0}n\u{3000}=\u{2003}v\u{85}", Some(("n", "v"))),
        ("=b", None),
        (" =b", None),
        ("ab", None),
        ("", None),
        (";a=b", None),
        ("a;b=c", None),
    ];
    for (header, expected) in cases {
        let jar = collect_cookies(&vec![header.to_string()]);
        let found: Vec<(String, String)> =
            jar.iter().map(|c| (c.name().to_string(), c.value().to_string())).collect();
        let expected: Vec<(String, String)> =
            expected.into_iter().map(|(n, v)| (n.to_string(), v.to_string())).collect();
        assert_eq!(found, expected, "header {:?}", header);
    }
}

#[test]
fn attributes_of_any_shape_are_left_behind() {
    let headers: Vec<String> = [
        "a=1; Max-Age=-",
        "b=2; Max-Age=",
        "c=3; Max-Age=99999999999999999999999999",
        "d=4; Max-Age=-\u{e9}",
        "e=5; Expires=Wed, 21 Oct 2015 07:28:00 GMT",
        "f=6; Expires=Sunday, 06-Nov-94 08:49:37 GMT",
        "g=7; Expires=Sunday, 06-Nov--94 08:49:37 GMT",
        "h=8; Expires=Sun Nov  6 08:49:37 1994",
        "i=9; Expires=31-Dec-9999 23:59:59 GMT",
        "j=10; Expires=; Domain=; Path; SameSite=odd; Secure=no; HttpOnly; Partitioned",
        "k=11;;;;=;=x; ;",
        "l=12; expires=00:00:00 GMT",
        "m=13; Expires=Sat, 01-Jan-00 00:00:00 GMT",
    ]
    .iter()
    .map(|h| h.to_string())
    .collect();
    let jar = collect_cookies(&headers);
    let mut found: Vec<(String, String)> =
        jar.iter().map(|c| (c.name().to_string(), c.value().to_string())).collect();
    found.sort();
    let mut expected: Vec<(String, String)> = "abcdefghijklm"
        .chars()
        .enumerate()
        .map(|(i, c)| (c.to_string(), format!("{}", i + 1)))
        .collect();
    expected.sort();
    assert_eq!(found, expected);
}
