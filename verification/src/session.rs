//! Logging in: the request to send, and what each answer of the service
//! means. A login may be redirected to the shard that serves the account;
//! the caller says how often it is willing to follow.

use vstd::prelude::*;
use vstd::string::*;
use cookie::{Cookie, CookieJar};
use crate::error::Error;
use crate::request::{api_version, spec_api_version, Method, Request};
use crate::sequences::spec_first;
use crate::text::{decimal, push_signed_decimal, spec_trimmed};

verus! {

/// The jar of the `cookie` crate. Nothing of its inside is visible here.
#[verifier::external_type_specification]
#[verifier::external_body]
pub struct ExCookieJar(CookieJar);

/// The cookies in a jar: the value kept under each name.
pub uninterp spec fn jar_cookies(jar: CookieJar) -> Map<Seq<char>, Seq<char>>;

/// The name and the value of the cookie that a `Set-Cookie` header sets.
/// Only what stands before the first `;` counts: the name is what stands
/// before its first `=`, the value what stands after it, both without the
/// blanks at their ends. A header without `=` there, or without a name,
/// sets no cookie.
pub open spec fn spec_set_cookie_pair(header: Seq<char>) -> Option<(Seq<char>, Seq<char>)> {
    let pair = match spec_first(header, |c: char| c == ';') {
        Some(end) => header.take(end),
        None => header,
    };
    match spec_first(pair, |c: char| c == '=') {
        Some(i) => {
            let name = spec_trimmed(pair.take(i));
            if name.len() == 0 {
                None
            } else {
                Some((name, spec_trimmed(pair.skip(i + 1))))
            }
        },
        None => None,
    }
}

/// No cookie under any name.
pub open spec fn no_cookies() -> Map<Seq<char>, Seq<char>> {
    Map::empty()
}

/// `CookieJar::new` makes a jar without cookies.
#[verifier::external_body]
fn new_jar() -> (jar: CookieJar)
    ensures
        jar_cookies(jar) == no_cookies(),
{
    CookieJar::new()
}

/// Calls `Cookie::parse` on a header and hands out the name and the value
/// of the cookie it finds. The parser splits the header at `;`, the first
/// part at its first `=`, and trims both sides; it fails only where there
/// is no `=` or no name. The cookie's attributes are parsed too, and left
/// behind.
#[verifier::external_body]
fn parse_set_cookie(header: &str) -> (r: Option<(String, String)>)
    ensures
        r.deep_view() == spec_set_cookie_pair(header@),
{
    match Cookie::parse(header) {
        Ok(cookie) => Some((cookie.name().to_owned(), cookie.value().to_owned())),
        Err(_) => None,
    }
}

/// `CookieJar::add` of a cookie made by `Cookie::new`: the jar then keeps
/// `value` under `name`, in place of what it kept under that name before,
/// and every other cookie as it was.
#[verifier::external_body]
fn add_to_jar(jar: &mut CookieJar, name: String, value: String)
    ensures
        jar_cookies(*final(jar)) == jar_cookies(*old(jar)).insert(name@, value@),
{
    jar.add(Cookie::new(name, value));
}

/// Whether `pairs` lists the cookies of `cookies`, each of them once.
pub open spec fn lists_cookies(
    pairs: Seq<(Seq<char>, Seq<char>)>,
    cookies: Map<Seq<char>, Seq<char>>,
) -> bool {
    &&& forall|i: int|
        0 <= i < pairs.len() ==> cookies.contains_pair(
            (#[trigger] pairs[i]).0,
            pairs[i].1,
        )
    &&& forall|i: int, j: int|
        0 <= i < j < pairs.len() ==> (#[trigger] pairs[i]).0 != (#[trigger] pairs[j]).0
    &&& forall|name: Seq<char>| #[trigger]
        cookies.dom().contains(name) ==> exists|i: int|
            0 <= i < pairs.len() && (#[trigger] pairs[i]).0 == name
}

/// Walks the jar with `CookieJar::iter` and hands out each cookie's name and
/// value. The jar yields every cookie once; the order is the jar's own and
/// nothing is said of it.
#[verifier::external_body]
pub(crate) fn jar_pairs(jar: &CookieJar) -> (r: Vec<(String, String)>)
    ensures
        lists_cookies(r.deep_view(), jar_cookies(*jar)),
{
    jar.iter().map(|cookie| (cookie.name().to_owned(), cookie.value().to_owned())).collect()
}

/// What one successful login gives: the host that serves the account, and
/// the cookies that stand for the session.
#[derive(Debug)]
pub struct SessionHandle {
    pub shard_host: String,
    pub cookies: CookieJar,
}

/// A login under way: the request to send, and how many redirects the
/// caller is still willing to follow after it.
#[derive(Debug, Clone, PartialEq, Eq)]
pub struct Login {
    pub request: Request,
    pub hops_left: u32,
}

/// What the caller saw of the answer to a login request.
#[derive(Debug, Clone, PartialEq, Eq)]
pub struct LoginResponse {
    /// The HTTP status.
    pub status: u16,
    /// The `Location` header, if there is one.
    pub location: Option<String>,
    /// The `Set-Cookie` headers, in the order received.
    pub set_cookies: Vec<String>,
    /// The domain name of the host that answered, if it has one.
    pub host: Option<String>,
}

/// What to do after an answer to a login request.
#[derive(Debug)]
pub enum LoginStep {
    /// Logged in.
    Session(SessionHandle),
    /// Sent elsewhere: the login goes on with this request.
    Redirected(Login),
    /// Give up.
    Failed(Error),
}

/// Where every login starts.
pub const LOGIN_URL: &'static str = "https://my.rightscale.com/api/sessions";

/// The number of redirects that a login follows unless told otherwise.
pub const MAX_REDIRECTS: u32 = 5;

/// The form that logs in to an account.
pub open spec fn spec_login_body(email: Seq<char>, password: Seq<char>, account: int) -> Seq<char> {
    "email="@ + email + "&password="@ + password + "&account_href=/api/accounts/"@ + decimal(
        account,
    )
}

/// The login request: the form, posted to `url` under version 1.5 of the
/// API.
pub open spec fn is_login_request(
    request: Request,
    url: Seq<char>,
    email: Seq<char>,
    password: Seq<char>,
    account: int,
) -> bool {
    &&& request.method == Method::Post
    &&& request.url@ == url
    &&& request.headers.deep_view() == seq![spec_api_version("1.5"@)]
    &&& request.body.deep_view() == Some(spec_login_body(email, password, account))
}

/// Builds the login request for `url`.
pub fn login_request(url: &str, email: &str, password: &str, account: i64) -> (r: Request)
    ensures
        is_login_request(r, url@, email@, password@, account as int),
{
    let mut body = "email=".to_owned();
    body.append(email);
    body.append("&password=");
    body.append(password);
    body.append("&account_href=/api/accounts/");
    push_signed_decimal(&mut body, account);
    let mut headers: Vec<(String, String)> = Vec::new();
    headers.push(api_version("1.5"));
    assert(headers.deep_view() =~= seq![spec_api_version("1.5"@)]);
    Request { method: Method::Post, url: url.to_owned(), headers, body: Some(body) }
}

/// The cookies that a run of `Set-Cookie` headers leaves behind: each header
/// that reads as a cookie sets its name to its value, later ones over
/// earlier ones; the others are passed over.
pub open spec fn spec_collected(headers: Seq<Seq<char>>) -> Map<Seq<char>, Seq<char>>
    decreases headers.len(),
{
    if headers.len() == 0 {
        Map::empty()
    } else {
        let before = spec_collected(headers.drop_last());
        match spec_set_cookie_pair(headers.last()) {
            Some((name, value)) => before.insert(name, value),
            None => before,
        }
    }
}

/// Gathers the cookies of the `Set-Cookie` headers of one answer in a jar.
pub fn collect_cookies(headers: &Vec<String>) -> (jar: CookieJar)
    ensures
        jar_cookies(jar) == spec_collected(headers.deep_view()),
{
    let mut jar = new_jar();
    let ghost views = headers.deep_view();
    let mut i: usize = 0;
    while i < headers.len()
        invariant
            i <= headers.len(),
            views == headers.deep_view(),
            jar_cookies(jar) == spec_collected(views.take(i as int)),
        decreases headers.len() - i,
    {
        proof {
            assert(views.take(i + 1).drop_last() == views.take(i as int));
            assert(views.take(i + 1).last() == headers[i as int]@);
        }
        match parse_set_cookie(headers[i].as_str()) {
            Some((name, value)) => {
                add_to_jar(&mut jar, name, value);
            },
            None => {},
        }
        i += 1;
    }
    proof {
        assert(views.take(headers.len() as int) == views);
    }
    jar
}

/// Starts a login at `url` that follows up to `max_redirects` redirects.
pub fn begin_login(url: &str, email: &str, password: &str, account: i64, max_redirects: u32) -> (r:
    Login)
    ensures
        is_login_request(r.request, url@, email@, password@, account as int),
        r.hops_left == max_redirects,
{
    Login { request: login_request(url, email, password, account), hops_left: max_redirects }
}

/// Whether an answer sends the login elsewhere: status 302 with a
/// `Location`.
pub open spec fn is_redirect(response: LoginResponse) -> bool {
    response.status == 302 && response.location is Some
}

/// The login that follows a redirect: the same request, but for the new
/// address, with one hop less to spare. `None` where the answer is no
/// redirect, or no hop is left to follow it.
pub open spec fn spec_redirected(login: Login, response: LoginResponse) -> Option<Login> {
    if is_redirect(response) && login.hops_left > 0 {
        Some(
            Login {
                request: Request {
                    method: login.request.method,
                    url: response.location->0,
                    headers: login.request.headers,
                    body: login.request.body,
                },
                hops_left: (login.hops_left - 1) as u32,
            },
        )
    } else {
        None
    }
}

/// Why a login ends without a session and without a redirect to follow, or
/// `None` where it does not. Status 204 is success, and the host that
/// answered is the shard; an answer from a host without a name leaves
/// nowhere to go on. A redirect with no hop left is one too many. Every
/// other status is a refusal, and so is status 302 without a `Location`.
pub open spec fn spec_login_failure(login: Login, response: LoginResponse) -> Option<Error> {
    if response.status == 204 {
        if response.host is Some {
            None
        } else {
            Some(Error::NetworkError)
        }
    } else if is_redirect(response) {
        if login.hops_left > 0 {
            None
        } else {
            Some(Error::TooManyRedirects)
        }
    } else {
        Some(Error::AuthenticationFailed(response.status))
    }
}

/// Decides how a login goes on after an answer.
pub fn log_in(login: Login, response: LoginResponse) -> (r: LoginStep)
    ensures
        match r {
            LoginStep::Session(session) => {
                &&& response.status == 204
                &&& response.host == Some(session.shard_host)
                &&& jar_cookies(session.cookies) == spec_collected(response.set_cookies.deep_view())
            },
            LoginStep::Redirected(next) => spec_redirected(login, response) == Some(next),
            LoginStep::Failed(error) => spec_login_failure(login, response) == Some(error),
        },
        r is Failed <==> spec_login_failure(login, response) is Some,
        r is Redirected <==> spec_redirected(login, response) is Some,
{
    if response.status == 204 {
        match response.host {
            Some(shard_host) => {
                let cookies = collect_cookies(&response.set_cookies);
                LoginStep::Session(SessionHandle { shard_host, cookies })
            },
            None => LoginStep::Failed(Error::NetworkError),
        }
    } else if response.status == 302 {
        match response.location {
            Some(url) => {
                if login.hops_left > 0 {
                    LoginStep::Redirected(
                        Login {
                            request: Request {
                                method: login.request.method,
                                url,
                                headers: login.request.headers,
                                body: login.request.body,
                            },
                            hops_left: login.hops_left - 1,
                        },
                    )
                } else {
                    LoginStep::Failed(Error::TooManyRedirects)
                }
            },
            None => LoginStep::Failed(Error::AuthenticationFailed(response.status)),
        }
    } else {
        LoginStep::Failed(Error::AuthenticationFailed(response.status))
    }
}

/// The login that stands after every one of `responses` has been followed
/// in turn, or `None` where one of them is not followed.
pub open spec fn spec_followed(login: Login, responses: Seq<LoginResponse>) -> Option<Login>
    decreases responses.len(),
{
    if responses.len() == 0 {
        Some(login)
    } else {
        match spec_followed(login, responses.drop_last()) {
            Some(before) => spec_redirected(before, responses.last()),
            None => None,
        }
    }
}

/// A login follows no more redirects than it was started with, and sends
/// the same form, in the same way, to every address it is sent to.
pub proof fn lemma_redirects_are_bounded(login: Login, responses: Seq<LoginResponse>)
    requires
        spec_followed(login, responses) is Some,
    ensures
        responses.len() <= login.hops_left,
        spec_followed(login, responses)->0.hops_left == login.hops_left - responses.len(),
        spec_followed(login, responses)->0.request.method == login.request.method,
        spec_followed(login, responses)->0.request.headers == login.request.headers,
        spec_followed(login, responses)->0.request.body == login.request.body,
    decreases responses.len(),
{
    if responses.len() > 0 {
        lemma_redirects_are_bounded(login, responses.drop_last());
    }
}

/// Once a login has followed as many redirects as it was started with, the
/// next redirect ends it.
pub proof fn lemma_one_redirect_too_many(
    login: Login,
    responses: Seq<LoginResponse>,
    next: LoginResponse,
)
    requires
        spec_followed(login, responses) is Some,
        responses.len() == login.hops_left,
        is_redirect(next),
    ensures
        spec_login_failure(spec_followed(login, responses)->0, next) == Some(
            Error::TooManyRedirects,
        ),
{
    lemma_redirects_are_bounded(login, responses);
}

} // verus!
