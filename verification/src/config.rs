//! The record that is saved for each host alias, and the lines that report
//! on saved records.

use vstd::prelude::*;
use vstd::string::*;
use crate::text::{decimal, push_signed_decimal};

verus! {

/// What is saved under an alias: where to look for the server, and what to
/// do once connected. Every part may be missing.
#[derive(Debug, Clone, PartialEq, Eq)]
pub struct HostConfig {
    pub account: Option<i64>,
    pub server: Option<String>,
    pub user: Option<String>,
    pub command: Option<String>,
    pub exact_match: Option<bool>,
}

impl DeepView for HostConfig {
    type V = (Option<i64>, Option<Seq<char>>, Option<Seq<char>>, Option<Seq<char>>, Option<bool>);

    open spec fn deep_view(&self) -> Self::V {
        (
            self.account,
            self.server.deep_view(),
            self.user.deep_view(),
            self.command.deep_view(),
            self.exact_match,
        )
    }
}

impl HostConfig {
    /// The record that holds nothing.
    pub fn empty() -> (r: HostConfig)
        ensures
            r == (HostConfig {
                account: None,
                server: None,
                user: None,
                command: None,
                exact_match: None,
            }),
    {
        HostConfig { account: None, server: None, user: None, command: None, exact_match: None }
    }
}

/// A path with a leading `~` replaced by the home directory. Where no home
/// directory is known the `~` stays.
pub open spec fn spec_expand_home(path: Seq<char>, home: Option<Seq<char>>) -> Seq<char> {
    if path.len() > 0 && path[0] == '~' {
        (match home {
            Some(h) => h,
            None => "~"@,
        }) + path.skip(1)
    } else {
        path
    }
}

/// Expands a leading `~` of `path` to `home`, the user's home directory if
/// one is known. Only the first character counts: `~` elsewhere stays, and
/// so does the name of another user after it.
pub fn expand_home_directory(path: &str, home: Option<&str>) -> (r: String)
    ensures
        r@ == spec_expand_home(path@, home.deep_view()),
{
    let n = path.unicode_len();
    if n > 0 && path.get_char(0) == '~' {
        let mut out = match home {
            Some(h) => h.to_owned(),
            None => "~".to_owned(),
        };
        out.append(path.substring_char(1, n));
        out
    } else {
        path.to_owned()
    }
}

/// `", <label>: <value>"` for a value that is there, nothing for one that is
/// not.
pub open spec fn spec_labelled(label: Seq<char>, value: Option<Seq<char>>) -> Seq<char> {
    match value {
        Some(v) => ", "@ + label + ": "@ + v,
        None => Seq::empty(),
    }
}

/// The account number in base ten, or nothing.
pub open spec fn spec_account_text(account: Option<i64>) -> Seq<char> {
    match account {
        Some(n) => decimal(n as int),
        None => Seq::empty(),
    }
}

/// One line for a saved record: the heading, then account, server, user and
/// command, as far as they are there.
pub open spec fn spec_host_summary(
    heading: Seq<char>,
    config: (Option<i64>, Option<Seq<char>>, Option<Seq<char>>, Option<Seq<char>>, Option<bool>),
) -> Seq<char> {
    heading + ": { account: "@ + spec_account_text(config.0) + spec_labelled("server"@, config.1)
        + spec_labelled("user"@, config.2) + spec_labelled("command"@, config.3) + " }"@
}

fn push_labelled(out: &mut String, label: &str, value: &Option<String>)
    ensures
        final(out)@ == old(out)@ + spec_labelled(label@, value.deep_view()),
{
    match value {
        Some(v) => {
            out.append(", ");
            out.append(label);
            out.append(": ");
            out.append(v.as_str());
        },
        None => {},
    }
}

/// The line that shows a saved record under `heading`.
pub fn host_line(heading: &str, config: &HostConfig) -> (r: String)
    ensures
        r@ == spec_host_summary(heading@, config.deep_view()),
{
    let mut out = heading.to_owned();
    out.append(": { account: ");
    match config.account {
        Some(n) => {
            push_signed_decimal(&mut out, n);
        },
        None => {},
    }
    push_labelled(&mut out, "server", &config.server);
    push_labelled(&mut out, "user", &config.user);
    push_labelled(&mut out, "command", &config.command);
    out.append(" }");
    out
}

/// The line of the listing for the alias `key`: its record, or a remark
/// where what is saved under it is no record.
pub open spec fn spec_list_line(
    key: Seq<char>,
    config: Option<
        (Option<i64>, Option<Seq<char>>, Option<Seq<char>>, Option<Seq<char>>, Option<bool>),
    >,
) -> Seq<char> {
    match config {
        Some(c) => spec_host_summary(key, c),
        None => key + " has an invalid config (missing account or server?)"@,
    }
}

/// The line of the listing for one alias.
pub fn list_line(key: &str, config: &Option<HostConfig>) -> (r: String)
    ensures
        r@ == spec_list_line(key@, config.deep_view()),
{
    match config {
        Some(c) => host_line(key, c),
        None => {
            let mut out = key.to_owned();
            out.append(" has an invalid config (missing account or server?)");
            out
        },
    }
}

/// The line that confirms the removal of the alias `host`, with the record
/// that was saved under it where there was one.
pub open spec fn spec_delete_line(
    host: Seq<char>,
    config: Option<
        (Option<i64>, Option<Seq<char>>, Option<Seq<char>>, Option<Seq<char>>, Option<bool>),
    >,
) -> Seq<char> {
    match config {
        Some(c) => spec_host_summary("Host "@ + host + " removed"@, c),
        None => "Host "@ + host + " removed"@,
    }
}

/// The line that confirms the removal of an alias.
pub fn delete_line(host: &str, config: &Option<HostConfig>) -> (r: String)
    ensures
        r@ == spec_delete_line(host@, config.deep_view()),
{
    let mut heading = "Host ".to_owned();
    heading.append(host);
    heading.append(" removed");
    match config {
        Some(c) => host_line(heading.as_str(), c),
        None => heading,
    }
}

} // verus!
