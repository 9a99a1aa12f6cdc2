//! Where the email and the password come from: the entry of a netrc file,
//! overridden by the environment.

use vstd::prelude::*;
use vstd::string::*;
use crate::sequences::{lemma_first_absent, lemma_first_found, spec_first};
use crate::text::clone_optional;

verus! {

/// The email and the password for the API, each known or not.
#[derive(Debug, Clone, PartialEq, Eq)]
pub struct Credentials {
    pub email: Option<String>,
    pub password: Option<String>,
}

impl DeepView for Credentials {
    type V = (Option<Seq<char>>, Option<Seq<char>>);

    open spec fn deep_view(&self) -> Self::V {
        (self.email.deep_view(), self.password.deep_view())
    }
}

/// One `machine` entry of a netrc file.
#[derive(Debug, Clone, PartialEq, Eq)]
pub struct NetrcHost {
    pub name: String,
    pub login: String,
    pub password: Option<String>,
}

impl DeepView for NetrcHost {
    type V = (Seq<char>, Seq<char>, Option<Seq<char>>);

    open spec fn deep_view(&self) -> Self::V {
        (self.name@, self.login@, self.password.deep_view())
    }
}

/// The value of a setting that the environment may override: the variable's
/// value where it is set and not empty, else the saved value.
pub open spec fn spec_override(value: Option<String>, env_value: Option<String>) -> Option<String> {
    match env_value {
        Some(w) => if w@.len() > 0 {
            Some(w)
        } else {
            value
        },
        None => value,
    }
}

/// Lets the environment override a saved value. `env_value` is what the
/// variable holds, `None` where it is not set.
pub fn override_from_env(value: Option<String>, env_value: Option<String>) -> (r: Option<String>)
    ensures
        r == spec_override(value, env_value),
        env_value is None ==> r == value,
        env_value is Some && env_value->0@.len() > 0 ==> r == env_value,
{
    match env_value {
        Some(w) => {
            if w.as_str().is_empty() {
                value
            } else {
                Some(w)
            }
        },
        None => value,
    }
}

/// A saved value stays in force while the variable is not set.
pub proof fn lemma_saved_value_without_variable(v: String)
    requires
        v@.len() > 0,
    ensures
        spec_override(Some(v), None) == Some(v),
{
}

/// A variable that is set to a non-empty value wins over any saved value,
/// and over none.
pub proof fn lemma_variable_wins(value: Option<String>, w: String)
    requires
        w@.len() > 0,
    ensures
        spec_override(value, Some(w)) == Some(w),
{
}

/// The credentials in force: the saved ones, each overridden by its variable.
pub open spec fn spec_effective(
    saved: Credentials,
    env_email: Option<String>,
    env_password: Option<String>,
) -> Credentials {
    Credentials {
        email: spec_override(saved.email, env_email),
        password: spec_override(saved.password, env_password),
    }
}

/// Applies the two overrides, email and password independently.
pub fn effective_credentials(
    saved: Credentials,
    env_email: Option<String>,
    env_password: Option<String>,
) -> (r: Credentials)
    ensures
        r == spec_effective(saved, env_email, env_password),
{
    Credentials {
        email: override_from_env(saved.email, env_email),
        password: override_from_env(saved.password, env_password),
    }
}

/// The `machine` entries that the `netrc` crate reads out of a file's text,
/// in the file's order; `None` where it rejects the text.
pub uninterp spec fn netrc_hosts(text: Seq<char>) -> Option<Seq<(Seq<char>, Seq<char>, Option<Seq<char>>)>>;

/// Calls `netrc::Netrc::parse` on the text and hands out its `hosts`, each
/// with its login and password. The contract only names the result. The
/// crate's lexer counts characters where it slices bytes, so texts outside
/// ASCII are kept away from it.
#[verifier::external_body]
fn parse_netrc(text: &str) -> (r: Option<Vec<NetrcHost>>)
    requires
        is_ascii(text),
    ensures
        r.deep_view() == netrc_hosts(text@),
{
    match ::netrc::Netrc::parse(text.as_bytes()) {
        Ok(parsed) => Some(
            parsed.hosts.into_iter().map(
                |(name, machine)| NetrcHost { name, login: machine.login, password: machine.password },
            ).collect(),
        ),
        Err(_) => None,
    }
}

/// Whether an entry is for the machine `rsssh`.
pub open spec fn is_own_entry(host: (Seq<char>, Seq<char>, Option<Seq<char>>)) -> bool {
    host.0 == "rsssh"@
}

/// The credentials that a netrc file gives: those of the first entry for the
/// machine `rsssh`, an empty login counting as none. A file that cannot be
/// read as netrc, or has no such entry, gives nothing.
pub open spec fn spec_netrc_credentials(
    hosts: Option<Seq<(Seq<char>, Seq<char>, Option<Seq<char>>)>>,
) -> (Option<Seq<char>>, Option<Seq<char>>) {
    match hosts {
        Some(entries) => match spec_first(
            entries,
            |host: (Seq<char>, Seq<char>, Option<Seq<char>>)| is_own_entry(host),
        ) {
            Some(i) => (
                if entries[i].1.len() == 0 {
                    None
                } else {
                    Some(entries[i].1)
                },
                entries[i].2,
            ),
            None => (None, None),
        },
        None => (None, None),
    }
}

/// Picks the credentials out of the entries of a netrc file; `None` stands
/// for a file that could not be read as netrc.
pub fn netrc_credentials(hosts: Option<Vec<NetrcHost>>) -> (r: Credentials)
    ensures
        r.deep_view() == spec_netrc_credentials(hosts.deep_view()),
{
    let nothing = Credentials { email: None, password: None };
    let entries = match hosts {
        Some(entries) => entries,
        None => {
            return nothing;
        },
    };
    let key = "rsssh".to_owned();
    let ghost views = entries.deep_view();
    let mut i: usize = 0;
    while i < entries.len()
        invariant
            i <= entries.len(),
            views == entries.deep_view(),
            hosts.deep_view() == Some(views),
            key@ == "rsssh"@,
            forall|j: int| 0 <= j < i ==> !is_own_entry(#[trigger] views[j]),
        decreases entries.len() - i,
    {
        if entries[i].name == key {
            proof {
                let own = |host: (Seq<char>, Seq<char>, Option<Seq<char>>)| is_own_entry(host);
                lemma_first_found(views, own, i as int);
            }
            let email = if entries[i].login.as_str().is_empty() {
                None
            } else {
                Some(entries[i].login.clone())
            };
            return Credentials { email, password: clone_optional(&entries[i].password) };
        }
        i += 1;
    }
    proof {
        let own = |host: (Seq<char>, Seq<char>, Option<Seq<char>>)| is_own_entry(host);
        lemma_first_absent(views, own);
    }
    nothing
}

/// Reads the credentials out of the text of a netrc file. The answer is
/// `None` exactly where the text holds a character outside ASCII: such a
/// file is not given to the reader.
pub fn read_netrc(text: &str) -> (r: Option<Credentials>)
    ensures
        r is Some <==> is_ascii(text),
        r is Some ==> r->0.deep_view() == spec_netrc_credentials(netrc_hosts(text@)),
{
    if text.is_ascii() {
        Some(netrc_credentials(parse_netrc(text)))
    } else {
        None
    }
}

} // verus!
