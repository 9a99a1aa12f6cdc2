//! What has to be settled before the first request goes out: which command
//! runs, with which credentials, against which account and server name.

use vstd::prelude::*;
use vstd::string::*;
use crate::config::HostConfig;
use crate::credentials::Credentials;
use crate::error::Error;

verus! {

/// What the command line asks for.
#[derive(Debug, Clone, Copy, PartialEq, Eq, Structural)]
pub enum Command {
    /// Remove a saved alias.
    Delete,
    /// Show the saved aliases.
    List,
    /// Find the server behind an alias and open a session on it.
    Connect,
    /// Nothing was asked for: show how to call the program.
    Usage,
}

/// Removal comes first; the listing is asked for by its flag or by the word
/// `list` in the host's place; any other host is connected to.
pub open spec fn spec_command(delete: bool, list: bool, host: Seq<char>) -> Command {
    if delete {
        Command::Delete
    } else if list || host == "list"@ {
        Command::List
    } else if host.len() > 0 {
        Command::Connect
    } else {
        Command::Usage
    }
}

/// Decides which command a parsed command line stands for.
pub fn dispatch(delete: bool, list: bool, host: &str) -> (r: Command)
    ensures
        r == spec_command(delete, list, host@),
{
    if delete {
        Command::Delete
    } else if list || host.to_owned() == "list".to_owned() {
        Command::List
    } else if !host.is_empty() {
        Command::Connect
    } else {
        Command::Usage
    }
}

/// The first of two values that is there.
pub open spec fn spec_or<T>(first: Option<T>, second: Option<T>) -> Option<T> {
    if first is Some {
        first
    } else {
        second
    }
}

/// Takes the first of two values that is there.
pub fn first_of<T>(first: Option<T>, second: Option<T>) -> (r: Option<T>)
    ensures
        r == spec_or(first, second),
{
    match first {
        Some(v) => Some(v),
        None => second,
    }
}

/// A record with every part taken from `flags` where it is given there, and
/// from `saved` where it is not.
pub open spec fn spec_merged(flags: HostConfig, saved: HostConfig) -> HostConfig {
    HostConfig {
        account: spec_or(flags.account, saved.account),
        server: spec_or(flags.server, saved.server),
        user: spec_or(flags.user, saved.user),
        command: spec_or(flags.command, saved.command),
        exact_match: spec_or(flags.exact_match, saved.exact_match),
    }
}

/// Lets what the command line gives override what is saved, part by part.
pub fn merged(flags: HostConfig, saved: HostConfig) -> (r: HostConfig)
    ensures
        r == spec_merged(flags, saved),
{
    HostConfig {
        account: first_of(flags.account, saved.account),
        server: first_of(flags.server, saved.server),
        user: first_of(flags.user, saved.user),
        command: first_of(flags.command, saved.command),
        exact_match: first_of(flags.exact_match, saved.exact_match),
    }
}

/// The query that finds the server: which account to search, for which
/// name, and whether the name has to match as a whole.
#[derive(Debug, Clone, PartialEq, Eq)]
pub struct ConnectionTarget {
    pub account_id: i64,
    pub server_pattern: String,
    pub exact_match: bool,
}

/// Everything a run needs once it is known to be complete.
#[derive(Debug, Clone, PartialEq, Eq)]
pub struct Connection {
    pub email: String,
    pub password: String,
    pub target: ConnectionTarget,
    /// The record to save under the alias after a successful search.
    pub host_config: HostConfig,
}

/// The record in force for a run: the flags over what is saved under the
/// alias, or over nothing where no record is saved.
pub open spec fn spec_record(flags: HostConfig, saved: Option<HostConfig>) -> HostConfig {
    spec_merged(
        flags,
        match saved {
            Some(s) => s,
            None => HostConfig {
                account: None,
                server: None,
                user: None,
                command: None,
                exact_match: None,
            },
        },
    )
}

/// Whether both the email and the password are known.
pub open spec fn has_credentials(credentials: Credentials) -> bool {
    credentials.email is Some && credentials.password is Some
}

/// Whether both the account and the server name are known.
pub open spec fn has_target(record: HostConfig) -> bool {
    record.account is Some && record.server is Some
}

/// The outcome of preparing a run. Credentials are asked for first, then
/// the target; a run that has both searches for the record's server in the
/// record's account, matching by containment unless told otherwise.
pub open spec fn spec_connect(
    flags: HostConfig,
    saved: Option<HostConfig>,
    credentials: Credentials,
) -> Result<Connection, Error> {
    let record = spec_record(flags, saved);
    if !has_credentials(credentials) {
        Err(Error::MissingCredentials)
    } else if !has_target(record) {
        Err(Error::IncompleteTarget)
    } else {
        Ok(
            Connection {
                email: credentials.email->0,
                password: credentials.password->0,
                target: ConnectionTarget {
                    account_id: record.account->0,
                    server_pattern: record.server->0,
                    exact_match: match record.exact_match {
                        Some(b) => b,
                        None => false,
                    },
                },
                host_config: record,
            },
        )
    }
}

/// Prepares a run from the flags of the command line, the record saved
/// under the alias (if any) and the credentials in force. Nothing has been
/// sent when this fails.
pub fn connect(flags: HostConfig, saved: Option<HostConfig>, credentials: Credentials) -> (r: Result<
    Connection,
    Error,
>)
    ensures
        r == spec_connect(flags, saved, credentials),
{
    let record = merged(
        flags,
        match saved {
            Some(s) => s,
            None => HostConfig::empty(),
        },
    );
    let (email, password) = match (credentials.email, credentials.password) {
        (Some(email), Some(password)) => (email, password),
        _ => {
            return Err(Error::MissingCredentials);
        },
    };
    let account_id = match record.account {
        Some(account) => account,
        None => {
            return Err(Error::IncompleteTarget);
        },
    };
    let server_pattern = match &record.server {
        Some(server) => server.clone(),
        None => {
            return Err(Error::IncompleteTarget);
        },
    };
    let exact_match = match record.exact_match {
        Some(b) => b,
        None => false,
    };
    Ok(
        Connection {
            email,
            password,
            target: ConnectionTarget { account_id, server_pattern, exact_match },
            host_config: record,
        },
    )
}

} // verus!
