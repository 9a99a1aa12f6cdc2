//! The command line that opens the shell session on the chosen server.

use vstd::prelude::*;
use vstd::string::*;

verus! {

/// `s` with a backslash put in front of every double quote.
pub open spec fn escaped_quotes(s: Seq<char>) -> Seq<char>
    decreases s.len(),
{
    if s.len() == 0 {
        s
    } else if s.last() == '"' {
        escaped_quotes(s.drop_last()).push('\\').push('"')
    } else {
        escaped_quotes(s.drop_last()).push(s.last())
    }
}

/// Puts a backslash in front of every double quote of `s`.
pub fn escape_quotes(s: &str) -> (r: String)
    ensures
        r@ == escaped_quotes(s@),
{
    let mut out = String::new();
    for c in it: s.chars()
        invariant
            it.seq() == s@,
            out@ == escaped_quotes(s@.take(it.index() as int)),
    {
        assert(s@.take(it.index() + 1).drop_last() == s@.take(it.index() as int));
        if c == '"' {
            out.push('\\');
        }
        out.push(c);
    }
    assert(s@.take(s@.len() as int) == s@);
    out
}

/// The single argument handed to the remote shell. With a user the command
/// runs under `sudo` as that user, in a login shell, and stands between
/// double quotes there, so its own double quotes are escaped; without a
/// command the user gets an interactive shell. Without a user the command
/// goes out as it is.
pub open spec fn spec_ssh_command_arg(user: Option<Seq<char>>, command: Option<Seq<char>>) -> Seq<
    char,
> {
    match (user, command) {
        (Some(u), Some(c)) => "sudo -u \""@ + u + "\" -- sh -cl \""@ + escaped_quotes(c) + "\""@,
        (Some(u), None) => "sudo -u \""@ + u + "\" -s"@,
        (None, Some(c)) => c,
        (None, None) => Seq::empty(),
    }
}

/// Builds the argument for the remote shell from the user to switch to and
/// the command to run, either of which may be absent.
pub fn ssh_command_arg(user: Option<String>, command: Option<String>) -> (r: String)
    ensures
        r@ == spec_ssh_command_arg(user.deep_view(), command.deep_view()),
        user is None && command is Some ==> r == command->0,
{
    match user {
        Some(u) => {
            let mut out = "sudo -u \"".to_owned();
            out.append(u.as_str());
            match command {
                Some(c) => {
                    let escaped = escape_quotes(c.as_str());
                    out.append("\" -- sh -cl \"");
                    out.append(escaped.as_str());
                    out.append("\"");
                },
                None => {
                    out.append("\" -s");
                },
            }
            out
        },
        None => match command {
            Some(c) => c,
            None => String::new(),
        },
    }
}

/// The account on the server that every session logs in to.
pub open spec fn spec_user_host(ip: Seq<char>) -> Seq<char> {
    "rightscale@"@ + ip
}

/// The arguments of the `ssh` call, the program's own name first: a terminal
/// is forced, and host keys are neither checked nor recorded.
pub open spec fn spec_ssh_argv(ip: Seq<char>, command: Seq<char>) -> Seq<Seq<char>> {
    seq![
        "ssh"@,
        "-t"@,
        "-o"@,
        "StrictHostKeyChecking=no"@,
        "-o"@,
        "UserKnownHostsFile=/dev/null"@,
        spec_user_host(ip),
        command,
    ]
}

/// The `ssh` call as one line of text, as shown in messages.
pub open spec fn spec_ssh_command_line(ip: Seq<char>, command: Seq<char>) -> Seq<char> {
    "ssh -t -o StrictHostKeychecking=no -o UserKnownHostsFile=/dev/null "@ + spec_user_host(ip)
        + " \""@ + command + "\""@
}

/// An `ssh` call that is ready to replace the running process.
pub struct SshInvocation {
    /// The program and its arguments, `ssh` first.
    pub argv: Vec<String>,
    /// The same call as one line of text.
    pub command_line: String,
    /// Whether the call is to be shown before it is made.
    pub announce: bool,
}

impl SshInvocation {
    /// The line shown before the call when it is announced.
    pub fn notice(&self) -> (r: String)
        ensures
            r@ == "Running "@ + self.command_line@,
    {
        let mut out = "Running ".to_owned();
        out.append(self.command_line.as_str());
        out
    }

    /// The message for a call that returned instead of taking the process
    /// over.
    pub fn failure_message(&self) -> (r: String)
        ensures
            r@ == "ssh command failed: "@ + self.command_line@,
    {
        let mut out = "ssh command failed: ".to_owned();
        out.append(self.command_line.as_str());
        out
    }
}

/// Prepares the `ssh` call that runs `command` on the server at `ip`.
pub fn ssh_invocation(ip: &str, command: &str, verbose: bool) -> (r: SshInvocation)
    ensures
        r.argv.deep_view() == spec_ssh_argv(ip@, command@),
        r.command_line@ == spec_ssh_command_line(ip@, command@),
        r.announce == verbose,
{
    let mut user_host = "rightscale@".to_owned();
    user_host.append(ip);

    let mut command_line =
        "ssh -t -o StrictHostKeychecking=no -o UserKnownHostsFile=/dev/null ".to_owned();
    command_line.append(user_host.as_str());
    command_line.append(" \"");
    command_line.append(command);
    command_line.append("\"");

    let mut argv: Vec<String> = Vec::new();
    argv.push("ssh".to_owned());
    argv.push("-t".to_owned());
    argv.push("-o".to_owned());
    argv.push("StrictHostKeyChecking=no".to_owned());
    argv.push("-o".to_owned());
    argv.push("UserKnownHostsFile=/dev/null".to_owned());
    argv.push(user_host);
    argv.push(command.to_owned());
    assert(argv.deep_view() =~= spec_ssh_argv(ip@, command@));
    SshInvocation { argv, command_line, announce: verbose }
}

/// Prepares the session on the server at `ip`: as `user` if one is given,
/// running `command` if one is given. The result is the `ssh` call to make.
pub fn ssh_connect(ip: String, user: Option<String>, command: Option<String>, verbose: bool) -> (r:
    SshInvocation)
    ensures
        r.argv.deep_view() == spec_ssh_argv(
            ip@,
            spec_ssh_command_arg(user.deep_view(), command.deep_view()),
        ),
        r.command_line@ == spec_ssh_command_line(
            ip@,
            spec_ssh_command_arg(user.deep_view(), command.deep_view()),
        ),
        r.announce == verbose,
{
    let arg = ssh_command_arg(user, command);
    ssh_invocation(ip.as_str(), arg.as_str(), verbose)
}

} // verus!
