//! The command channel: one short connection for each request, and the
//! policy by which a request is tried again.
//!
//! The client opens a connection, writes the request, reads the reply to
//! its end and only then decodes it. A connection that breaks because the
//! server is not ready yet is tried again at once, up to [`MAX_ATTEMPTS`]
//! connections in all; any other failure ends the request.

use vstd::prelude::*;
use vstd::string::*;
use crate::hyprland::error::{Error, ErrorView, IoError, IoErrorKind};
use crate::text::str_eq;

verus! {

/// How many connections a request opens at most.
pub const MAX_ATTEMPTS: u32 = 6;

/// A command of the window manager with a structured reply.
#[derive(Clone, Copy, Debug, PartialEq, Eq, Structural)]
pub enum Command {
    /// The list of workspaces.
    Workspaces,
    /// The input devices.
    Devices,
    /// The window that has the focus.
    ActiveWindow,
}

/// The name by which the window manager knows `command`.
pub open spec fn command_name(command: Command) -> Seq<char> {
    match command {
        Command::Workspaces => "workspaces"@,
        Command::Devices => "devices"@,
        Command::ActiveWindow => "activewindow"@,
    }
}

/// The command that `name` names, if any.
pub open spec fn command_named(name: Seq<char>) -> Option<Command> {
    if name == "workspaces"@ {
        Some(Command::Workspaces)
    } else if name == "devices"@ {
        Some(Command::Devices)
    } else if name == "activewindow"@ {
        Some(Command::ActiveWindow)
    } else {
        None
    }
}

impl Command {
    /// The name by which the window manager knows this command.
    pub fn name(&self) -> (r: &'static str)
        ensures
            r@ == command_name(*self),
    {
        match self {
            Command::Workspaces => "workspaces",
            Command::Devices => "devices",
            Command::ActiveWindow => "activewindow",
        }
    }

    /// The command of the given name; `None` for a name that is no command.
    pub fn from_name(name: &str) -> (r: Option<Command>)
        ensures
            r == command_named(name@),
    {
        if str_eq(name, "workspaces") {
            Some(Command::Workspaces)
        } else if str_eq(name, "devices") {
            Some(Command::Devices)
        } else if str_eq(name, "activewindow") {
            Some(Command::ActiveWindow)
        } else {
            None
        }
    }

    /// What is written to the command socket: `j/`, which asks for a
    /// structured reply, and the command's name.
    pub fn message(&self) -> (r: String)
        ensures
            r@ == "j/"@ + command_name(*self),
    {
        let mut out = "j/".to_owned();
        out.append(self.name());
        out
    }
}

/// Every command is found again under its own name.
pub proof fn law_command_names(command: Command)
    ensures
        command_named(command_name(command)) == Some(command),
{
    reveal_strlit("workspaces");
    reveal_strlit("devices");
    reveal_strlit("activewindow");
    assert("workspaces"@.len() == 10);
    assert("devices"@.len() == 7);
    assert("activewindow"@.len() == 12);
}

/// The path of the command socket of the session `signature` below the
/// runtime directory.
pub fn command_socket_path(runtime_dir: &str, signature: &str) -> (r: String)
    ensures
        r@ == runtime_dir@ + "/hypr/"@ + signature@ + "/.socket.sock"@,
{
    let mut out = runtime_dir.to_owned();
    out.append("/hypr/");
    out.append(signature);
    out.append("/.socket.sock");
    out
}

/// The path of the event socket of the session `signature` below the
/// runtime directory.
pub fn event_socket_path(runtime_dir: &str, signature: &str) -> (r: String)
    ensures
        r@ == runtime_dir@ + "/hypr/"@ + signature@ + "/.socket2.sock"@,
{
    let mut out = runtime_dir.to_owned();
    out.append("/hypr/");
    out.append(signature);
    out.append("/.socket2.sock");
    out
}

/// How one connection ended.
#[derive(Clone, Debug, PartialEq, Eq)]
pub enum Attempt {
    /// The request was written and the reply read until the server closed
    /// the connection: these are all its bytes.
    Replied(Vec<u8>),
    /// Opening, writing or reading failed.
    Failed(IoError),
}

/// What the client does after a connection has ended.
#[derive(Debug, PartialEq, Eq)]
pub enum Step {
    /// Open another connection, with the request in this state.
    Retry(Request),
    /// Decode these bytes: they are the whole reply.
    Reply(Vec<u8>),
    /// Give up with this error.
    Fail(Error),
}

/// A request in progress: the command and the connections opened so far.
#[derive(Debug, PartialEq, Eq)]
pub struct Request {
    command: Command,
    attempts: u32,
}

/// What a request ends in: the bytes of the reply, or an error.
pub enum Outcome {
    Reply(Seq<u8>),
    Fail(ErrorView),
}

/// What follows from a connection that ended as `attempt` after `made`
/// others: `None` for another connection, else how the request ends. A
/// reply ends it with its bytes; a broken pipe asks for another connection
/// while fewer than [`MAX_ATTEMPTS`] were opened and ends it as
/// [`Error::MaxRetriesExceeded`] after that; any other failure ends it as
/// that failure.
pub open spec fn after_attempt(made: nat, attempt: Attempt) -> Option<Outcome> {
    match attempt {
        Attempt::Replied(bytes) => Some(Outcome::Reply(bytes@)),
        Attempt::Failed(failure) => if failure.kind == IoErrorKind::BrokenPipe {
            if made + 1 < MAX_ATTEMPTS {
                None
            } else {
                Some(Outcome::Fail(ErrorView::MaxRetriesExceeded))
            }
        } else {
            Some(Outcome::Fail(Error::Io(failure)@))
        },
    }
}

/// How a request ends whose connections end as `attempts` say, in that
/// order, counted from `made` connections before them: `None` where the
/// request is not over when they are used up. Connections after the one
/// that ends the request are never opened.
pub open spec fn request_outcome(made: nat, attempts: Seq<Attempt>) -> Option<Outcome>
    decreases attempts.len(),
{
    if attempts.len() == 0 {
        None
    } else {
        match after_attempt(made, attempts[0]) {
            Some(outcome) => Some(outcome),
            None => request_outcome(made + 1, attempts.drop_first()),
        }
    }
}

impl Request {
    /// The connections opened so far.
    pub closed spec fn made(&self) -> nat {
        self.attempts as nat
    }

    /// The command asked for.
    pub closed spec fn asked(&self) -> Command {
        self.command
    }

    #[verifier::type_invariant]
    spec fn within_limit(&self) -> bool {
        self.attempts < MAX_ATTEMPTS
    }

    /// A request for `command` before its first connection.
    pub fn new(command: Command) -> (r: Request)
        ensures
            r.made() == 0,
            r.asked() == command,
    {
        Request { command, attempts: 0 }
    }

    /// The command asked for.
    pub fn command(&self) -> (r: Command)
        ensures
            r == self.asked(),
    {
        self.command
    }

    /// The connections opened so far.
    pub fn attempts(&self) -> (r: u32)
        ensures
            r == self.made(),
            r < MAX_ATTEMPTS,
    {
        proof {
            use_type_invariant(self);
        }
        self.attempts
    }

    /// What is written to the command socket on each connection.
    pub fn message(&self) -> (r: String)
        ensures
            r@ == "j/"@ + command_name(self.asked()),
    {
        self.command.message()
    }

    /// Takes in how the latest connection ended and says what to do next.
    pub fn on_attempt(self, attempt: Attempt) -> (r: Step)
        ensures
            match r {
                Step::Retry(next) => after_attempt(self.made(), attempt) is None && next.made()
                    == self.made() + 1 && next.asked() == self.asked(),
                Step::Reply(bytes) => after_attempt(self.made(), attempt) == Some(
                    Outcome::Reply(bytes@),
                ),
                Step::Fail(error) => after_attempt(self.made(), attempt) == Some(
                    Outcome::Fail(error@),
                ),
            },
    {
        proof {
            use_type_invariant(&self);
        }
        match attempt {
            Attempt::Replied(bytes) => Step::Reply(bytes),
            Attempt::Failed(failure) => match failure.kind {
                IoErrorKind::BrokenPipe => {
                    if self.attempts + 1 < MAX_ATTEMPTS {
                        Step::Retry(Request { command: self.command, attempts: self.attempts + 1 })
                    } else {
                        Step::Fail(Error::MaxRetriesExceeded)
                    }
                },
                _ => Step::Fail(Error::Io(failure)),
            },
        }
    }
}

/// What [`request`] hands back, with its texts as sequences of characters.
pub open spec fn outcome_of(r: Option<Result<Vec<u8>, Error>>) -> Option<Outcome> {
    match r {
        Some(Ok(bytes)) => Some(Outcome::Reply(bytes@)),
        Some(Err(error)) => Some(Outcome::Fail(error@)),
        None => None,
    }
}

/// Carries a request through connections that end as `attempts` records,
/// in that order, and returns what the client returns: the bytes of the
/// reply for the decoder, or the error. `None` where the record ends before
/// the request does. What the record holds after the connection that ends
/// the request is not looked at.
pub fn request(command: Command, attempts: Vec<Attempt>) -> (r: Option<Result<Vec<u8>, Error>>)
    ensures
        outcome_of(r) == request_outcome(0, attempts@),
{
    let mut state = Request::new(command);
    let mut rest = attempts;
    while rest.len() > 0
        invariant
            request_outcome(0, attempts@) == request_outcome(state.made(), rest@),
        decreases rest.len(),
    {
        let ghost before = rest@;
        let attempt = rest.remove(0);
        assert(rest@ =~= before.drop_first());
        match state.on_attempt(attempt) {
            Step::Retry(next) => {
                state = next;
            },
            Step::Reply(bytes) => {
                return Some(Ok(bytes));
            },
            Step::Fail(error) => {
                return Some(Err(error));
            },
        }
    }
    None
}

/// Turns what the decoder made of a reply into what the request returns:
/// the value, or the decoder's description as [`Error::Json`].
pub fn reply<T>(decoded: Result<T, String>) -> (r: Result<T, Error>)
    ensures
        match decoded {
            Ok(value) => r == Ok::<T, Error>(value),
            Err(text) => r == Err::<T, Error>(Error::Json(text)),
        },
{
    match decoded {
        Ok(value) => Ok(value),
        Err(text) => Err(Error::Json(text)),
    }
}

/// Whether every connection in `attempts` met a broken pipe.
pub open spec fn all_broken_pipes(attempts: Seq<Attempt>) -> bool {
    forall|i: int|
        0 <= i < attempts.len() ==> (#[trigger] attempts[i] matches Attempt::Failed(failure)
            && failure.kind == IoErrorKind::BrokenPipe)
}

/// Broken pipes are passed over until the limit is reached.
proof fn lemma_broken_pipes(made: nat, pipes: Seq<Attempt>, rest: Seq<Attempt>)
    requires
        made < MAX_ATTEMPTS,
        all_broken_pipes(pipes),
    ensures
        request_outcome(made, pipes + rest) == (if made + pipes.len() < MAX_ATTEMPTS {
            request_outcome(made + pipes.len(), rest)
        } else {
            Some(Outcome::Fail(ErrorView::MaxRetriesExceeded))
        }),
    decreases pipes.len(),
{
    if pipes.len() == 0 {
        assert(pipes + rest =~= rest);
    } else {
        let all = pipes + rest;
        assert(all[0] == pipes[0]);
        assert(all.drop_first() =~= pipes.drop_first() + rest);
        if made + 1 < MAX_ATTEMPTS {
            assert forall|i: int| 0 <= i < pipes.drop_first().len() implies (
            #[trigger] pipes.drop_first()[i] matches Attempt::Failed(failure) && failure.kind
                == IoErrorKind::BrokenPipe) by {
                assert(pipes.drop_first()[i] == pipes[i + 1]);
            }
            lemma_broken_pipes(made + 1, pipes.drop_first(), rest);
        }
    }
}

/// After any number of broken pipes a reply ends the request with its
/// bytes if fewer than [`MAX_ATTEMPTS`] pipes broke, and the request ends
/// as [`Error::MaxRetriesExceeded`] if that many or more did.
pub proof fn law_retry_until_limit(pipes: Seq<Attempt>, bytes: Vec<u8>)
    requires
        all_broken_pipes(pipes),
    ensures
        request_outcome(0, pipes.push(Attempt::Replied(bytes))) == Some(
            if pipes.len() < MAX_ATTEMPTS {
                Outcome::Reply(bytes@)
            } else {
                Outcome::Fail(ErrorView::MaxRetriesExceeded)
            },
        ),
{
    let last = seq![Attempt::Replied(bytes)];
    assert(pipes.push(Attempt::Replied(bytes)) =~= pipes + last);
    lemma_broken_pipes(0, pipes, last);
    assert(last.drop_first() =~= Seq::<Attempt>::empty());
}

/// A failure other than a broken pipe ends the request as that failure at
/// once, on the first connection as after broken ones, whatever would have
/// come after it.
pub proof fn law_other_failure_ends(pipes: Seq<Attempt>, failure: IoError, rest: Seq<Attempt>)
    requires
        all_broken_pipes(pipes),
        pipes.len() < MAX_ATTEMPTS,
        failure.kind != IoErrorKind::BrokenPipe,
    ensures
        request_outcome(0, pipes + (seq![Attempt::Failed(failure)] + rest)) == Some(
            Outcome::Fail(Error::Io(failure)@),
        ),
{
    lemma_broken_pipes(0, pipes, seq![Attempt::Failed(failure)] + rest);
}

} // verus!
