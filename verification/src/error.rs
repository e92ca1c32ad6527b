//! Failures of the program as a whole, and how a script failure is shown.

use vstd::prelude::*;
use vstd::string::*;
use crate::number::{decimal_text, push_decimal};

verus! {

/// A failure of the script interpreter, as far as its rendering tells the
/// causes apart.
#[derive(Debug, PartialEq, Eq)]
#[allow(inconsistent_fields)]
pub enum LuaError {
    /// The source did not parse.
    SyntaxError { message: String, incomplete_input: bool },
    /// The script raised an error while it ran.
    RuntimeError(String),
    /// A native function called by the script failed.
    CallbackError { traceback: String, cause: Box<LuaError> },
    /// A native function was called with an argument it cannot take: the
    /// function's name where known, the argument's position and its name
    /// where known.
    BadArgument { to: Option<String>, pos: usize, name: Option<String>, cause: Box<LuaError> },
    /// A native value could not be handed to the script.
    ToLuaConversionError { from: String, to: String, message: Option<String> },
    /// A script value could not be taken as the native type asked for.
    FromLuaConversionError { from: String, to: String, message: Option<String> },
    /// A failure from outside the interpreter that wraps an interpreter
    /// failure.
    ExternalLuaError(Box<LuaError>),
    /// Any other failure from outside the interpreter, by its debug text.
    ExternalError(String),
    /// Any other interpreter failure, by its debug text.
    Other(String),
}

/// A copy of an optional text.
fn clone_text(text: &Option<String>) -> (r: Option<String>)
    ensures
        r == *text,
{
    match text {
        Some(t) => Some(t.clone()),
        None => None,
    }
}

impl Clone for LuaError {
    /// A copy that is equal to this failure down the whole chain of causes.
    fn clone(&self) -> (r: Self)
        ensures
            r == *self,
        decreases *self,
    {
        match self {
            LuaError::SyntaxError { message, incomplete_input } => LuaError::SyntaxError {
                message: message.clone(),
                incomplete_input: *incomplete_input,
            },
            LuaError::RuntimeError(message) => LuaError::RuntimeError(message.clone()),
            LuaError::CallbackError { traceback, cause } => LuaError::CallbackError {
                traceback: traceback.clone(),
                cause: Box::new((&**cause).clone()),
            },
            LuaError::BadArgument { to, pos, name, cause } => LuaError::BadArgument {
                to: clone_text(to),
                pos: *pos,
                name: clone_text(name),
                cause: Box::new((&**cause).clone()),
            },
            LuaError::ToLuaConversionError { from, to, message } => {
                LuaError::ToLuaConversionError {
                    from: from.clone(),
                    to: to.clone(),
                    message: clone_text(message),
                }
            },
            LuaError::FromLuaConversionError { from, to, message } => {
                LuaError::FromLuaConversionError {
                    from: from.clone(),
                    to: to.clone(),
                    message: clone_text(message),
                }
            },
            LuaError::ExternalLuaError(inner) => LuaError::ExternalLuaError(
                Box::new((&**inner).clone()),
            ),
            LuaError::ExternalError(debug) => LuaError::ExternalError(debug.clone()),
            LuaError::Other(debug) => LuaError::Other(debug.clone()),
        }
    }
}

/// `: ` and the message, where there is one.
pub open spec fn detail_text(message: Option<String>) -> Seq<char> {
    match message {
        Some(text) => ": "@ + text@,
        None => Seq::empty(),
    }
}

/// Which argument was wrong: its name in backquotes, or `at` and its
/// position.
pub open spec fn argument_text(name: Option<String>, pos: usize) -> Seq<char> {
    match name {
        Some(text) => "`"@ + text@ + "`"@,
        None => "at "@ + decimal_text(pos as nat),
    }
}

/// The function that was called, or `(unknown)`.
pub open spec fn callee_text(to: Option<String>) -> Seq<char> {
    match to {
        Some(text) => text@,
        None => "(unknown)"@,
    }
}

/// The diagnostic text of `err`: a heading that names the kind of failure,
/// what the failure carries, and for a failure with a cause the text of the
/// cause after `Caused by: `, down the whole chain.
pub open spec fn lua_error_text(err: LuaError) -> Seq<char>
    decreases err,
{
    match err {
        LuaError::SyntaxError { message, .. } => "Syntax error:\n"@ + message@,
        LuaError::RuntimeError(message) => "Runtime error:\n"@ + message@,
        LuaError::CallbackError { traceback, cause } => "Callback error:\n"@ + traceback@
            + "\nCaused by: "@ + lua_error_text(*cause),
        LuaError::BadArgument { to, pos, name, cause } =>
            "Bad argument error:\n\tWrong argument "@ + argument_text(name, pos)
            + " passed to "@ + callee_text(to) + "\nCaused by: "@ + lua_error_text(*cause),
        LuaError::ToLuaConversionError { from, to, message } =>
            "To lua conversion error:\n\tFailed to convert `"@ + from@ + "` to `"@ + to@ + "`"@
            + detail_text(message),
        LuaError::FromLuaConversionError { from, to, message } =>
            "From lua conversion error:\n\tFailed to convert `"@ + from@ + "` to `"@ + to@
            + "`"@ + detail_text(message),
        LuaError::ExternalLuaError(inner) => "External error:\n"@ + lua_error_text(*inner),
        LuaError::ExternalError(debug) => "External error:\n"@ + debug@,
        LuaError::Other(debug) => "Error: "@ + debug@,
    }
}

/// Appends `: ` and the message, where there is one.
fn push_detail(out: &mut String, message: &Option<String>)
    ensures
        final(out)@ == old(out)@ + detail_text(*message),
{
    match message {
        Some(text) => {
            out.append(": ");
            out.append(text.as_str());
            assert(out@ =~= old(out)@ + detail_text(*message));
        },
        None => {
            assert(out@ =~= old(out)@ + detail_text(*message));
        },
    }
}

/// Appends the text of a failed conversion from `from` to `to` under
/// `heading`.
fn push_conversion(
    out: &mut String,
    heading: &str,
    from: &String,
    to: &String,
    message: &Option<String>,
)
    ensures
        final(out)@ == old(out)@ + heading@ + from@ + "` to `"@ + to@ + "`"@ + detail_text(
            *message,
        ),
{
    out.append(heading);
    out.append(from.as_str());
    out.append("` to `");
    out.append(to.as_str());
    out.append("`");
    push_detail(out, message);
}

/// Appends the diagnostic text of `err` to `out`.
fn push_lua_error(out: &mut String, err: &LuaError)
    ensures
        final(out)@ == old(out)@ + lua_error_text(*err),
    decreases *err,
{
    match err {
        LuaError::SyntaxError { message, .. } => {
            out.append("Syntax error:\n");
            out.append(message.as_str());
        },
        LuaError::RuntimeError(message) => {
            out.append("Runtime error:\n");
            out.append(message.as_str());
        },
        LuaError::CallbackError { traceback, cause } => {
            out.append("Callback error:\n");
            out.append(traceback.as_str());
            out.append("\nCaused by: ");
            push_lua_error(out, &**cause);
        },
        LuaError::BadArgument { to, pos, name, cause } => {
            out.append("Bad argument error:\n\tWrong argument ");
            match name {
                Some(text) => {
                    out.append("`");
                    out.append(text.as_str());
                    out.append("`");
                },
                None => {
                    out.append("at ");
                    push_decimal(out, *pos);
                },
            }
            assert(out@ =~= old(out)@ + "Bad argument error:\n\tWrong argument "@ + argument_text(
                *name,
                *pos,
            ));
            out.append(" passed to ");
            match to {
                Some(text) => {
                    out.append(text.as_str());
                },
                None => {
                    out.append("(unknown)");
                },
            }
            out.append("\nCaused by: ");
            push_lua_error(out, &**cause);
        },
        LuaError::ToLuaConversionError { from, to, message } => {
            push_conversion(
                out,
                "To lua conversion error:\n\tFailed to convert `",
                from,
                to,
                message,
            );
        },
        LuaError::FromLuaConversionError { from, to, message } => {
            push_conversion(
                out,
                "From lua conversion error:\n\tFailed to convert `",
                from,
                to,
                message,
            );
        },
        LuaError::ExternalLuaError(inner) => {
            out.append("External error:\n");
            push_lua_error(out, &**inner);
        },
        LuaError::ExternalError(debug) => {
            out.append("External error:\n");
            out.append(debug.as_str());
        },
        LuaError::Other(debug) => {
            out.append("Error: ");
            out.append(debug.as_str());
        },
    }
    assert(out@ =~= old(out)@ + lua_error_text(*err));
}

/// Renders a script failure as diagnostic text. Each kind of cause has a
/// heading of its own, and the causes of a failure follow it, each after
/// `Caused by: `.
pub fn format_lua_error(err: &LuaError) -> (r: String)
    ensures
        r@ == lua_error_text(*err),
{
    let mut out = String::new();
    push_lua_error(&mut out, err);
    assert(out@ =~= lua_error_text(*err));
    out
}

/// A script failure that shows as its diagnostic text.
#[derive(Debug, PartialEq, Eq)]
pub struct LuaErrorWrapper(pub LuaError);

impl LuaErrorWrapper {
    /// The diagnostic text of the failure.
    pub fn to_string(&self) -> (r: String)
        ensures
            r@ == lua_error_text(self.0),
    {
        format_lua_error(&self.0)
    }
}

/// Why the program could not run the configuration script.
#[derive(Debug, PartialEq, Eq)]
pub enum Error {
    /// The interpreter failed.
    Lua(LuaError),
    /// The file system failed; the text describes how.
    Io(String),
    /// Nothing is at the configuration path.
    ConfigFileDoesNotExist,
    /// What is at the configuration path is no regular file.
    ConfigFileNotAFile,
}

/// The one-line message of `err`.
pub open spec fn error_message(err: Error) -> Seq<char> {
    match err {
        Error::Lua(_) => "Lua error"@,
        Error::Io(_) => "I/O error"@,
        Error::ConfigFileDoesNotExist => "Config file does not exist"@,
        Error::ConfigFileNotAFile => "Config file is not a file"@,
    }
}

impl Error {
    /// The one-line message of this error, which names its kind and leaves
    /// the cause out.
    pub fn to_string(&self) -> (r: String)
        ensures
            r@ == error_message(*self),
    {
        match self {
            Error::Lua(_) => "Lua error".to_owned(),
            Error::Io(_) => "I/O error".to_owned(),
            Error::ConfigFileDoesNotExist => "Config file does not exist".to_owned(),
            Error::ConfigFileNotAFile => "Config file is not a file".to_owned(),
        }
    }
}

impl From<LuaError> for Error {
    fn from(err: LuaError) -> (r: Error) {
        Error::Lua(err)
    }
}

impl vstd::std_specs::convert::FromSpecImpl<LuaError> for Error {
    open spec fn obeys_from_spec() -> bool {
        true
    }

    open spec fn from_spec(err: LuaError) -> Error {
        Error::Lua(err)
    }
}

} // verus!
