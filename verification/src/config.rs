//! Where the configuration script is looked for.

use vstd::prelude::*;
use vstd::string::*;
use crate::error::Error;
use crate::text::chars_of;

verus! {

/// Whether `path` starts at the root of the file system.
pub open spec fn is_absolute(path: Seq<char>) -> bool {
    path.len() > 0 && path[0] == '/'
}

/// `base` with the relative path `rest` below it: a separator stands
/// between the two unless `base` is empty or ends in one.
pub open spec fn joined(base: Seq<char>, rest: Seq<char>) -> Seq<char> {
    if base.len() > 0 && base.last() != '/' {
        base + "/"@ + rest
    } else {
        base + rest
    }
}

/// The path of the configuration script: the path given where it is
/// absolute; below `.config/cbar` in the home directory where it is
/// relative; `main.lua` there where none is given.
pub open spec fn config_path_spec(home: Seq<char>, config: Option<Seq<char>>) -> Seq<char> {
    match config {
        Some(path) => if is_absolute(path) {
            path
        } else {
            joined(joined(home, ".config/cbar"@), path)
        },
        None => joined(home, ".config/cbar/main.lua"@),
    }
}

/// Appends the relative path `rest` to `base`.
fn push_path(base: &mut String, rest: &str)
    ensures
        final(base)@ == joined(old(base)@, rest@),
{
    let chars = chars_of(base.as_str());
    let n: usize = chars.len();
    if n > 0 && chars[n - 1] != '/' {
        base.append("/");
    }
    base.append(rest);
}

/// Resolves the path of the configuration script from the home directory
/// and the path given on the command line, if any.
pub fn config_path(home: &str, config: Option<&str>) -> (r: String)
    ensures
        r@ == config_path_spec(
            home@,
            match config {
                Some(path) => Some(path@),
                None => None,
            },
        ),
{
    match config {
        Some(path) => {
            let chars = chars_of(path);
            if chars.len() > 0 && chars[0] == '/' {
                path.to_owned()
            } else {
                let mut out = home.to_owned();
                push_path(&mut out, ".config/cbar");
                push_path(&mut out, path);
                out
            }
        },
        None => {
            let mut out = home.to_owned();
            push_path(&mut out, ".config/cbar/main.lua");
            out
        },
    }
}

/// Whether what was found at the configuration path can be run: it has to
/// exist and to be a regular file.
pub fn check_config(exists: bool, is_file: bool) -> (r: Result<(), Error>)
    ensures
        r == (if !exists {
            Err::<(), Error>(Error::ConfigFileDoesNotExist)
        } else if !is_file {
            Err(Error::ConfigFileNotAFile)
        } else {
            Ok(())
        }),
{
    if !exists {
        Err(Error::ConfigFileDoesNotExist)
    } else if !is_file {
        Err(Error::ConfigFileNotAFile)
    } else {
        Ok(())
    }
}

} // verus!
