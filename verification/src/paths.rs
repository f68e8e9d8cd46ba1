//! Where the bundled executables and the user's key file live.

use vstd::prelude::*;
use crate::error::SetupError;
use crate::options::SyncRequest;
use crate::transport::TransportMode;

verus! {

/// The text of a path after `PathBuf::push` of a part onto it, with the
/// separator of the platform that the library is built for.
pub uninterp spec fn joined_path(base: Seq<char>, part: Seq<char>) -> Seq<char>;

/// The text of a path after `PathBuf::pop`: its parent, or the path itself
/// where it has none.
pub uninterp spec fn parent_path(path: Seq<char>) -> Seq<char>;

/// `PathBuf::push` of `part` onto the path `base`. Both are valid text, and so
/// is what comes out: the result is named, and nothing more is said of it.
#[verifier::external_body]
fn join_path(base: &str, part: &str) -> (joined: String)
    ensures
        joined@ == joined_path(base@, part@),
{
    let mut path = std::path::PathBuf::from(base);
    path.push(part);
    path.to_string_lossy().into_owned()
}

/// `PathBuf::pop` on the path `path`: the result is named, and nothing more is
/// said of it.
#[verifier::external_body]
fn parent_of(path: &str) -> (parent: String)
    ensures
        parent@ == parent_path(path@),
{
    let mut dir = std::path::PathBuf::from(path);
    dir.pop();
    dir.to_string_lossy().into_owned()
}

/// `home::home_dir`, with the path as text. It reads the environment, so
/// nothing is said of what comes back; `None` also where the path is no valid
/// text.
#[verifier::external_body]
fn home_directory() -> (home: Option<String>) {
    home::home_dir()?.to_str().map(String::from)
}

/// The directory of the bundled executables, for the path of the running
/// program: `cygwin64` beside it.
pub open spec fn cygwin_dir(exe: Seq<char>) -> Seq<char> {
    joined_path(parent_path(exe), "cygwin64"@)
}

/// The key file that is used where the request names none, for a home
/// directory.
pub open spec fn default_identity(home: Seq<char>) -> Seq<char> {
    joined_path(home, ".ssh/id_rsa"@)
}

/// The directory of the bundled executables, given the path of the running
/// program.
pub fn path_cygwin_dir(exe: &str) -> (dir: String)
    ensures
        dir@ == cygwin_dir(exe@),
{
    let beside: String = parent_of(exe);
    join_path(beside.as_str(), "cygwin64")
}

/// The bundled rsync, given the path of the running program.
pub fn path_rsync(exe: &str) -> (path: String)
    ensures
        path@ == joined_path(cygwin_dir(exe@), "rsync.exe"@),
{
    let dir: String = path_cygwin_dir(exe);
    join_path(dir.as_str(), "rsync.exe")
}

/// The bundled secure-shell client, given the path of the running program.
pub fn path_ssh(exe: &str) -> (path: String)
    ensures
        path@ == joined_path(cygwin_dir(exe@), "ssh.exe"@),
{
    let dir: String = path_cygwin_dir(exe);
    join_path(dir.as_str(), "ssh.exe")
}

/// The bundled path helper, given the path of the running program.
pub fn path_cygpath(exe: &str) -> (path: String)
    ensures
        path@ == joined_path(cygwin_dir(exe@), "cygpath.exe"@),
{
    let dir: String = path_cygwin_dir(exe);
    join_path(dir.as_str(), "cygpath.exe")
}

/// The default key file for a home directory that was looked up: `.ssh/id_rsa`
/// under it, or the fault if there is none.
pub fn identity_under(home: Option<String>) -> (file: Result<String, SetupError>)
    ensures
        home matches Some(dir) ==> file matches Ok(path) && path@ == default_identity(dir@),
        home is None ==> file == Err::<String, SetupError>(SetupError::HomeDirectoryUnknown),
{
    match home {
        Some(dir) => Ok(join_path(dir.as_str(), ".ssh/id_rsa")),
        None => Err(SetupError::HomeDirectoryUnknown),
    }
}

/// The default key file of the current user. The home directory is looked up
/// in the environment, so the outcome is one of the two that
/// `identity_under` has.
pub fn default_identity_file() -> (file: Result<String, SetupError>)
    ensures
        file matches Ok(path) ==> exists|home: Seq<char>| path@ == default_identity(home),
        file matches Err(fault) ==> fault == SetupError::HomeDirectoryUnknown,
{
    let home: Option<String> = home_directory();
    identity_under(home)
}

/// The key file of a request, before the path helper has seen it: the one
/// that the request names, else the default of the current user.
pub fn identity_file(request: &SyncRequest) -> (file: Result<String, SetupError>)
    ensures
        request@.identity matches Some(named) ==> file matches Ok(path) && path@ == named,
        request@.identity is None ==> (file matches Ok(path) ==> exists|home: Seq<char>|
            path@ == default_identity(home)),
        file matches Err(fault) ==> request@.identity is None && fault
            == SetupError::HomeDirectoryUnknown,
{
    match &request.identity {
        Some(named) => Ok(named.clone()),
        None => default_identity_file(),
    }
}

/// The key file that the path helper has to see before the command line is
/// built: that of `identity_file` where the transfer goes through a secure
/// shell, and none in the other modes, which read no key.
pub fn identity_for_mode(request: &SyncRequest, mode: TransportMode) -> (file: Result<
    Option<String>,
    SetupError,
>)
    ensures
        mode != TransportMode::SecureShell ==> file == Ok::<Option<String>, SetupError>(None),
        mode == TransportMode::SecureShell ==> {
            &&& request@.identity matches Some(named) ==> file matches Ok(Some(path)) && path@
                == named
            &&& request@.identity is None ==> (file matches Ok(found) ==> found matches Some(path)
                && exists|home: Seq<char>| path@ == default_identity(home))
            &&& file matches Err(fault) ==> request@.identity is None && fault
                == SetupError::HomeDirectoryUnknown
        },
{
    match mode {
        TransportMode::SecureShell => match identity_file(request) {
            Ok(path) => Ok(Some(path)),
            Err(fault) => Err(fault),
        },
        _ => Ok(None),
    }
}

} // verus!
