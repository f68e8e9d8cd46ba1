//! Which transport a pair of endpoints calls for.

use vstd::prelude::*;
use crate::text::{contains, contains_char, contains_text};

verus! {

/// How a transfer reaches the other side.
#[derive(Clone, Copy, Debug, PartialEq, Eq, Structural)]
pub enum TransportMode {
    /// Both endpoints are paths on this host.
    Local,
    /// One endpoint is reached through a secure shell.
    SecureShell,
    /// One endpoint is an rsync daemon, which brings its own transport.
    NativeRemote,
}

/// The marker of an rsync daemon address: `rsync://`.
pub open spec fn scheme_marker() -> Seq<char> {
    seq!['r', 's', 'y', 'n', 'c', ':', '/', '/']
}

/// The endpoint is an rsync daemon address.
pub open spec fn has_scheme(endpoint: Seq<char>) -> bool {
    contains_text(endpoint, scheme_marker())
}

/// The endpoint names a user, as in `user@host:/path`.
pub open spec fn has_user(endpoint: Seq<char>) -> bool {
    endpoint.contains('@')
}

/// The endpoint is reached through a secure shell: it names a user and is no
/// rsync daemon address.
pub open spec fn ssh_endpoint(endpoint: Seq<char>) -> bool {
    !has_scheme(endpoint) && has_user(endpoint)
}

/// The mode of a pair of endpoints. A daemon address on either side decides
/// first, whatever else the two hold; then a user on either side.
pub open spec fn mode_of(source: Seq<char>, destination: Seq<char>) -> TransportMode {
    if has_scheme(source) || has_scheme(destination) {
        TransportMode::NativeRemote
    } else if has_user(source) || has_user(destination) {
        TransportMode::SecureShell
    } else {
        TransportMode::Local
    }
}

/// Whether the endpoint holds the marker of an rsync daemon address.
pub fn is_rsync_url(path: &str) -> (yes: bool)
    ensures
        yes == has_scheme(path@),
{
    proof {
        reveal_strlit("rsync://");
        assert("rsync://"@ =~= scheme_marker());
    }
    contains(path, "rsync://")
}

/// Whether one endpoint, taken alone, is reached through a secure shell.
pub fn is_ssh_path(path: &str) -> (yes: bool)
    ensures
        yes == ssh_endpoint(path@),
{
    if is_rsync_url(path) {
        false
    } else {
        contains_char(path, '@')
    }
}

/// The transport that a source and a destination call for.
pub fn classify(source: &str, destination: &str) -> (mode: TransportMode)
    ensures
        mode == mode_of(source@, destination@),
        has_scheme(source@) || has_scheme(destination@) ==> mode == TransportMode::NativeRemote,
        !has_scheme(source@) && !has_scheme(destination@) && (has_user(source@) || has_user(
            destination@,
        )) ==> mode == TransportMode::SecureShell,
        !has_scheme(source@) && !has_scheme(destination@) && !has_user(source@) && !has_user(
            destination@,
        ) ==> mode == TransportMode::Local,
{
    if is_rsync_url(source) || is_rsync_url(destination) {
        TransportMode::NativeRemote
    } else if contains_char(source, '@') || contains_char(destination, '@') {
        TransportMode::SecureShell
    } else {
        TransportMode::Local
    }
}

/// A pair of endpoints goes through a secure shell exactly when neither is a
/// daemon address and one of them, taken alone, is reached through a secure
/// shell.
pub proof fn lemma_secure_shell_mode(source: Seq<char>, destination: Seq<char>)
    ensures
        mode_of(source, destination) == TransportMode::SecureShell <==> !has_scheme(source)
            && !has_scheme(destination) && (ssh_endpoint(source) || ssh_endpoint(destination)),
        mode_of(source, destination) == TransportMode::NativeRemote <==> has_scheme(source)
            || has_scheme(destination),
        mode_of(source, destination) == TransportMode::Local <==> !has_scheme(source)
            && !has_scheme(destination) && !has_user(source) && !has_user(destination),
{
}

} // verus!
