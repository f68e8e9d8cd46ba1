//! From a request to the switches of the rsync command line.

use vstd::prelude::*;
use vstd::string::*;
use crate::decimal::{decimal, render_decimal};
use crate::transport::TransportMode;

verus! {

/// One run, as the user asked for it.
#[derive(Clone, Debug)]
pub struct SyncRequest {
    /// The private key for the secure shell; the user's default key if none.
    pub identity: Option<String>,
    pub verbose: bool,
    pub quiet: bool,
    pub checksum: bool,
    pub archive: bool,
    pub recursive: bool,
    pub delete: bool,
    /// A pattern of files to leave out.
    pub exclude: Option<String>,
    pub partial: bool,
    pub progress: bool,
    /// The bandwidth limit, in the unit that rsync gives it.
    pub bwlimit: Option<u64>,
    pub ipv4: bool,
    pub ipv6: bool,
    /// The port of the secure shell; 22 if none.
    pub ssh_port: Option<u16>,
    /// The source endpoint.
    pub src: String,
    /// The destination endpoint.
    pub dest: String,
}

/// A request with its strings as sequences of characters.
pub ghost struct RequestModel {
    pub identity: Option<Seq<char>>,
    pub verbose: bool,
    pub quiet: bool,
    pub checksum: bool,
    pub archive: bool,
    pub recursive: bool,
    pub delete: bool,
    pub exclude: Option<Seq<char>>,
    pub partial: bool,
    pub progress: bool,
    pub bwlimit: Option<u64>,
    pub ipv4: bool,
    pub ipv6: bool,
    pub ssh_port: Option<u16>,
    pub src: Seq<char>,
    pub dest: Seq<char>,
}

/// The characters of a string that may be missing.
pub open spec fn text_of(s: Option<String>) -> Option<Seq<char>> {
    match s {
        Some(t) => Some(t@),
        None => None,
    }
}

impl View for SyncRequest {
    type V = RequestModel;

    open spec fn view(&self) -> RequestModel {
        RequestModel {
            identity: text_of(self.identity),
            verbose: self.verbose,
            quiet: self.quiet,
            checksum: self.checksum,
            archive: self.archive,
            recursive: self.recursive,
            delete: self.delete,
            exclude: text_of(self.exclude),
            partial: self.partial,
            progress: self.progress,
            bwlimit: self.bwlimit,
            ipv4: self.ipv4,
            ipv6: self.ipv6,
            ssh_port: self.ssh_port,
            src: self.src@,
            dest: self.dest@,
        }
    }
}

impl RequestModel {
    /// The limits that a request keeps: a bandwidth limit is positive, and a
    /// port is not 0.
    pub open spec fn well_formed(self) -> bool {
        &&& self.bwlimit matches Some(limit) ==> limit > 0
        &&& self.ssh_port matches Some(port) ==> port >= 1
    }
}

impl SyncRequest {
    /// Whether the request keeps the limits on its numbers.
    pub fn is_well_formed(&self) -> (ok: bool)
        ensures
            ok == self@.well_formed(),
    {
        let limit_ok: bool = match self.bwlimit {
            Some(limit) => limit > 0,
            None => true,
        };
        let port_ok: bool = match self.ssh_port {
            Some(port) => port >= 1,
            None => true,
        };
        limit_ok && port_ok
    }
}

/// A command line as a sequence of tokens, each a sequence of characters.
pub open spec fn texts(tokens: Seq<String>) -> Seq<Seq<char>> {
    tokens.map_values(|t: String| t@)
}

/// One switch if it is on, nothing if it is off.
pub open spec fn switch(on: bool, token: Seq<char>) -> Seq<Seq<char>> {
    if on {
        seq![token]
    } else {
        Seq::empty()
    }
}

/// The token that leaves out the files of a pattern. The pattern stands in
/// single quotes.
pub open spec fn exclude_token(pattern: Seq<char>) -> Seq<char> {
    "--exclude='"@ + pattern + "'"@
}

/// The token that limits the bandwidth.
pub open spec fn bwlimit_token(limit: u64) -> Seq<char> {
    "--bwlimit="@ + decimal(limit as nat)
}

/// The exclude token of a request, if it has a pattern.
pub open spec fn exclude_part(pattern: Option<Seq<char>>) -> Seq<Seq<char>> {
    match pattern {
        Some(p) => seq![exclude_token(p)],
        None => Seq::empty(),
    }
}

/// The bandwidth token of a request, if it has a limit.
pub open spec fn bwlimit_part(limit: Option<u64>) -> Seq<Seq<char>> {
    match limit {
        Some(l) => seq![bwlimit_token(l)],
        None => Seq::empty(),
    }
}

/// The switches of a request that no transport adds to, in their fixed order.
pub open spec fn plain_options(r: RequestModel) -> Seq<Seq<char>> {
    Seq::<Seq<char>>::empty() + switch(r.verbose, "-v"@) + switch(r.quiet, "-q"@) + switch(
        r.checksum,
        "-c"@,
    ) + switch(r.archive, "-a"@) + switch(r.recursive, "-r"@) + switch(r.delete, "--delete"@) + exclude_part(r.exclude)
        + switch(r.partial, "--partial"@) + switch(r.progress, "--progress"@) + bwlimit_part(
        r.bwlimit,
    ) + switch(r.ipv4, "-4"@) + switch(r.ipv6, "-6"@)
}

/// The port that the secure shell connects to.
pub open spec fn port_of(port: Option<u16>) -> nat {
    match port {
        Some(p) => p as nat,
        None => 22,
    }
}

/// The command that rsync starts as its remote shell: the client in double
/// quotes, no question about unknown host keys, no key but the one given, the
/// key file in double quotes, and the port.
pub open spec fn ssh_command(client: Seq<char>, identity: Seq<char>, port: Option<u16>) -> Seq<
    char,
> {
    "\""@ + client + "\" -o \"StrictHostKeyChecking=no\" -o \"IdentitiesOnly=yes\" -i \""@
        + identity + "\" -p "@ + decimal(port_of(port))
}

/// The switches of a request that goes through a secure shell.
pub open spec fn ssh_options(r: RequestModel, client: Seq<char>, identity: Seq<char>) -> Seq<
    Seq<char>,
> {
    plain_options(r) + seq!["-e"@, ssh_command(client, identity, r.ssh_port)]
}

/// The switches of a request in a given mode.
pub open spec fn translation(
    r: RequestModel,
    mode: TransportMode,
    client: Seq<char>,
    identity: Seq<char>,
) -> Seq<Seq<char>> {
    if mode == TransportMode::SecureShell {
        ssh_options(r, client, identity)
    } else {
        plain_options(r)
    }
}

/// The whole command line: the switches, then the source, then the destination.
pub open spec fn command_line(
    r: RequestModel,
    mode: TransportMode,
    client: Seq<char>,
    identity: Seq<char>,
    source: Seq<char>,
    destination: Seq<char>,
) -> Seq<Seq<char>> {
    translation(r, mode, client, identity) + seq![source, destination]
}

/// Appends one token.
fn push_token(options: &mut Vec<String>, token: String)
    ensures
        texts(final(options)@) == texts(old(options)@) + seq![token@],
{
    let ghost before = texts(options@);
    options.push(token);
    assert(texts(options@) =~= before + seq![token@]);
}

/// Appends a switch if it is on.
fn push_switch(options: &mut Vec<String>, on: bool, token: &str)
    ensures
        texts(final(options)@) == texts(old(options)@) + switch(on, token@),
{
    let ghost before = texts(options@);
    if on {
        push_token(options, String::from_str(token));
    }
    assert(texts(options@) =~= before + switch(on, token@));
}

/// Appends the exclude token if there is a pattern.
fn push_exclude(options: &mut Vec<String>, pattern: &Option<String>)
    ensures
        texts(final(options)@) == texts(old(options)@) + exclude_part(text_of(*pattern)),
{
    let ghost before = texts(options@);
    if let Some(exclude) = pattern {
        let token: String = String::from_str("--exclude='").concat(exclude.as_str()).concat("'");
        push_token(options, token);
    }
    assert(texts(options@) =~= before + exclude_part(text_of(*pattern)));
}

/// Appends the bandwidth token if there is a limit.
fn push_bwlimit(options: &mut Vec<String>, limit: Option<u64>)
    ensures
        texts(final(options)@) == texts(old(options)@) + bwlimit_part(limit),
{
    let ghost before = texts(options@);
    if let Some(bwlimit) = limit {
        let digits: String = render_decimal(bwlimit);
        let token: String = String::from_str("--bwlimit=").concat(digits.as_str());
        push_token(options, token);
    }
    assert(texts(options@) =~= before + bwlimit_part(limit));
}

/// The switches of a request that no transport adds to: one token for each
/// flag that is set and each value that is given, in the fixed order.
pub fn prepare_rsync_options(args: &SyncRequest) -> (options: Vec<String>)
    ensures
        texts(options@) == plain_options(args@),
{
    let mut options: Vec<String> = Vec::new();
    assert(texts(options@) =~= Seq::<Seq<char>>::empty());
    push_switch(&mut options, args.verbose, "-v");
    push_switch(&mut options, args.quiet, "-q");
    push_switch(&mut options, args.checksum, "-c");
    push_switch(&mut options, args.archive, "-a");
    push_switch(&mut options, args.recursive, "-r");
    push_switch(&mut options, args.delete, "--delete");
    push_exclude(&mut options, &args.exclude);
    push_switch(&mut options, args.partial, "--partial");
    push_switch(&mut options, args.progress, "--progress");
    push_bwlimit(&mut options, args.bwlimit);
    push_switch(&mut options, args.ipv4, "-4");
    push_switch(&mut options, args.ipv6, "-6");
    options
}

/// The command that rsync starts as its remote shell, for a client and a key
/// file given as they are to be written, and the port or 22.
pub fn prepare_ssh_args(client: &str, identity: &str, port: Option<u16>) -> (command: String)
    ensures
        command@ == ssh_command(client@, identity@, port),
{
    let number: u64 = match port {
        Some(p) => p as u64,
        None => 22,
    };
    let digits: String = render_decimal(number);
    let command: String = String::from_str("\"").concat(client).concat(
        "\" -o \"StrictHostKeyChecking=no\" -o \"IdentitiesOnly=yes\" -i \"",
    ).concat(identity).concat("\" -p ").concat(digits.as_str());
    command
}

/// The switches of a request that goes through a secure shell: those of the
/// request, then `-e` and the remote-shell command.
pub fn prepare_rsync_options_with_ssh(args: &SyncRequest, client: &str, identity: &str) -> (options:
    Vec<String>)
    ensures
        texts(options@) == ssh_options(args@, client@, identity@),
{
    let mut options: Vec<String> = prepare_rsync_options(args);
    push_token(&mut options, String::from_str("-e"));
    push_token(&mut options, prepare_ssh_args(client, identity, args.ssh_port));
    assert(texts(options@) =~= ssh_options(args@, client@, identity@));
    options
}

/// The switches of a request in a given mode. `client` and `identity` are
/// read only where the mode is the secure shell.
pub fn translate(request: &SyncRequest, mode: TransportMode, client: &str, identity: &str) -> (options:
    Vec<String>)
    ensures
        texts(options@) == translation(request@, mode, client@, identity@),
{
    match mode {
        TransportMode::SecureShell => prepare_rsync_options_with_ssh(request, client, identity),
        _ => prepare_rsync_options(request),
    }
}

/// The whole command line of the run: the switches, then the two endpoints as
/// the path helper wrote them.
pub fn assemble(
    request: &SyncRequest,
    mode: TransportMode,
    client: &str,
    identity: &str,
    source: &str,
    destination: &str,
) -> (line: Vec<String>)
    ensures
        texts(line@) == command_line(
            request@,
            mode,
            client@,
            identity@,
            source@,
            destination@,
        ),
{
    let mut line: Vec<String> = translate(request, mode, client, identity);
    push_token(&mut line, String::from_str(source));
    push_token(&mut line, String::from_str(destination));
    assert(texts(line@) =~= command_line(
        request@,
        mode,
        client@,
        identity@,
        source@,
        destination@,
    ));
    line
}

} // verus!
