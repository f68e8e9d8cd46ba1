//! What holds of every command line that the library builds.

use vstd::prelude::*;
use crate::decimal::{decimal, lemma_decimal_digits};
use crate::options::{
    bwlimit_part, bwlimit_token, exclude_part, exclude_token, plain_options, port_of, ssh_command,
    switch, translation, RequestModel, SyncRequest,
};
use crate::text::{contains_text, occurs_at};
use crate::transport::TransportMode;

verus! {

/// `token` starts with `prefix`.
pub open spec fn begins_with(token: Seq<char>, prefix: Seq<char>) -> bool {
    token.len() >= prefix.len() && token.subrange(0, prefix.len() as int) == prefix
}

/// `token` is one that `plain_options` writes for the request.
pub open spec fn plain_token(r: RequestModel, token: Seq<char>) -> bool {
    ||| r.verbose && token == "-v"@
    ||| r.quiet && token == "-q"@
    ||| r.checksum && token == "-c"@
    ||| r.archive && token == "-a"@
    ||| r.recursive && token == "-r"@
    ||| r.delete && token == "--delete"@
    ||| r.exclude matches Some(p) && token == exclude_token(p)
    ||| r.partial && token == "--partial"@
    ||| r.progress && token == "--progress"@
    ||| r.bwlimit matches Some(l) && token == bwlimit_token(l)
    ||| r.ipv4 && token == "-4"@
    ||| r.ipv6 && token == "-6"@
}

/// What stands in two sequences put together stands in one of them.
pub proof fn lemma_concat_contains<A>(a: Seq<A>, b: Seq<A>, x: A)
    ensures
        (a + b).contains(x) <==> a.contains(x) || b.contains(x),
{
    if a.contains(x) {
        let i = choose|i: int| 0 <= i < a.len() && a[i] == x;
        assert((a + b)[i] == x);
    }
    if b.contains(x) {
        let j = choose|j: int| 0 <= j < b.len() && b[j] == x;
        assert((a + b)[a.len() + j] == x);
    }
    if (a + b).contains(x) {
        let k = choose|k: int| 0 <= k < (a + b).len() && (a + b)[k] == x;
        if k < a.len() {
            assert(a[k] == x);
        } else {
            assert(b[k - a.len()] == x);
        }
    }
}

/// Adding a switch to a line adds its token if it is on, and nothing else.
proof fn lemma_add_switch(line: Seq<Seq<char>>, on: bool, token: Seq<char>, x: Seq<char>)
    ensures
        (line + switch(on, token)).contains(x) <==> line.contains(x) || (on && x == token),
{
    lemma_concat_contains(line, switch(on, token), x);
    if on {
        assert(switch(on, token)[0] == token);
    }
}

/// Adding the exclude part to a line adds its token if there is a pattern.
proof fn lemma_add_exclude(line: Seq<Seq<char>>, pattern: Option<Seq<char>>, x: Seq<char>)
    ensures
        (line + exclude_part(pattern)).contains(x) <==> line.contains(x) || (pattern matches Some(
            p,
        ) && x == exclude_token(p)),
{
    lemma_concat_contains(line, exclude_part(pattern), x);
    if let Some(p) = pattern {
        assert(exclude_part(pattern)[0] == exclude_token(p));
    }
}

/// Adding the bandwidth part to a line adds its token if there is a limit.
proof fn lemma_add_bwlimit(line: Seq<Seq<char>>, limit: Option<u64>, x: Seq<char>)
    ensures
        (line + bwlimit_part(limit)).contains(x) <==> line.contains(x) || (limit matches Some(l)
            && x == bwlimit_token(l)),
{
    lemma_concat_contains(line, bwlimit_part(limit), x);
    if let Some(l) = limit {
        assert(bwlimit_part(limit)[0] == bwlimit_token(l));
    }
}

/// The tokens of `plain_options` are those that `plain_token` lists.
pub proof fn lemma_plain_tokens(r: RequestModel, x: Seq<char>)
    ensures
        plain_options(r).contains(x) <==> plain_token(r, x),
{
    let p0 = Seq::<Seq<char>>::empty();
    let p1 = p0 + switch(r.verbose, "-v"@);
    let p2 = p1 + switch(r.quiet, "-q"@);
    let p3 = p2 + switch(r.checksum, "-c"@);
    let p4 = p3 + switch(r.archive, "-a"@);
    let p5 = p4 + switch(r.recursive, "-r"@);
    let p6 = p5 + switch(r.delete, "--delete"@);
    let p7 = p6 + exclude_part(r.exclude);
    let p8 = p7 + switch(r.partial, "--partial"@);
    let p9 = p8 + switch(r.progress, "--progress"@);
    let p10 = p9 + bwlimit_part(r.bwlimit);
    let p11 = p10 + switch(r.ipv4, "-4"@);
    assert(!p0.contains(x));
    lemma_add_switch(p0, r.verbose, "-v"@, x);
    lemma_add_switch(p1, r.quiet, "-q"@, x);
    lemma_add_switch(p2, r.checksum, "-c"@, x);
    lemma_add_switch(p3, r.archive, "-a"@, x);
    lemma_add_switch(p4, r.recursive, "-r"@, x);
    lemma_add_switch(p5, r.delete, "--delete"@, x);
    lemma_add_exclude(p6, r.exclude, x);
    lemma_add_switch(p7, r.partial, "--partial"@, x);
    lemma_add_switch(p8, r.progress, "--progress"@, x);
    lemma_add_bwlimit(p9, r.bwlimit, x);
    lemma_add_switch(p10, r.ipv4, "-4"@, x);
    lemma_add_switch(p11, r.ipv6, "-6"@, x);
}

/// The tokens of a translation are those of `plain_options` and, through a
/// secure shell, `-e` and the remote-shell command.
pub proof fn lemma_translation_tokens(
    r: RequestModel,
    mode: TransportMode,
    client: Seq<char>,
    identity: Seq<char>,
    x: Seq<char>,
)
    ensures
        translation(r, mode, client, identity).contains(x) <==> plain_token(r, x) || (mode
            == TransportMode::SecureShell && (x == "-e"@ || x == ssh_command(
            client,
            identity,
            r.ssh_port,
        ))),
{
    lemma_plain_tokens(r, x);
    if mode == TransportMode::SecureShell {
        let tail = seq!["-e"@, ssh_command(client, identity, r.ssh_port)];
        lemma_concat_contains(plain_options(r), tail, x);
        assert(tail[0] == "-e"@);
        assert(tail[1] == ssh_command(client, identity, r.ssh_port));
    }
}

/// Two requests that say the same give the same command line: a translation
/// depends on nothing but the request, the mode, the client and the key file.
pub proof fn lemma_translate_deterministic(
    first: SyncRequest,
    second: SyncRequest,
    mode: TransportMode,
    client: Seq<char>,
    identity: Seq<char>,
)
    requires
        first@ == second@,
    ensures
        translation(first@, mode, client, identity) == translation(
            second@,
            mode,
            client,
            identity,
        ),
{
}

/// The shape of the tokens that carry a value, and of the remote-shell
/// command: enough to tell each from every switch.
proof fn lemma_token_shapes(
    client: Seq<char>,
    identity: Seq<char>,
    port: Option<u16>,
    pattern: Seq<char>,
    limit: u64,
)
    ensures
        ssh_command(client, identity, port).len() >= 1,
        ssh_command(client, identity, port)[0] == '"',
        exclude_token(pattern).len() >= 12,
        exclude_token(pattern)[0] == '-',
        exclude_token(pattern)[2] == 'e',
        begins_with(exclude_token(pattern), "--exclude"@),
        bwlimit_token(limit).len() >= 11,
        bwlimit_token(limit)[0] == '-',
        bwlimit_token(limit)[2] == 'b',
        begins_with(bwlimit_token(limit), "--bwlimit"@),
{
    reveal_strlit("\"");
    reveal_strlit("--exclude='");
    reveal_strlit("--exclude");
    reveal_strlit("'");
    reveal_strlit("--bwlimit=");
    reveal_strlit("--bwlimit");
    lemma_decimal_digits(limit as nat);
    assert(exclude_token(pattern).subrange(0, 9) =~= "--exclude"@);
    assert(bwlimit_token(limit).subrange(0, 9) =~= "--bwlimit"@);
}

/// The shape of the switches: enough to tell each from every other token.
proof fn lemma_switch_shapes()
    ensures
        "-v"@.len() == 2 && "-v"@[0] == '-' && "-v"@[1] == 'v',
        "-q"@.len() == 2 && "-q"@[0] == '-' && "-q"@[1] == 'q',
        "-c"@.len() == 2 && "-c"@[0] == '-' && "-c"@[1] == 'c',
        "-a"@.len() == 2 && "-a"@[0] == '-' && "-a"@[1] == 'a',
        "-r"@.len() == 2 && "-r"@[0] == '-' && "-r"@[1] == 'r',
        "-4"@.len() == 2 && "-4"@[0] == '-' && "-4"@[1] == '4',
        "-6"@.len() == 2 && "-6"@[0] == '-' && "-6"@[1] == '6',
        "-e"@.len() == 2 && "-e"@[0] == '-' && "-e"@[1] == 'e',
        "--delete"@.len() == 8 && "--delete"@[0] == '-' && "--delete"@[2] == 'd',
        "--partial"@.len() == 9 && "--partial"@[0] == '-' && "--partial"@[2] == 'p',
        "--progress"@.len() == 10 && "--progress"@[0] == '-' && "--progress"@[2] == 'p',
{
    reveal_strlit("-v");
    reveal_strlit("-q");
    reveal_strlit("-c");
    reveal_strlit("-a");
    reveal_strlit("-r");
    reveal_strlit("--delete");
    reveal_strlit("--partial");
    reveal_strlit("--progress");
    reveal_strlit("-4");
    reveal_strlit("-6");
    reveal_strlit("-e");
}

/// A token that begins with a prefix has the prefix's characters.
proof fn lemma_begins_char(token: Seq<char>, prefix: Seq<char>, k: int)
    requires
        begins_with(token, prefix),
        0 <= k < prefix.len(),
    ensures
        token[k] == prefix[k],
{
    assert(token.subrange(0, prefix.len() as int)[k] == token[k]);
}

/// `token` is one that stands for a flag of the request, or, through a secure
/// shell, `-e`.
pub open spec fn switch_token(r: RequestModel, mode: TransportMode, token: Seq<char>) -> bool {
    ||| r.verbose && token == "-v"@
    ||| r.quiet && token == "-q"@
    ||| r.checksum && token == "-c"@
    ||| r.archive && token == "-a"@
    ||| r.recursive && token == "-r"@
    ||| r.delete && token == "--delete"@
    ||| r.partial && token == "--partial"@
    ||| r.progress && token == "--progress"@
    ||| r.ipv4 && token == "-4"@
    ||| r.ipv6 && token == "-6"@
    ||| mode == TransportMode::SecureShell && token == "-e"@
}

/// A token of at most ten characters that starts with a hyphen is a switch.
proof fn lemma_short_token(
    r: RequestModel,
    mode: TransportMode,
    client: Seq<char>,
    identity: Seq<char>,
    x: Seq<char>,
)
    requires
        translation(r, mode, client, identity).contains(x),
        1 <= x.len() <= 10,
        x[0] == '-',
    ensures
        switch_token(r, mode, x),
{
    let pattern = match r.exclude {
        Some(p) => p,
        None => Seq::empty(),
    };
    let limit = match r.bwlimit {
        Some(l) => l,
        None => 0,
    };
    lemma_token_shapes(client, identity, r.ssh_port, pattern, limit);
    lemma_translation_tokens(r, mode, client, identity, x);
}

/// A flag that the request leaves out has no token in the command line, and
/// `-e` stands only in the line of a secure shell.
pub proof fn lemma_omitted_flags_absent(
    r: RequestModel,
    mode: TransportMode,
    client: Seq<char>,
    identity: Seq<char>,
)
    ensures
        !r.verbose ==> !translation(r, mode, client, identity).contains("-v"@),
        !r.quiet ==> !translation(r, mode, client, identity).contains("-q"@),
        !r.checksum ==> !translation(r, mode, client, identity).contains("-c"@),
        !r.archive ==> !translation(r, mode, client, identity).contains("-a"@),
        !r.recursive ==> !translation(r, mode, client, identity).contains("-r"@),
        !r.delete ==> !translation(r, mode, client, identity).contains("--delete"@),
        !r.partial ==> !translation(r, mode, client, identity).contains("--partial"@),
        !r.progress ==> !translation(r, mode, client, identity).contains("--progress"@),
        !r.ipv4 ==> !translation(r, mode, client, identity).contains("-4"@),
        !r.ipv6 ==> !translation(r, mode, client, identity).contains("-6"@),
        mode != TransportMode::SecureShell ==> !translation(r, mode, client, identity).contains(
            "-e"@,
        ),
{
    lemma_switch_shapes();
    let line = translation(r, mode, client, identity);
    if line.contains("-v"@) {
        lemma_short_token(r, mode, client, identity, "-v"@);
    }
    if line.contains("-q"@) {
        lemma_short_token(r, mode, client, identity, "-q"@);
    }
    if line.contains("-c"@) {
        lemma_short_token(r, mode, client, identity, "-c"@);
    }
    if line.contains("-a"@) {
        lemma_short_token(r, mode, client, identity, "-a"@);
    }
    if line.contains("-r"@) {
        lemma_short_token(r, mode, client, identity, "-r"@);
    }
    if line.contains("--delete"@) {
        lemma_short_token(r, mode, client, identity, "--delete"@);
    }
    if line.contains("--partial"@) {
        lemma_short_token(r, mode, client, identity, "--partial"@);
    }
    if line.contains("--progress"@) {
        lemma_short_token(r, mode, client, identity, "--progress"@);
    }
    if line.contains("-4"@) {
        lemma_short_token(r, mode, client, identity, "-4"@);
    }
    if line.contains("-6"@) {
        lemma_short_token(r, mode, client, identity, "-6"@);
    }
    if line.contains("-e"@) {
        lemma_short_token(r, mode, client, identity, "-e"@);
    }
}

/// A request without a pattern has no exclude token in its command line, and
/// one without a limit no bandwidth token.
pub proof fn lemma_omitted_values_absent(
    r: RequestModel,
    mode: TransportMode,
    client: Seq<char>,
    identity: Seq<char>,
    x: Seq<char>,
)
    requires
        translation(r, mode, client, identity).contains(x),
    ensures
        r.exclude is None ==> !begins_with(x, "--exclude"@),
        r.bwlimit is None ==> !begins_with(x, "--bwlimit"@),
{
    lemma_switch_shapes();
    reveal_strlit("--exclude");
    reveal_strlit("--bwlimit");
    let pattern = match r.exclude {
        Some(p) => p,
        None => Seq::empty(),
    };
    let limit = match r.bwlimit {
        Some(l) => l,
        None => 0,
    };
    lemma_token_shapes(client, identity, r.ssh_port, pattern, limit);
    lemma_translation_tokens(r, mode, client, identity, x);
    if begins_with(x, "--exclude"@) {
        lemma_begins_char(x, "--exclude"@, 0);
        lemma_begins_char(x, "--exclude"@, 2);
    }
    if begins_with(x, "--bwlimit"@) {
        lemma_begins_char(x, "--bwlimit"@, 0);
        lemma_begins_char(x, "--bwlimit"@, 2);
    }
}

/// A value that the request gives has its token in the command line: the
/// pattern in single quotes behind `--exclude=`, the limit in decimal digits
/// behind `--bwlimit=`.
pub proof fn lemma_given_values_present(
    r: RequestModel,
    mode: TransportMode,
    client: Seq<char>,
    identity: Seq<char>,
)
    ensures
        r.exclude matches Some(p) ==> translation(r, mode, client, identity).contains(
            exclude_token(p),
        ),
        r.bwlimit matches Some(l) ==> translation(r, mode, client, identity).contains(
            bwlimit_token(l),
        ),
{
    if let Some(p) = r.exclude {
        lemma_translation_tokens(r, mode, client, identity, exclude_token(p));
    }
    if let Some(l) = r.bwlimit {
        lemma_translation_tokens(r, mode, client, identity, bwlimit_token(l));
    }
}

/// The remote-shell command holds the key file as it was handed in, and ends
/// with the port in decimal digits: the request's port, or 22.
pub proof fn lemma_ssh_command_parts(client: Seq<char>, identity: Seq<char>, port: Option<u16>)
    ensures
        contains_text(ssh_command(client, identity, port), identity),
        contains_text(ssh_command(client, identity, port), client),
        ({
            let command = ssh_command(client, identity, port);
            let digits = decimal(port_of(port));
            command.len() >= digits.len() && command.subrange(
                command.len() - digits.len(),
                command.len() as int,
            ) == digits
        }),
        port is None ==> decimal(port_of(port)) == seq!['2', '2'],
        port matches Some(p) ==> port_of(port) == p,
{
    let command = ssh_command(client, identity, port);
    let digits = decimal(port_of(port));
    let middle = "\" -o \"StrictHostKeyChecking=no\" -o \"IdentitiesOnly=yes\" -i \""@;
    let at: int = ("\""@.len() + client.len() + middle.len()) as int;
    assert(command.subrange(at, at + identity.len()) =~= identity);
    assert(occurs_at(command, identity, at));
    let first: int = "\""@.len() as int;
    assert(command.subrange(first, first + client.len()) =~= client);
    assert(occurs_at(command, client, first));
    assert(command.subrange(command.len() - digits.len(), command.len() as int) =~= digits);
    assert(decimal(22) =~= seq!['2', '2']) by {
        reveal_with_fuel(decimal, 3);
    }
}

/// How often `token` stands in `line`.
pub open spec fn occurrences(line: Seq<Seq<char>>, token: Seq<char>) -> nat
    decreases line.len(),
{
    if line.len() == 0 {
        0
    } else {
        occurrences(line.drop_last(), token) + one_if(line.last() == token)
    }
}

/// 1 for what holds, 0 for what does not.
pub open spec fn one_if(holds: bool) -> nat {
    if holds {
        1
    } else {
        0
    }
}

/// How often `plain_options` writes `token` for the request.
pub open spec fn plain_count(r: RequestModel, token: Seq<char>) -> nat {
    one_if(r.verbose && token == "-v"@) + one_if(r.quiet && token == "-q"@) + one_if(
        r.checksum && token == "-c"@,
    ) + one_if(r.archive && token == "-a"@) + one_if(r.recursive && token == "-r"@) + one_if(
        r.delete && token == "--delete"@,
    ) + one_if(r.exclude matches Some(p) && token == exclude_token(p)) + one_if(
        r.partial && token == "--partial"@,
    ) + one_if(r.progress && token == "--progress"@) + one_if(
        r.bwlimit matches Some(l) && token == bwlimit_token(l),
    ) + one_if(r.ipv4 && token == "-4"@) + one_if(r.ipv6 && token == "-6"@)
}

/// A token stands in two lines put together as often as in both.
pub proof fn lemma_occurrences_concat(a: Seq<Seq<char>>, b: Seq<Seq<char>>, x: Seq<char>)
    ensures
        occurrences(a + b, x) == occurrences(a, x) + occurrences(b, x),
    decreases b.len(),
{
    if b.len() == 0 {
        assert(a + b =~= a);
    } else {
        assert((a + b).drop_last() =~= a + b.drop_last());
        assert((a + b).last() == b.last());
        lemma_occurrences_concat(a, b.drop_last(), x);
    }
}

/// A line of one token holds that token once.
proof fn lemma_occurrences_single(token: Seq<char>, x: Seq<char>)
    ensures
        occurrences(seq![token], x) == one_if(token == x),
        occurrences(Seq::<Seq<char>>::empty(), x) == 0,
{
    assert(seq![token].drop_last() =~= Seq::<Seq<char>>::empty());
    assert(seq![token].last() == token);
    reveal_with_fuel(occurrences, 2);
}

/// Adding a switch to a line adds one occurrence of its token if it is on.
proof fn lemma_count_switch(line: Seq<Seq<char>>, on: bool, token: Seq<char>, x: Seq<char>)
    ensures
        occurrences(line + switch(on, token), x) == occurrences(line, x) + one_if(
            on && x == token,
        ),
{
    lemma_occurrences_concat(line, switch(on, token), x);
    lemma_occurrences_single(token, x);
}

/// Adding the exclude part to a line adds one occurrence of its token.
proof fn lemma_count_exclude(line: Seq<Seq<char>>, pattern: Option<Seq<char>>, x: Seq<char>)
    ensures
        occurrences(line + exclude_part(pattern), x) == occurrences(line, x) + one_if(
            pattern matches Some(p) && x == exclude_token(p),
        ),
{
    lemma_occurrences_concat(line, exclude_part(pattern), x);
    if let Some(p) = pattern {
        lemma_occurrences_single(exclude_token(p), x);
    } else {
        lemma_occurrences_single(x, x);
    }
}

/// Adding the bandwidth part to a line adds one occurrence of its token.
proof fn lemma_count_bwlimit(line: Seq<Seq<char>>, limit: Option<u64>, x: Seq<char>)
    ensures
        occurrences(line + bwlimit_part(limit), x) == occurrences(line, x) + one_if(
            limit matches Some(l) && x == bwlimit_token(l),
        ),
{
    lemma_occurrences_concat(line, bwlimit_part(limit), x);
    if let Some(l) = limit {
        lemma_occurrences_single(bwlimit_token(l), x);
    } else {
        lemma_occurrences_single(x, x);
    }
}

/// `plain_options` writes each token as often as `plain_count` says.
pub proof fn lemma_plain_count(r: RequestModel, x: Seq<char>)
    ensures
        occurrences(plain_options(r), x) == plain_count(r, x),
{
    let p0 = Seq::<Seq<char>>::empty();
    let p1 = p0 + switch(r.verbose, "-v"@);
    let p2 = p1 + switch(r.quiet, "-q"@);
    let p3 = p2 + switch(r.checksum, "-c"@);
    let p4 = p3 + switch(r.archive, "-a"@);
    let p5 = p4 + switch(r.recursive, "-r"@);
    let p6 = p5 + switch(r.delete, "--delete"@);
    let p7 = p6 + exclude_part(r.exclude);
    let p8 = p7 + switch(r.partial, "--partial"@);
    let p9 = p8 + switch(r.progress, "--progress"@);
    let p10 = p9 + bwlimit_part(r.bwlimit);
    let p11 = p10 + switch(r.ipv4, "-4"@);
    lemma_occurrences_single(x, x);
    lemma_count_switch(p0, r.verbose, "-v"@, x);
    lemma_count_switch(p1, r.quiet, "-q"@, x);
    lemma_count_switch(p2, r.checksum, "-c"@, x);
    lemma_count_switch(p3, r.archive, "-a"@, x);
    lemma_count_switch(p4, r.recursive, "-r"@, x);
    lemma_count_switch(p5, r.delete, "--delete"@, x);
    lemma_count_exclude(p6, r.exclude, x);
    lemma_count_switch(p7, r.partial, "--partial"@, x);
    lemma_count_switch(p8, r.progress, "--progress"@, x);
    lemma_count_bwlimit(p9, r.bwlimit, x);
    lemma_count_switch(p10, r.ipv4, "-4"@, x);
    lemma_count_switch(p11, r.ipv6, "-6"@, x);
}

/// A translation writes each token as often as `plain_count` says, and
/// through a secure shell `-e` and the remote-shell command once more each.
pub proof fn lemma_translation_count(
    r: RequestModel,
    mode: TransportMode,
    client: Seq<char>,
    identity: Seq<char>,
    x: Seq<char>,
)
    ensures
        occurrences(translation(r, mode, client, identity), x) == plain_count(r, x) + one_if(
            mode == TransportMode::SecureShell && x == "-e"@,
        ) + one_if(
            mode == TransportMode::SecureShell && x == ssh_command(client, identity, r.ssh_port),
        ),
{
    lemma_plain_count(r, x);
    if mode == TransportMode::SecureShell {
        let command = ssh_command(client, identity, r.ssh_port);
        let with_switch = plain_options(r) + seq!["-e"@];
        assert(translation(r, mode, client, identity) =~= with_switch + seq![command]);
        lemma_occurrences_concat(plain_options(r), seq!["-e"@], x);
        lemma_occurrences_concat(with_switch, seq![command], x);
        lemma_occurrences_single("-e"@, x);
        lemma_occurrences_single(command, x);
    }
}

/// A limit that the request gives has its token exactly once in the command
/// line, and so has a pattern.
pub proof fn lemma_given_values_once(
    r: RequestModel,
    mode: TransportMode,
    client: Seq<char>,
    identity: Seq<char>,
)
    ensures
        r.bwlimit matches Some(l) ==> occurrences(
            translation(r, mode, client, identity),
            bwlimit_token(l),
        ) == 1,
        r.exclude matches Some(p) ==> occurrences(
            translation(r, mode, client, identity),
            exclude_token(p),
        ) == 1,
{
    lemma_switch_shapes();
    let pattern = match r.exclude {
        Some(p) => p,
        None => Seq::empty(),
    };
    let limit = match r.bwlimit {
        Some(l) => l,
        None => 0,
    };
    lemma_token_shapes(client, identity, r.ssh_port, pattern, limit);
    if let Some(l) = r.bwlimit {
        lemma_translation_count(r, mode, client, identity, bwlimit_token(l));
    }
    if let Some(p) = r.exclude {
        lemma_translation_count(r, mode, client, identity, exclude_token(p));
    }
}

} // verus!
