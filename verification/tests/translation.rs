use rsync_win::decimal::{digit_text, render_decimal};
use rsync_win::options::{
    assemble, prepare_rsync_options, prepare_rsync_options_with_ssh, prepare_ssh_args, translate,
    SyncRequest,
};
use rsync_win::transport::{classify, TransportMode};

fn request(src: &str, dest: &str) -> SyncRequest {
    SyncRequest {
        identity: None,
        verbose: false,
        quiet: false,
        checksum: false,
        archive: false,
        recursive: false,
        delete: false,
        exclude: None,
        partial: false,
        progress: false,
        bwlimit: None,
        ipv4: false,
        ipv6: false,
        ssh_port: None,
        src: src.to_string(),
        dest: dest.to_string(),
    }
}

fn count(line: &[String], token: &str) -> usize {
    line.iter().filter(|t| t.as_str() == token).count()
}

#[test]
fn decimal_of_small_and_large_numbers() {
    assert_eq!(render_decimal(0), "0");
    assert_eq!(render_decimal(9), "9");
    assert_eq!(render_decimal(10), "10");
    assert_eq!(render_decimal(22), "22");
    assert_eq!(render_decimal(5000), "5000");
    assert_eq!(render_decimal(65535), "65535");
    assert_eq!(render_decimal(1234567890), "1234567890");
    assert_eq!(render_decimal(u64::MAX), "18446744073709551615");
}

#[test]
fn decimal_agrees_with_the_standard_rendering() {
    let mut n: u64 = 1;
    for _ in 0..64 {
        assert_eq!(render_decimal(n), format!("{}", n));
        assert_eq!(render_decimal(n - 1), format!("{}", n - 1));
        n = n.wrapping_mul(2);
    }
}

#[test]
fn every_digit_has_its_text() {
    let all = ["0", "1", "2", "3", "4", "5", "6", "7", "8", "9"];
    for d in 0..10u64 {
        assert_eq!(digit_text(d), all[d as usize]);
    }
}

#[test]
fn no_flags_give_no_options() {
    let r = request("C:/a", "C:/b");
    assert!(prepare_rsync_options(&r).is_empty());
    assert!(r.is_well_formed());
}

#[test]
fn all_flags_come_in_the_fixed_order() {
    let mut r = request("C:/a", "C:/b");
    r.verbose = true;
    r.quiet = true;
    r.checksum = true;
    r.archive = true;
    r.recursive = true;
    r.delete = true;
    r.exclude = Some("*.o".to_string());
    r.partial = true;
    r.progress = true;
    r.bwlimit = Some(1);
    r.ipv4 = true;
    r.ipv6 = true;
    let expected: Vec<String> = [
        "-v",
        "-q",
        "-c",
        "-a",
        "-r",
        "--delete",
        "--exclude='*.o'",
        "--partial",
        "--progress",
        "--bwlimit=1",
        "-4",
        "-6",
    ]
    .iter()
    .map(|t| t.to_string())
    .collect();
    assert_eq!(prepare_rsync_options(&r), expected);
}

#[test]
fn each_flag_alone_gives_its_token_alone() {
    let tokens = [
        "-v",
        "-q",
        "-c",
        "-a",
        "-r",
        "--delete",
        "--partial",
        "--progress",
        "-4",
        "-6",
    ];
    for (i, token) in tokens.iter().enumerate() {
        let mut r = request("a", "b");
        match i {
            0 => r.verbose = true,
            1 => r.quiet = true,
            2 => r.checksum = true,
            3 => r.archive = true,
            4 => r.recursive = true,
            5 => r.delete = true,
            6 => r.partial = true,
            7 => r.progress = true,
            8 => r.ipv4 = true,
            _ => r.ipv6 = true,
        }
        assert_eq!(prepare_rsync_options(&r), vec![token.to_string()]);
    }
}

#[test]
fn omitted_flags_leave_no_token() {
    let mut r = request("C:/a", "user@host:/b");
    r.archive = true;
    r.bwlimit = Some(7);
    let line = translate(&r, TransportMode::SecureShell, "ssh.exe", "/key");
    for token in ["-v", "-q", "-c", "-r", "--delete", "--partial", "--progress", "-4", "-6"] {
        assert_eq!(count(&line, token), 0);
    }
    assert!(!line.iter().any(|t| t.starts_with("--exclude")));
    assert_eq!(count(&line, "-a"), 1);
    let plain = translate(&r, TransportMode::Local, "ssh.exe", "/key");
    assert_eq!(count(&plain, "-e"), 0);
    r.bwlimit = None;
    let unlimited = translate(&r, TransportMode::SecureShell, "ssh.exe", "/key");
    assert!(!unlimited.iter().any(|t| t.starts_with("--bwlimit")));
}

#[test]
fn bandwidth_limit_gives_exactly_one_token() {
    let mut r = request("C:/a", "C:/b");
    r.bwlimit = Some(5000);
    r.verbose = true;
    let line = prepare_rsync_options(&r);
    assert_eq!(count(&line, "--bwlimit=5000"), 1);
    assert_eq!(line, vec!["-v".to_string(), "--bwlimit=5000".to_string()]);
    let through_ssh = translate(&r, TransportMode::SecureShell, "ssh", "/k");
    assert_eq!(count(&through_ssh, "--bwlimit=5000"), 1);
}

#[test]
fn exclude_pattern_keeps_its_quotes() {
    let mut r = request("C:/a", "C:/b");
    r.exclude = Some("*.tmp".to_string());
    let line = prepare_rsync_options(&r);
    assert_eq!(line, vec!["--exclude='*.tmp'".to_string()]);
    r.exclude = Some(String::new());
    assert_eq!(prepare_rsync_options(&r), vec!["--exclude=''".to_string()]);
}

#[test]
fn remote_shell_command_with_default_port() {
    let command = prepare_ssh_args("C:\\tool\\cygwin64\\ssh.exe", "/home/me/.ssh/id_rsa", None);
    assert_eq!(
        command,
        "\"C:\\tool\\cygwin64\\ssh.exe\" -o \"StrictHostKeyChecking=no\" -o \"IdentitiesOnly=yes\" -i \"/home/me/.ssh/id_rsa\" -p 22"
    );
}

#[test]
fn remote_shell_command_with_given_port() {
    let command = prepare_ssh_args("ssh", "/k", Some(2222));
    assert_eq!(
        command,
        "\"ssh\" -o \"StrictHostKeyChecking=no\" -o \"IdentitiesOnly=yes\" -i \"/k\" -p 2222"
    );
    assert!(prepare_ssh_args("ssh", "/k", Some(65535)).ends_with(" -p 65535"));
    assert!(prepare_ssh_args("ssh", "/k", Some(1)).ends_with(" -p 1"));
}

#[test]
fn secure_shell_options_end_with_the_remote_shell() {
    let mut r = request("C:/data", "user@host:/backup");
    r.ssh_port = Some(2200);
    r.recursive = true;
    let line = prepare_rsync_options_with_ssh(&r, "ssh.exe", "/cygdrive/c/key");
    assert_eq!(line.len(), 3);
    assert_eq!(line[0], "-r");
    assert_eq!(line[1], "-e");
    assert_eq!(line[2], prepare_ssh_args("ssh.exe", "/cygdrive/c/key", Some(2200)));
    assert!(line[2].contains("-i \"/cygdrive/c/key\""));
    assert!(line[2].ends_with("-p 2200"));
}

#[test]
fn translate_follows_the_mode() {
    let mut r = request("C:/a", "C:/b");
    r.checksum = true;
    assert_eq!(translate(&r, TransportMode::Local, "ssh", "/k"), prepare_rsync_options(&r));
    assert_eq!(translate(&r, TransportMode::NativeRemote, "ssh", "/k"), prepare_rsync_options(&r));
    assert_eq!(
        translate(&r, TransportMode::SecureShell, "ssh", "/k"),
        prepare_rsync_options_with_ssh(&r, "ssh", "/k")
    );
}

#[test]
fn translate_twice_gives_the_same_line() {
    let mut r = request("C:/a", "me@host:/b");
    r.archive = true;
    r.exclude = Some("*.bak".to_string());
    r.bwlimit = Some(300);
    let first = translate(&r, TransportMode::SecureShell, "ssh", "/k");
    let second = translate(&r.clone(), TransportMode::SecureShell, "ssh", "/k");
    assert_eq!(first, second);
}

#[test]
fn backup_through_secure_shell_from_end_to_end() {
    let mut r = request("C:/data", "user@host:/backup");
    r.archive = true;
    r.recursive = true;
    r.delete = true;
    let mode = classify(&r.src, &r.dest);
    assert_eq!(mode, TransportMode::SecureShell);
    let line = assemble(
        &r,
        mode,
        "C:/tool/cygwin64/ssh.exe",
        "/cygdrive/c/Users/me/.ssh/id_rsa",
        "/cygdrive/c/data",
        "user@host:/backup",
    );
    let expected: Vec<String> = [
        "-a",
        "-r",
        "--delete",
        "-e",
        "\"C:/tool/cygwin64/ssh.exe\" -o \"StrictHostKeyChecking=no\" -o \"IdentitiesOnly=yes\" -i \"/cygdrive/c/Users/me/.ssh/id_rsa\" -p 22",
        "/cygdrive/c/data",
        "user@host:/backup",
    ]
    .iter()
    .map(|t| t.to_string())
    .collect();
    assert_eq!(line, expected);
}

#[test]
fn daemon_address_from_end_to_end() {
    let r = request("rsync://host/path", "C:/out");
    let mode = classify(&r.src, &r.dest);
    assert_eq!(mode, TransportMode::NativeRemote);
    let options = translate(&r, mode, "ssh.exe", "/key");
    assert_eq!(count(&options, "-e"), 0);
    assert!(options.is_empty());
    let line = assemble(&r, mode, "ssh.exe", "/key", "rsync://host/path", "/cygdrive/c/out");
    assert_eq!(line, vec!["rsync://host/path".to_string(), "/cygdrive/c/out".to_string()]);
}

#[test]
fn numbers_out_of_their_limits_are_told() {
    let mut r = request("a", "b");
    r.bwlimit = Some(0);
    assert!(!r.is_well_formed());
    r.bwlimit = Some(1);
    r.ssh_port = Some(0);
    assert!(!r.is_well_formed());
    r.ssh_port = Some(1);
    assert!(r.is_well_formed());
    r.ssh_port = Some(65535);
    r.bwlimit = Some(u64::MAX);
    assert!(r.is_well_formed());
}
