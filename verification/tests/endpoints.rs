use rsync_win::error::SetupError;
use rsync_win::normalize::{helper_arguments, path_win_to_unix, trim};
use rsync_win::options::SyncRequest;
use rsync_win::paths::{
    default_identity_file, identity_file, identity_for_mode, identity_under, path_cygpath,
    path_cygwin_dir, path_rsync, path_ssh,
};
use rsync_win::text::{chars_of, contains, contains_char, matches_at};
use rsync_win::transport::{classify, is_rsync_url, is_ssh_path, TransportMode};
use std::path::{Path, PathBuf};

fn text(path: PathBuf) -> String {
    path.to_str().unwrap().to_string()
}

fn request_with_identity(identity: Option<&str>) -> SyncRequest {
    SyncRequest {
        identity: identity.map(|s| s.to_string()),
        verbose: false,
        quiet: false,
        checksum: false,
        archive: false,
        recursive: false,
        delete: false,
        exclude: None,
        partial: false,
        progress: false,
        bwlimit: None,
        ipv4: false,
        ipv6: false,
        ssh_port: None,
        src: "C:/a".to_string(),
        dest: "me@host:/b".to_string(),
    }
}

#[test]
fn plain_paths_are_local() {
    assert_eq!(classify("C:/data", "D:/backup"), TransportMode::Local);
    assert_eq!(classify("", ""), TransportMode::Local);
    assert_eq!(classify("host:/path", "rsync:/x"), TransportMode::Local);
}

#[test]
fn a_user_on_one_side_means_secure_shell() {
    assert_eq!(classify("C:/data", "user@host:/backup"), TransportMode::SecureShell);
    assert_eq!(classify("user@host:/backup", "C:/data"), TransportMode::SecureShell);
    assert_eq!(classify("a@h:/x", "b@h:/y"), TransportMode::SecureShell);
}

#[test]
fn a_daemon_address_wins_over_a_user() {
    assert_eq!(classify("rsync://user@host/path", "C:/out"), TransportMode::NativeRemote);
    assert_eq!(classify("C:/out", "rsync://host:873/path"), TransportMode::NativeRemote);
    assert_eq!(classify("user@host:/x", "rsync://host/path"), TransportMode::NativeRemote);
    assert_eq!(classify("rsync://host/path", "user@host:/x"), TransportMode::NativeRemote);
}

#[test]
fn one_endpoint_taken_alone() {
    assert!(is_ssh_path("user@host:/path"));
    assert!(is_ssh_path("@"));
    assert!(!is_ssh_path("host:/path"));
    assert!(!is_ssh_path("rsync://user@host/path"));
    assert!(!is_ssh_path("user@rsync://"));
    assert!(!is_ssh_path(""));
    assert!(is_rsync_url("rsync://h"));
    assert!(is_rsync_url("xrsync://"));
    assert!(!is_rsync_url("rsync:/"));
    assert!(!is_rsync_url("RSYNC://h"));
}

#[test]
fn search_at_the_edges() {
    assert!(contains("abc", ""));
    assert!(contains("", ""));
    assert!(!contains("", "a"));
    assert!(!contains("ab", "abc"));
    assert!(contains("abc", "abc"));
    assert!(contains("xxabc", "abc"));
    assert!(contains("abcxx", "abc"));
    assert!(contains("aab", "ab"));
    assert!(!contains("abab", "aa"));
    assert!(contains("päth/ü@x", "ü@"));
    assert!(contains_char("päth@x", '@'));
    assert!(!contains_char("päth", '@'));
    assert_eq!(chars_of("aé"), vec!['a', 'é']);
    assert!(matches_at(&chars_of("hello"), &chars_of("llo"), 2));
    assert!(!matches_at(&chars_of("hello"), &chars_of("llo"), 1));
}

#[test]
fn executables_live_in_one_directory_beside_the_program() {
    let exe = text(Path::new("opt").join("tool").join("winrsync.exe"));
    let dir = text(Path::new("opt").join("tool").join("cygwin64"));
    assert_eq!(path_cygwin_dir(&exe), dir);
    assert_eq!(path_rsync(&exe), text(Path::new(&dir).join("rsync.exe")));
    assert_eq!(path_ssh(&exe), text(Path::new(&dir).join("ssh.exe")));
    assert_eq!(path_cygpath(&exe), text(Path::new(&dir).join("cygpath.exe")));
    assert_ne!(path_cygwin_dir(&exe), exe);
    assert_ne!(path_rsync(&exe), dir);
}

#[test]
fn default_key_file_under_a_home_directory() {
    let home = text(Path::new("home").join("me"));
    let expected = text(Path::new("home").join("me").join(".ssh/id_rsa"));
    assert_eq!(identity_under(Some(home.clone())), Ok(expected.clone()));
    assert_ne!(expected, home);
    assert!(expected.ends_with(".ssh/id_rsa"));
    assert_eq!(identity_under(None), Err(SetupError::HomeDirectoryUnknown));
}

#[test]
fn default_key_file_of_the_current_user() {
    let looked_up = home::home_dir().and_then(|p| p.to_str().map(|s| s.to_string()));
    assert_eq!(default_identity_file(), identity_under(looked_up));
}

#[test]
fn a_named_key_file_is_taken_as_it_is() {
    let r = request_with_identity(Some("C:/keys/id_ed25519"));
    assert_eq!(identity_file(&r), Ok("C:/keys/id_ed25519".to_string()));
    let none = request_with_identity(None);
    assert_eq!(identity_file(&none), default_identity_file());
}

#[test]
fn helper_output_is_decoded_and_trimmed() {
    assert_eq!(path_win_to_unix(b"/cygdrive/c/data\r\n".to_vec()), Ok("/cygdrive/c/data".to_string()));
    assert_eq!(path_win_to_unix(b"  /a b/c \t\n".to_vec()), Ok("/a b/c".to_string()));
    assert_eq!(path_win_to_unix(b"user@host:/backup\n".to_vec()), Ok("user@host:/backup".to_string()));
    assert_eq!(path_win_to_unix(Vec::new()), Ok(String::new()));
    assert_eq!(path_win_to_unix(b" \n ".to_vec()), Ok(String::new()));
    assert_eq!(path_win_to_unix("/données\n".as_bytes().to_vec()), Ok("/données".to_string()));
}

#[test]
fn helper_output_that_is_no_text_is_a_fault() {
    assert_eq!(path_win_to_unix(vec![0x2f, 0xff, 0x0a]), Err(SetupError::HelperOutputNotText));
    assert_eq!(path_win_to_unix(vec![0xc3]), Err(SetupError::HelperOutputNotText));
    assert_eq!(path_win_to_unix(vec![0xed, 0xa0, 0x80]), Err(SetupError::HelperOutputNotText));
}

#[test]
fn trim_agrees_with_the_standard_one() {
    for s in ["", " ", "a", " a", "a ", " a b ", "\u{2003}x\u{a0}", "\n\t x y \r\n", "é ", "\u{200b}a\u{200b}"] {
        assert_eq!(trim(s), s.trim());
    }
}

#[test]
fn helper_is_asked_for_the_unix_form() {
    assert_eq!(helper_arguments("C:/data"), vec!["-u".to_string(), "C:/data".to_string()]);
    assert_eq!(helper_arguments(""), vec!["-u".to_string(), String::new()]);
}

#[test]
fn faults_have_their_messages() {
    assert_eq!(SetupError::HomeDirectoryUnknown.message(), "get home dir failed");
    assert_eq!(
        SetupError::HelperOutputNotText.message(),
        "convert path failed: not a valid utf8 sequence"
    );
}

#[test]
fn only_a_secure_shell_reads_a_key_file() {
    let r = request_with_identity(Some("C:/keys/id"));
    assert_eq!(identity_for_mode(&r, TransportMode::Local), Ok(None));
    assert_eq!(identity_for_mode(&r, TransportMode::NativeRemote), Ok(None));
    assert_eq!(
        identity_for_mode(&r, TransportMode::SecureShell),
        Ok(Some("C:/keys/id".to_string()))
    );
    let none = request_with_identity(None);
    assert_eq!(identity_for_mode(&none, TransportMode::Local), Ok(None));
    assert_eq!(
        identity_for_mode(&none, TransportMode::SecureShell),
        default_identity_file().map(Some)
    );
}
