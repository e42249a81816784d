use mmgit::access::{authorize, operation_of, permits, Operation};
use mmgit::authrec::record_fingerprint;
use mmgit::bytes::{bytes_eq, split_bytes};
use mmgit::command::{gateway_line, parse_command, strip_quotes, Program};
use mmgit::errors::{client_message, exit_code, GatewayError};
use mmgit::repo::{repo_name_of_arg, RepoManager, RepoTable};
use mmgit::AclRole;

fn b(s: &str) -> Vec<u8> {
    s.as_bytes().to_vec()
}

const KEY_ONE: &str =
    "ssh-ed25519 AAAAC3NzaC1lZDI1NTE5AAAAIAAAAAAAAAAAAAAAAAAAAAAAAAAAAAAAAAAAAAAAAAAA";
const KEY_TWO: &str =
    "ssh-ed25519 AAAAC3NzaC1lZDI1NTE5AAAAIAAAAAAAAAAAAAAAAAAAAAAAAAAAAAAAAAAAAAAAAAAB";

#[test]
fn split_on_spaces() {
    let toks = split_bytes(b"git-upload-pack 'x.git'", 32);
    assert_eq!(toks.len(), 2);
    assert_eq!(toks[0], b("git-upload-pack"));
    assert_eq!(toks[1], b("'x.git'"));
}

#[test]
fn split_keeps_empty_tokens() {
    let toks = split_bytes(b"a  b", 32);
    assert_eq!(toks.len(), 3);
    assert_eq!(toks[1], b(""));
    let toks = split_bytes(b"", 32);
    assert_eq!(toks.len(), 1);
    assert_eq!(toks[0], b(""));
}

#[test]
fn bytes_eq_is_exact() {
    assert!(bytes_eq(b"abc", b"abc"));
    assert!(!bytes_eq(b"abc", b"abd"));
    assert!(!bytes_eq(b"abc", b"ab"));
}

#[test]
fn quotes_stripped_from_matching_pair() {
    assert_eq!(strip_quotes(&b("'repos/test.git'")), b("repos/test.git"));
    assert_eq!(strip_quotes(&b("\"repos/test.git\"")), b("repos/test.git"));
}

#[test]
fn quotes_kept_when_not_a_pair() {
    assert_eq!(strip_quotes(&b("'foo")), b("'foo"));
    assert_eq!(strip_quotes(&b("foo'")), b("foo'"));
    assert_eq!(strip_quotes(&b("\"foo'")), b("\"foo'"));
    assert_eq!(strip_quotes(&b("plain")), b("plain"));
    assert_eq!(strip_quotes(&b("'")), b("'"));
    assert_eq!(strip_quotes(&b("")), b(""));
}

#[test]
fn embedded_quotes_survive() {
    assert_eq!(strip_quotes(&b("'a'b'")), b("a'b"));
    assert_eq!(strip_quotes(&b("''")), b(""));
}

#[test]
fn receive_pack_parses() {
    let c = parse_command(&b("git-receive-pack 'repos/test.git'")).unwrap();
    assert!(matches!(c.program, Program::ReceivePack));
    assert_eq!(c.repo_arg, b("repos/test.git"));
}

#[test]
fn upload_pack_and_archive_parse() {
    let c = parse_command(&b("git-upload-pack \"repos/a.git\"")).unwrap();
    assert!(matches!(c.program, Program::UploadPack));
    let c = parse_command(&b("git-upload-archive repos/a.git")).unwrap();
    assert!(matches!(c.program, Program::UploadArchive));
    assert_eq!(c.repo_arg, b("repos/a.git"));
}

#[test]
fn foreign_program_refused() {
    assert_eq!(
        parse_command(&b("rm -rf /")).unwrap_err(),
        GatewayError::DisallowedCommand
    );
    assert_eq!(
        parse_command(&b("")).unwrap_err(),
        GatewayError::DisallowedCommand
    );
    assert_eq!(
        parse_command(&b("git-receive-packx 'a.git'")).unwrap_err(),
        GatewayError::DisallowedCommand
    );
}

#[test]
fn argument_count_enforced() {
    assert_eq!(
        parse_command(&b("git-upload-pack")).unwrap_err(),
        GatewayError::MalformedCommand
    );
    assert_eq!(
        parse_command(&b("git-upload-pack a.git b.git")).unwrap_err(),
        GatewayError::MalformedCommand
    );
}

#[test]
fn gateway_invocation_shape() {
    let ok = gateway_line(&vec![b("-c"), b("git-upload-pack x.git")]);
    assert_eq!(ok.unwrap(), b("git-upload-pack x.git"));
    assert!(gateway_line(&vec![b("-d"), b("x")]).is_none());
    assert!(gateway_line(&vec![b("-c")]).is_none());
    assert!(gateway_line(&vec![b("-c"), b("x"), b("y")]).is_none());
}

#[test]
fn fingerprint_of_publickey_entry() {
    let rec = b(&format!("publickey {KEY_ONE}"));
    let fp = record_fingerprint(&rec).unwrap();
    assert_eq!(fp.len(), 32);
    assert_ne!(fp, rec);
}

#[test]
fn fingerprint_idempotent() {
    let rec = b(&format!("password hunter\npublickey {KEY_ONE}\nother x"));
    let f1 = record_fingerprint(&rec).unwrap();
    let f2 = record_fingerprint(&rec).unwrap();
    assert_eq!(f1, f2);
}

#[test]
fn different_keys_different_fingerprints() {
    let f1 = record_fingerprint(&b(&format!("publickey {KEY_ONE}"))).unwrap();
    let f2 = record_fingerprint(&b(&format!("publickey {KEY_TWO}"))).unwrap();
    assert_ne!(f1, f2);
}

#[test]
fn missing_or_bad_key_is_auth_unavailable() {
    assert_eq!(
        record_fingerprint(&b("password hunter\nother x")).unwrap_err(),
        GatewayError::AuthUnavailable
    );
    assert_eq!(
        record_fingerprint(&b("")).unwrap_err(),
        GatewayError::AuthUnavailable
    );
    assert_eq!(
        record_fingerprint(&b("publickey not-a-key")).unwrap_err(),
        GatewayError::AuthUnavailable
    );
}

#[test]
fn repo_paths_validated() {
    assert_eq!(repo_name_of_arg(&b("repos/test.git")).unwrap(), b("test"));
    assert_eq!(repo_name_of_arg(&b("x.git")).unwrap(), b("x"));
    assert!(repo_name_of_arg(&b("../x.git")).is_none());
    assert!(repo_name_of_arg(&b("repos/../x.git")).is_none());
    assert!(repo_name_of_arg(&b("/abs/x.git")).is_none());
    assert!(repo_name_of_arg(&b("repos/test")).is_none());
    assert!(repo_name_of_arg(&b("")).is_none());
    let mut with_nul = b("repos/test.git");
    with_nul.push(0);
    assert!(repo_name_of_arg(&with_nul).is_none());
}

#[test]
fn repo_dir_is_joined() {
    let mgr = RepoManager::new(b("/home/git/repos"));
    assert_eq!(mgr.repo_dir(&b("test")), b("/home/git/repos/test.git"));
}

#[test]
fn repo_table_binds_names_once() {
    let mut t = RepoTable::new();
    assert!(t.insert(b("test"), vec![10, 20, 30]));
    assert!(!t.insert(b("test"), vec![1, 2, 3]));
    assert_eq!(t.lookup(&b("test")).unwrap(), vec![10, 20, 30]);
    assert!(t.lookup(&b("other")).is_none());
}

#[test]
fn operations_classified() {
    assert!(matches!(operation_of(&Program::ReceivePack), Operation::Write));
    assert!(matches!(operation_of(&Program::UploadPack), Operation::Read));
    assert!(matches!(operation_of(&Program::UploadArchive), Operation::Read));
}

#[test]
fn roles_permit_operations() {
    assert!(permits(&AclRole::Write, &Operation::Write));
    assert!(permits(&AclRole::Write, &Operation::Read));
    assert!(permits(&AclRole::Read, &Operation::Read));
    assert!(!permits(&AclRole::Read, &Operation::Write));
    assert!(authorize(Some(AclRole::Read), Operation::Read).is_ok());
    assert_eq!(
        authorize(Some(AclRole::Read), Operation::Write).unwrap_err(),
        GatewayError::AccessDenied
    );
    assert_eq!(
        authorize(None, Operation::Read).unwrap_err(),
        GatewayError::AccessDenied
    );
}

#[test]
fn exit_codes_match_taxonomy() {
    assert_eq!(exit_code(&GatewayError::MalformedCommand), 3);
    assert_eq!(exit_code(&GatewayError::DisallowedCommand), 3);
    assert_eq!(exit_code(&GatewayError::AuthUnavailable), 4);
    assert_eq!(exit_code(&GatewayError::UnknownKey), 4);
    assert_eq!(exit_code(&GatewayError::UnknownRepo), 4);
    assert_eq!(exit_code(&GatewayError::AccessDenied), 5);
    assert_eq!(exit_code(&GatewayError::BackendUnavailable), 6);
    assert_eq!(exit_code(&GatewayError::ExecFailed), 7);
}

#[test]
fn denials_read_alike() {
    let a = client_message(&GatewayError::UnknownKey);
    let c = client_message(&GatewayError::AccessDenied);
    let r = client_message(&GatewayError::UnknownRepo);
    assert_eq!(a, "access denied");
    assert_eq!(a, c);
    assert_eq!(c, r);
    assert_ne!(client_message(&GatewayError::MalformedCommand), a);
}
