use mmgit::admin::{
    add_key_status, create_repo_status, delete_key_status, delete_repo_status, remove_acl_status,
    update_acl_status, StoreOutcome,
};
use mmgit::authrec::record_fingerprint;
use mmgit::command::{GitCommand, Program};
use mmgit::errors::GatewayError;
use mmgit::models::{Acl, AclTable, AuthTable, SshAuth, UserId};
use mmgit::repo::{RepoManager, RepoTable};
use mmgit::session::{run_session, session_step, Lookup, SessionEvent, SessionState};
use mmgit::AclRole;

fn b(s: &str) -> Vec<u8> {
    s.as_bytes().to_vec()
}

const KEY_ONE: &str =
    "ssh-ed25519 AAAAC3NzaC1lZDI1NTE5AAAAIAAAAAAAAAAAAAAAAAAAAAAAAAAAAAAAAAAAAAAAAAAA";

fn auth_record() -> Vec<u8> {
    b(&format!("publickey {KEY_ONE}"))
}

fn fingerprint() -> Vec<u8> {
    record_fingerprint(&auth_record()).unwrap()
}

const USER: UserId = UserId(7);
const OTHER_USER: UserId = UserId(9);

fn repo_id() -> Vec<u8> {
    vec![10, 20, 30]
}

fn tables(role: Option<AclRole>) -> (RepoManager, AuthTable, RepoTable, AclTable) {
    let mgr = RepoManager::new(b("/home/git/repos"));
    let mut auth = AuthTable::new();
    assert!(auth.add_key(SshAuth { key_fingerprint: fingerprint(), user_id: USER }));
    let mut repos = RepoTable::new();
    assert!(repos.insert(b("test"), repo_id()));
    let mut acl = AclTable::new();
    if let Some(role) = role {
        acl.upsert(Acl { repo_id: repo_id(), user_id: USER, role });
    }
    (mgr, auth, repos, acl)
}

#[test]
fn permitted_write_session_launches() {
    let (mgr, auth, repos, acl) = tables(Some(AclRole::Write));
    let r = run_session(
        &mgr,
        b("git-receive-pack 'repos/test.git'"),
        Some(auth_record()),
        &auth,
        &repos,
        &acl,
    );
    match r {
        SessionState::Launch { program, dir } => {
            assert!(matches!(program, Program::ReceivePack));
            assert_eq!(dir, b("/home/git/repos/test.git"));
        },
        _ => panic!("expected a launch"),
    }
}

#[test]
fn read_role_reads_but_cannot_push() {
    let (mgr, auth, repos, acl) = tables(Some(AclRole::Read));
    let r = run_session(
        &mgr,
        b("git-upload-pack 'repos/test.git'"),
        Some(auth_record()),
        &auth,
        &repos,
        &acl,
    );
    assert!(matches!(r, SessionState::Launch { program: Program::UploadPack, .. }));
    let r = run_session(
        &mgr,
        b("git-receive-pack 'repos/test.git'"),
        Some(auth_record()),
        &auth,
        &repos,
        &acl,
    );
    assert!(matches!(r, SessionState::Abort { error: GatewayError::AccessDenied }));
}

#[test]
fn missing_grant_denies() {
    let (mgr, auth, repos, acl) = tables(None);
    let r = run_session(
        &mgr,
        b("git-receive-pack 'repos/test.git'"),
        Some(auth_record()),
        &auth,
        &repos,
        &acl,
    );
    assert!(matches!(r, SessionState::Abort { error: GatewayError::AccessDenied }));
}

#[test]
fn unknown_key_denied() {
    let (mgr, _, repos, acl) = tables(Some(AclRole::Write));
    let empty_auth = AuthTable::new();
    let r = run_session(
        &mgr,
        b("git-upload-pack 'repos/test.git'"),
        Some(auth_record()),
        &empty_auth,
        &repos,
        &acl,
    );
    assert!(matches!(r, SessionState::Abort { error: GatewayError::UnknownKey }));
}

#[test]
fn foreign_command_refused() {
    let (mgr, auth, repos, acl) = tables(Some(AclRole::Write));
    let r = run_session(&mgr, b("rm -rf /"), Some(auth_record()), &auth, &repos, &acl);
    assert!(matches!(r, SessionState::Abort { error: GatewayError::DisallowedCommand }));
}

#[test]
fn missing_auth_record_fails_closed() {
    let (mgr, auth, repos, acl) = tables(Some(AclRole::Write));
    let r = run_session(&mgr, b("git-upload-pack 'repos/test.git'"), None, &auth, &repos, &acl);
    assert!(matches!(r, SessionState::Abort { error: GatewayError::AuthUnavailable }));
}

#[test]
fn unknown_repo_denied() {
    let (mgr, auth, repos, acl) = tables(Some(AclRole::Write));
    let r = run_session(
        &mgr,
        b("git-upload-pack 'repos/other.git'"),
        Some(auth_record()),
        &auth,
        &repos,
        &acl,
    );
    assert!(matches!(r, SessionState::Abort { error: GatewayError::UnknownRepo }));
    let r = run_session(
        &mgr,
        b("git-upload-pack '../evil.git'"),
        Some(auth_record()),
        &auth,
        &repos,
        &acl,
    );
    assert!(matches!(r, SessionState::Abort { error: GatewayError::UnknownRepo }));
}

#[test]
fn backend_failure_fails_closed() {
    let mgr = RepoManager::new(b("/home/git/repos"));
    let cmd = GitCommand { program: Program::UploadPack, repo_arg: b("repos/test.git") };
    let s = SessionState::AwaitIdentity { cmd, fingerprint: fingerprint() };
    let next = session_step(&mgr, s, SessionEvent::Identity { outcome: Lookup::Unavailable });
    assert!(matches!(next, SessionState::Abort { error: GatewayError::BackendUnavailable }));
}

#[test]
fn acl_round_trip() {
    let mut acl = AclTable::new();
    let existed = acl.upsert(Acl { repo_id: vec![1, 2, 3], user_id: USER, role: AclRole::Write });
    assert!(!existed);
    assert!(matches!(acl.get(&vec![1, 2, 3], &USER), Some(AclRole::Write)));
    let existed = acl.upsert(Acl { repo_id: vec![1, 2, 3], user_id: USER, role: AclRole::Read });
    assert!(existed);
    assert!(matches!(acl.get(&vec![1, 2, 3], &USER), Some(AclRole::Read)));
    assert!(acl.remove(&vec![1, 2, 3], &USER));
    assert!(acl.get(&vec![1, 2, 3], &USER).is_none());
    assert!(!acl.remove(&vec![1, 2, 3], &USER));
}

#[test]
fn acl_rows_are_per_pair() {
    let mut acl = AclTable::new();
    acl.upsert(Acl { repo_id: vec![1], user_id: USER, role: AclRole::Write });
    acl.upsert(Acl { repo_id: vec![1], user_id: OTHER_USER, role: AclRole::Read });
    acl.upsert(Acl { repo_id: vec![2], user_id: USER, role: AclRole::Read });
    assert!(matches!(acl.get(&vec![1], &USER), Some(AclRole::Write)));
    assert!(matches!(acl.get(&vec![1], &OTHER_USER), Some(AclRole::Read)));
    assert!(matches!(acl.get(&vec![2], &USER), Some(AclRole::Read)));
    acl.remove(&vec![1], &USER);
    assert!(acl.get(&vec![1], &USER).is_none());
    assert!(matches!(acl.get(&vec![1], &OTHER_USER), Some(AclRole::Read)));
}

#[test]
fn fingerprints_unique_in_auth_table() {
    let mut auth = AuthTable::new();
    assert!(auth.add_key(SshAuth { key_fingerprint: vec![1, 2], user_id: USER }));
    assert!(!auth.add_key(SshAuth { key_fingerprint: vec![1, 2], user_id: OTHER_USER }));
    assert_eq!(auth.user_of(&vec![1, 2]), Some(USER));
    assert!(auth.remove_key(&vec![1, 2], &OTHER_USER) == false);
    assert!(auth.remove_key(&vec![1, 2], &USER));
    assert!(auth.user_of(&vec![1, 2]).is_none());
}

#[test]
fn removing_one_key_leaves_others() {
    let mut auth = AuthTable::new();
    assert!(auth.add_key(SshAuth { key_fingerprint: vec![1], user_id: USER }));
    assert!(auth.add_key(SshAuth { key_fingerprint: vec![2], user_id: OTHER_USER }));
    assert!(auth.remove_key(&vec![1], &USER));
    assert!(auth.user_of(&vec![1]).is_none());
    assert_eq!(auth.user_of(&vec![2]), Some(OTHER_USER));
    assert!(!auth.remove_key(&vec![3], &USER));
    assert_eq!(auth.user_of(&vec![2]), Some(OTHER_USER));
}

#[test]
fn admin_statuses() {
    assert_eq!(create_repo_status(StoreOutcome::Done), 201);
    assert_eq!(create_repo_status(StoreOutcome::Absent), 403);
    assert_eq!(create_repo_status(StoreOutcome::Failed), 500);
    assert_eq!(delete_repo_status(StoreOutcome::Done), 201);
    assert_eq!(delete_repo_status(StoreOutcome::Absent), 404);
    assert_eq!(update_acl_status(false, false), 201);
    assert_eq!(update_acl_status(true, false), 200);
    assert_eq!(update_acl_status(true, true), 500);
    assert_eq!(remove_acl_status(StoreOutcome::Done), 200);
    assert_eq!(remove_acl_status(StoreOutcome::Absent), 404);
    assert_eq!(add_key_status(StoreOutcome::Done), 201);
    assert_eq!(add_key_status(StoreOutcome::Absent), 403);
    assert_eq!(delete_key_status(StoreOutcome::Done), 200);
    assert_eq!(delete_key_status(StoreOutcome::Absent), 403);
}
