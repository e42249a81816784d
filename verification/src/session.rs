//! The gateway session as a state machine. One SSH invocation walks
//! `AwaitCommand → AwaitAuthRecord → AwaitIdentity → AwaitRepoId →
//! AwaitAcl → Launch`, aborting at the first failure. The caller feeds
//! in what only it can fetch — the forced command, the auth record, the
//! two database answers — and performs the `Launch` or the `Abort` the
//! machine ends in; every decision between stands here, verified.

use vstd::prelude::*;

use crate::access::{operation_of, permits, spec_op_of, spec_permits};
use crate::authrec::{record_fingerprint, spec_record_fingerprint};
use crate::bytes::spec_split;
use crate::command::{
    parse_command, spec_parse_command, spec_program_of, GitCommand, Program, SPACE,
};
use crate::errors::{spec_exit_code, GatewayError};
use crate::models::{auth_has_fp, spec_role_of, spec_user_of, AclTable, AuthTable, UserId};
use crate::repo::{repo_name_of_arg, spec_repo_dir, spec_repo_id_of, spec_repo_name,
    spec_valid_repo_arg, RepoManager, RepoTable};
use crate::AclRole;

verus! {

/// The answer to a single indexed lookup: a row, no row, or no backend.
pub enum Lookup<T> {
    Found(T),
    Missing,
    Unavailable,
}

/// Where a session stands, and what it is waiting for.
pub enum SessionState {
    /// Waiting for the forced-command string.
    AwaitCommand,
    /// Waiting for the contents of the session auth record.
    AwaitAuthRecord { cmd: GitCommand },
    /// Waiting for the auth-table lookup of the fingerprint.
    AwaitIdentity { cmd: GitCommand, fingerprint: Vec<u8> },
    /// Waiting for the repository table's row for `name`.
    AwaitRepoId { cmd: GitCommand, user: UserId, name: Vec<u8> },
    /// Waiting for the access-control row of `(repo_id, user)`.
    AwaitAcl { cmd: GitCommand, user: UserId, repo_id: Vec<u8>, dir: Vec<u8> },
    /// Permitted: replace the process image with `program`, handing it
    /// the repository directory as its one argument.
    Launch { program: Program, dir: Vec<u8> },
    /// Failed: exit without running anything.
    Abort { error: GatewayError },
}

/// What the caller feeds the machine.
pub enum SessionEvent {
    /// The forced-command string SSH handed the shell.
    CommandLine { line: Vec<u8> },
    /// The auth record's bytes, or nothing where it cannot be read.
    AuthRecord { record: Option<Vec<u8>> },
    /// The auth table's answer for the fingerprint.
    Identity { outcome: Lookup<UserId> },
    /// The repository table's answer for the name.
    RepoId { outcome: Lookup<Vec<u8>> },
    /// The access-control table's answer for `(repo_id, user)`.
    Grant { outcome: Lookup<AclRole> },
}

/// The transition relation of the session machine. A state fed the
/// event it waits for moves as the resolvers say; fed anything else it
/// stands still.
pub open spec fn step_rel(
    root: Seq<u8>,
    state: SessionState,
    event: SessionEvent,
    next: SessionState,
) -> bool {
    match (state, event) {
        (SessionState::AwaitCommand, SessionEvent::CommandLine { line }) => match
        spec_parse_command(line@) {
            Ok(pr) => next matches SessionState::AwaitAuthRecord { cmd } && cmd.program == pr.0
                && cmd.repo_arg@ == pr.1,
            Err(e) => next == (SessionState::Abort { error: e }),
        },
        (SessionState::AwaitAuthRecord { cmd }, SessionEvent::AuthRecord { record }) => match record {
            None => next == (SessionState::Abort { error: GatewayError::AuthUnavailable }),
            Some(rec) => match spec_record_fingerprint(rec@) {
                Err(e) => next == (SessionState::Abort { error: e }),
                Ok(f) => next matches SessionState::AwaitIdentity { cmd: c, fingerprint }
                    && c.program == cmd.program && c.repo_arg@ == cmd.repo_arg@ && fingerprint@
                    == f,
            },
        },
        (SessionState::AwaitIdentity { cmd, fingerprint }, SessionEvent::Identity { outcome }) => match outcome {
            Lookup::Unavailable => next == (SessionState::Abort {
                error: GatewayError::BackendUnavailable,
            }),
            Lookup::Missing => next == (SessionState::Abort { error: GatewayError::UnknownKey }),
            Lookup::Found(u) => if !spec_valid_repo_arg(cmd.repo_arg@) {
                next == (SessionState::Abort { error: GatewayError::UnknownRepo })
            } else {
                next matches SessionState::AwaitRepoId { cmd: c, user, name } && c.program
                    == cmd.program && c.repo_arg@ == cmd.repo_arg@ && user == u && name@
                    == spec_repo_name(cmd.repo_arg@)
            },
        },
        (SessionState::AwaitRepoId { cmd, user, name }, SessionEvent::RepoId { outcome }) => match outcome {
            Lookup::Unavailable => next == (SessionState::Abort {
                error: GatewayError::BackendUnavailable,
            }),
            Lookup::Missing => next == (SessionState::Abort { error: GatewayError::UnknownRepo }),
            Lookup::Found(id) => next matches SessionState::AwaitAcl {
                cmd: c,
                user: u,
                repo_id,
                dir,
            } && c.program == cmd.program && c.repo_arg@ == cmd.repo_arg@ && u == user && repo_id@
                == id@ && dir@ == spec_repo_dir(root, name@),
        },
        (SessionState::AwaitAcl { cmd, user, repo_id, dir }, SessionEvent::Grant { outcome }) => match outcome {
            Lookup::Unavailable => next == (SessionState::Abort {
                error: GatewayError::BackendUnavailable,
            }),
            Lookup::Missing => next == (SessionState::Abort { error: GatewayError::AccessDenied }),
            Lookup::Found(role) => if spec_permits(role, spec_op_of(cmd.program)) {
                next matches SessionState::Launch { program, dir: d } && program == cmd.program
                    && d@ == dir@
            } else {
                next == (SessionState::Abort { error: GatewayError::AccessDenied })
            },
        },
        (s, _) => next == s,
    }
}

/// Drives the session one step: the verified decisions between the
/// caller's fetches.
pub fn session_step(mgr: &RepoManager, state: SessionState, event: SessionEvent) -> (next:
    SessionState)
    ensures
        step_rel(mgr.repos_root@, state, event, next),
{
    match (state, event) {
        (SessionState::AwaitCommand, SessionEvent::CommandLine { line }) => match parse_command(
            &line,
        ) {
            Ok(cmd) => SessionState::AwaitAuthRecord { cmd },
            Err(e) => SessionState::Abort { error: e },
        },
        (SessionState::AwaitAuthRecord { cmd }, SessionEvent::AuthRecord { record }) => match record {
            None => SessionState::Abort { error: GatewayError::AuthUnavailable },
            Some(rec) => match record_fingerprint(&rec) {
                Err(e) => SessionState::Abort { error: e },
                Ok(fingerprint) => SessionState::AwaitIdentity { cmd, fingerprint },
            },
        },
        (SessionState::AwaitIdentity { cmd, fingerprint: _ }, SessionEvent::Identity {
            outcome,
        }) => match outcome {
            Lookup::Unavailable => SessionState::Abort {
                error: GatewayError::BackendUnavailable,
            },
            Lookup::Missing => SessionState::Abort { error: GatewayError::UnknownKey },
            Lookup::Found(user) => match repo_name_of_arg(&cmd.repo_arg) {
                None => SessionState::Abort { error: GatewayError::UnknownRepo },
                Some(name) => SessionState::AwaitRepoId { cmd, user, name },
            },
        },
        (SessionState::AwaitRepoId { cmd, user, name }, SessionEvent::RepoId { outcome }) => match outcome {
            Lookup::Unavailable => SessionState::Abort {
                error: GatewayError::BackendUnavailable,
            },
            Lookup::Missing => SessionState::Abort { error: GatewayError::UnknownRepo },
            Lookup::Found(repo_id) => {
                let dir = mgr.repo_dir(&name);
                SessionState::AwaitAcl { cmd, user, repo_id, dir }
            },
        },
        (SessionState::AwaitAcl { cmd, user: _, repo_id: _, dir }, SessionEvent::Grant {
            outcome,
        }) => match outcome {
            Lookup::Unavailable => SessionState::Abort {
                error: GatewayError::BackendUnavailable,
            },
            Lookup::Missing => SessionState::Abort { error: GatewayError::AccessDenied },
            Lookup::Found(role) => {
                let op = operation_of(&cmd.program);
                if permits(&role, &op) {
                    SessionState::Launch { program: cmd.program, dir }
                } else {
                    SessionState::Abort { error: GatewayError::AccessDenied }
                }
            },
        },
        (s, _) => s,
    }
}

/// A forced command whose first token is no allow-listed helper aborts
/// the session with a non-zero exit code; nothing is launched.
pub proof fn lemma_foreign_command_aborts(root: Seq<u8>, line: Vec<u8>, next: SessionState)
    requires
        spec_program_of(spec_split(line@, SPACE)[0]) is None,
        step_rel(root, SessionState::AwaitCommand, SessionEvent::CommandLine { line }, next),
    ensures
        next == (SessionState::Abort { error: GatewayError::DisallowedCommand }),
        spec_exit_code(GatewayError::DisallowedCommand) != 0,
{
}

/// A session whose fingerprint matches no auth row aborts with a
/// non-zero exit code; nothing is launched.
pub proof fn lemma_unknown_key_aborts(
    root: Seq<u8>,
    cmd: GitCommand,
    fingerprint: Vec<u8>,
    next: SessionState,
)
    requires
        step_rel(
            root,
            SessionState::AwaitIdentity { cmd, fingerprint },
            SessionEvent::Identity { outcome: Lookup::Missing },
            next,
        ),
    ensures
        next == (SessionState::Abort { error: GatewayError::UnknownKey }),
        spec_exit_code(GatewayError::UnknownKey) != 0,
{
}

/// Nothing but a grant whose role satisfies the requested operation
/// reaches `Launch`; and what launches is the allow-listed helper the
/// command named, handed the resolved repository directory.
pub proof fn lemma_launch_needs_permit(
    root: Seq<u8>,
    state: SessionState,
    event: SessionEvent,
    next: SessionState,
)
    requires
        step_rel(root, state, event, next),
        !(state matches SessionState::Launch { .. }),
        next matches SessionState::Launch { .. },
    ensures
        ({
            &&& state matches SessionState::AwaitAcl { cmd, user, repo_id, dir }
            &&& event matches SessionEvent::Grant { outcome: Lookup::Found(role) }
            &&& spec_permits(role, spec_op_of(cmd.program))
            &&& next matches SessionState::Launch { program, dir: d }
            &&& program == cmd.program
            &&& d@ == dir@
        }),
{
}

/// An aborted session always exits non-zero.
pub proof fn lemma_abort_exits_nonzero(e: GatewayError)
    ensures
        spec_exit_code(e) != 0,
{
}

/// Runs a whole session against in-memory tables: the same machine the
/// live gateway drives against its store, here with every fetch
/// resolved from the given tables. Ends in `Launch` or `Abort`; and it
/// ends in `Launch` only for a parseable allow-listed command, a
/// fingerprint drawn from the auth record, an auth row binding it to a
/// user, a repository row for the named repository, and a grant whose
/// role satisfies the requested operation.
pub fn run_session(
    mgr: &RepoManager,
    line: Vec<u8>,
    record: Option<Vec<u8>>,
    auth: &AuthTable,
    repos: &RepoTable,
    acl: &AclTable,
) -> (r: SessionState)
    ensures
        (r matches SessionState::Launch { .. }) || (r matches SessionState::Abort { .. }),
        spec_parse_command(line@) matches Err(e) ==> r == (SessionState::Abort { error: e }),
        spec_parse_command(line@) is Ok && record is None ==> r == (SessionState::Abort {
            error: GatewayError::AuthUnavailable,
        }),
        spec_parse_command(line@) is Ok ==> (record matches Some(rec) ==> (spec_record_fingerprint(
            rec@,
        ) matches Err(e) ==> r == (SessionState::Abort { error: e }))),
        spec_parse_command(line@) is Ok ==> (record matches Some(rec) ==> (spec_record_fingerprint(
            rec@,
        ) matches Ok(f) ==> !auth_has_fp(auth.entries@, f) ==> r == (SessionState::Abort {
            error: GatewayError::UnknownKey,
        }))),
        spec_parse_command(line@) matches Ok(pr) ==> (record matches Some(rec) ==> (
        spec_record_fingerprint(rec@) matches Ok(f) ==> (spec_user_of(
            auth.entries@,
            f,
        ) matches Some(u) ==> ((!spec_valid_repo_arg(pr.1) || spec_repo_id_of(
            repos.entries@,
            spec_repo_name(pr.1),
        ) is None) ==> r == (SessionState::Abort { error: GatewayError::UnknownRepo }))))),
        spec_parse_command(line@) matches Ok(pr) ==> (record matches Some(rec) ==> (
        spec_record_fingerprint(rec@) matches Ok(f) ==> (spec_user_of(
            auth.entries@,
            f,
        ) matches Some(u) ==> (spec_valid_repo_arg(pr.1) ==> (spec_repo_id_of(
            repos.entries@,
            spec_repo_name(pr.1),
        ) matches Some(id) ==> (spec_role_of(acl.entries@, id, u) is None ==> r == (
        SessionState::Abort { error: GatewayError::AccessDenied }))))))),
        spec_parse_command(line@) matches Ok(pr) ==> (record matches Some(rec) ==> (
        spec_record_fingerprint(rec@) matches Ok(f) ==> (spec_user_of(
            auth.entries@,
            f,
        ) matches Some(u) ==> (spec_valid_repo_arg(pr.1) ==> (spec_repo_id_of(
            repos.entries@,
            spec_repo_name(pr.1),
        ) matches Some(id) ==> (spec_role_of(acl.entries@, id, u) matches Some(role) ==> (
        !spec_permits(role, spec_op_of(pr.0)) ==> r == (SessionState::Abort {
            error: GatewayError::AccessDenied,
        })))))))),
        spec_parse_command(line@) matches Ok(pr) ==> (record matches Some(rec) ==> (
        spec_record_fingerprint(rec@) matches Ok(f) ==> (spec_user_of(
            auth.entries@,
            f,
        ) matches Some(u) ==> (spec_valid_repo_arg(pr.1) ==> (spec_repo_id_of(
            repos.entries@,
            spec_repo_name(pr.1),
        ) matches Some(id) ==> (spec_role_of(acl.entries@, id, u) matches Some(role) ==> (
        spec_permits(role, spec_op_of(pr.0)) ==> (r matches SessionState::Launch { program, dir }
            && program == pr.0 && dir@ == spec_repo_dir(
            mgr.repos_root@,
            spec_repo_name(pr.1),
        ))))))))),
        r matches SessionState::Launch { program, dir } ==> ({
            &&& spec_parse_command(line@) matches Ok(pr)
            &&& program == pr.0
            &&& spec_valid_repo_arg(pr.1)
            &&& dir@ == spec_repo_dir(mgr.repos_root@, spec_repo_name(pr.1))
            &&& record matches Some(rec)
            &&& spec_record_fingerprint(rec@) matches Ok(f)
            &&& spec_repo_id_of(repos.entries@, spec_repo_name(pr.1)) matches Some(id)
            &&& spec_user_of(auth.entries@, f) matches Some(u)
            &&& spec_role_of(acl.entries@, id, u) matches Some(role)
            &&& spec_permits(role, spec_op_of(program))
        }),
{
    let ghost gline = line@;
    let s1 = session_step(mgr, SessionState::AwaitCommand, SessionEvent::CommandLine { line });
    match s1 {
        SessionState::Abort { error } => SessionState::Abort { error },
        SessionState::AwaitAuthRecord { cmd } => {
            let s2 = session_step(
                mgr,
                SessionState::AwaitAuthRecord { cmd },
                SessionEvent::AuthRecord { record },
            );
            match s2 {
                SessionState::Abort { error } => SessionState::Abort { error },
                SessionState::AwaitIdentity { cmd, fingerprint } => {
                    let found = auth.user_of(&fingerprint);
                    let ghost f = fingerprint@;
                    let outcome = match found {
                        Some(u) => Lookup::Found(u),
                        None => Lookup::Missing,
                    };
                    let s3 = session_step(
                        mgr,
                        SessionState::AwaitIdentity { cmd, fingerprint },
                        SessionEvent::Identity { outcome },
                    );
                    match s3 {
                        SessionState::Abort { error } => SessionState::Abort { error },
                        SessionState::AwaitRepoId { cmd, user, name } => {
                            let looked = repos.lookup(&name);
                            let outcome = match looked {
                                Some(id) => Lookup::Found(id),
                                None => Lookup::Missing,
                            };
                            let s4 = session_step(
                                mgr,
                                SessionState::AwaitRepoId { cmd, user, name },
                                SessionEvent::RepoId { outcome },
                            );
                            match s4 {
                                SessionState::Abort { error } => SessionState::Abort { error },
                                SessionState::AwaitAcl { cmd, user, repo_id, dir } => {
                                    let granted = acl.get(&repo_id, &user);
                                    let ghost rid = repo_id@;
                                    let ghost u = user;
                                    let outcome = match granted {
                                        Some(role) => Lookup::Found(role),
                                        None => Lookup::Missing,
                                    };
                                    let s5 = session_step(
                                        mgr,
                                        SessionState::AwaitAcl { cmd, user, repo_id, dir },
                                        SessionEvent::Grant { outcome },
                                    );
                                    proof {
                                        match &s5 {
                                            SessionState::Launch { .. } => {
                                                let role = granted.unwrap();
                                                let pr = spec_parse_command(gline).unwrap();
                                                assert(spec_repo_id_of(
                                                    repos.entries@,
                                                    spec_repo_name(pr.1),
                                                ) == Some(rid));
                                                assert(spec_user_of(auth.entries@, f) == Some(u));
                                                assert(spec_role_of(acl.entries@, rid, u) == Some(
                                                    role,
                                                ));
                                            },
                                            _ => {},
                                        }
                                    }
                                    s5
                                },
                                _ => unreached(),
                            }
                        },
                        _ => unreached(),
                    }
                },
                _ => unreached(),
            }
        },
        _ => unreached(),
    }
}

} // verus!
