//! A verified core for a minimal self-hosted git-repository gateway.
//!
//! The library models the SSH-invoked access path: parsing the forced
//! command, extracting the key fingerprint from the session auth record,
//! resolving identity and repository, and deciding whether to permit the
//! requested git helper. All I/O (database, filesystem, process
//! replacement, HTTP) lives outside; the library works on plain values.

pub mod access;
pub mod admin;
pub mod authrec;
pub mod bytes;
pub mod command;
pub mod errors;
pub mod models;
pub mod repo;
pub mod session;

use vstd::prelude::*;

verus! {

/// Roles an access-control entry may grant on a repository.
#[derive(Clone, Copy, PartialEq, Eq, Structural, Debug)]
pub enum AclRole {
    Read,
    Write,
}

} // verus!
