//! The authorizer: which role a requested helper needs, and whether a
//! granted role satisfies it. Write grants everything; read grants
//! reads; no row grants nothing.

use vstd::prelude::*;

use crate::command::Program;
use crate::errors::GatewayError;
use crate::AclRole;

verus! {

/// What a session asks of a repository.
#[derive(Clone, Copy, PartialEq, Eq, Structural, Debug)]
pub enum Operation {
    Read,
    Write,
}

/// `git-receive-pack` writes; the two upload helpers read.
pub open spec fn spec_op_of(p: Program) -> Operation {
    match p {
        Program::ReceivePack => Operation::Write,
        Program::UploadPack => Operation::Read,
        Program::UploadArchive => Operation::Read,
    }
}

pub fn operation_of(p: &Program) -> (r: Operation)
    ensures
        r == spec_op_of(*p),
{
    match p {
        Program::ReceivePack => Operation::Write,
        Program::UploadPack => Operation::Read,
        Program::UploadArchive => Operation::Read,
    }
}

/// A write role satisfies both operations; a read role satisfies only a
/// read.
pub open spec fn spec_permits(role: AclRole, op: Operation) -> bool {
    role == AclRole::Write || op == Operation::Read
}

pub fn permits(role: &AclRole, op: &Operation) -> (r: bool)
    ensures
        r == spec_permits(*role, *op),
{
    match (role, op) {
        (AclRole::Write, _) => true,
        (AclRole::Read, Operation::Read) => true,
        (AclRole::Read, Operation::Write) => false,
    }
}

/// Permit iff a row exists and its role satisfies the operation;
/// absence denies.
pub open spec fn spec_authorize(found: Option<AclRole>, op: Operation) -> Result<
    (),
    GatewayError,
> {
    match found {
        Some(role) => if spec_permits(role, op) {
            Ok(())
        } else {
            Err(GatewayError::AccessDenied)
        },
        None => Err(GatewayError::AccessDenied),
    }
}

pub fn authorize(found: Option<AclRole>, op: Operation) -> (r: Result<(), GatewayError>)
    ensures
        r == spec_authorize(found, op),
{
    match found {
        Some(role) => if permits(&role, &op) {
            Ok(())
        } else {
            Err(GatewayError::AccessDenied)
        },
        None => Err(GatewayError::AccessDenied),
    }
}

} // verus!
