//! The gateway's error taxonomy, its process exit codes, and the line a
//! failed session shows to the remote client.

use vstd::prelude::*;

verus! {

/// Everything that can end a gateway session short of replacing the
/// process image.
#[derive(Clone, Copy, PartialEq, Eq, Structural, Debug)]
pub enum GatewayError {
    /// The session auth record is unset, unreadable, holds no public-key
    /// entry, or its key fails to parse.
    AuthUnavailable,
    /// No auth row matches the session's key fingerprint.
    UnknownKey,
    /// The forced command does not carry exactly one argument.
    MalformedCommand,
    /// The forced command's program is not an allow-listed git helper.
    DisallowedCommand,
    /// The repository path argument is invalid or matches no repository.
    UnknownRepo,
    /// No access-control entry permits the requested operation.
    AccessDenied,
    /// The relational store could not be reached in time.
    BackendUnavailable,
    /// The process image could not be replaced with the git helper.
    ExecFailed,
}

/// The process exit code of a session that ends in `e`. Never zero: a
/// gateway session exits zero only by becoming the git helper.
pub open spec fn spec_exit_code(e: GatewayError) -> u8 {
    match e {
        GatewayError::MalformedCommand => 3,
        GatewayError::DisallowedCommand => 3,
        GatewayError::AuthUnavailable => 4,
        GatewayError::UnknownKey => 4,
        GatewayError::UnknownRepo => 4,
        GatewayError::AccessDenied => 5,
        GatewayError::BackendUnavailable => 6,
        GatewayError::ExecFailed => 7,
    }
}

pub fn exit_code(e: &GatewayError) -> (r: u8)
    ensures
        r == spec_exit_code(*e),
        r != 0,
{
    match e {
        GatewayError::MalformedCommand => 3,
        GatewayError::DisallowedCommand => 3,
        GatewayError::AuthUnavailable => 4,
        GatewayError::UnknownKey => 4,
        GatewayError::UnknownRepo => 4,
        GatewayError::AccessDenied => 5,
        GatewayError::BackendUnavailable => 6,
        GatewayError::ExecFailed => 7,
    }
}

/// The one line shown to the remote client when a session ends in `e`.
/// A missing key, a missing repository and a missing grant all read the
/// same, so a probing client learns nothing from the reply.
pub open spec fn spec_client_message(e: GatewayError) -> Seq<char> {
    match e {
        GatewayError::UnknownKey => "access denied"@,
        GatewayError::UnknownRepo => "access denied"@,
        GatewayError::AccessDenied => "access denied"@,
        GatewayError::AuthUnavailable => "authentication record unavailable"@,
        GatewayError::MalformedCommand => "malformed command"@,
        GatewayError::DisallowedCommand => "command not allowed"@,
        GatewayError::BackendUnavailable => "backend unavailable"@,
        GatewayError::ExecFailed => "could not run the requested helper"@,
    }
}

pub fn client_message(e: &GatewayError) -> (r: String)
    ensures
        r@ == spec_client_message(*e),
{
    match e {
        GatewayError::UnknownKey => "access denied".to_owned(),
        GatewayError::UnknownRepo => "access denied".to_owned(),
        GatewayError::AccessDenied => "access denied".to_owned(),
        GatewayError::AuthUnavailable => "authentication record unavailable".to_owned(),
        GatewayError::MalformedCommand => "malformed command".to_owned(),
        GatewayError::DisallowedCommand => "command not allowed".to_owned(),
        GatewayError::BackendUnavailable => "backend unavailable".to_owned(),
        GatewayError::ExecFailed => "could not run the requested helper".to_owned(),
    }
}

/// The client cannot tell an unknown key, an unknown repository and a
/// denied grant apart by the reply line.
pub proof fn lemma_denials_indistinguishable()
    ensures
        spec_client_message(GatewayError::UnknownKey) == spec_client_message(
            GatewayError::AccessDenied,
        ),
        spec_client_message(GatewayError::UnknownRepo) == spec_client_message(
            GatewayError::AccessDenied,
        ),
{
}

} // verus!
