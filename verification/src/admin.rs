//! The admin surface's decisions: which HTTP status each mutation
//! answers with. The handlers themselves fetch and store rows; every
//! status they return is computed here. A backend failure is its own
//! answer, never mistaken for a missing row.

use vstd::prelude::*;

verus! {

/// The outcome a handler's storage work can end in: it changed or found
/// what the request named, it found nothing to change, or the backend
/// failed.
#[derive(Clone, Copy, PartialEq, Eq, Structural, Debug)]
pub enum StoreOutcome {
    Done,
    Absent,
    Failed,
}

pub const HTTP_OK: u16 = 200;

pub const HTTP_CREATED: u16 = 201;

pub const HTTP_FORBIDDEN: u16 = 403;

pub const HTTP_NOT_FOUND: u16 = 404;

pub const HTTP_ERROR: u16 = 500;

/// Creating a repository: created answers 201, an existing directory
/// 403.
pub open spec fn spec_create_repo_status(o: StoreOutcome) -> u16 {
    match o {
        StoreOutcome::Done => HTTP_CREATED,
        StoreOutcome::Absent => HTTP_FORBIDDEN,
        StoreOutcome::Failed => HTTP_ERROR,
    }
}

pub fn create_repo_status(o: StoreOutcome) -> (r: u16)
    ensures
        r == spec_create_repo_status(o),
{
    match o {
        StoreOutcome::Done => HTTP_CREATED,
        StoreOutcome::Absent => HTTP_FORBIDDEN,
        StoreOutcome::Failed => HTTP_ERROR,
    }
}

/// Deleting a repository: removed answers 201, a missing one 404.
pub open spec fn spec_delete_repo_status(o: StoreOutcome) -> u16 {
    match o {
        StoreOutcome::Done => HTTP_CREATED,
        StoreOutcome::Absent => HTTP_NOT_FOUND,
        StoreOutcome::Failed => HTTP_ERROR,
    }
}

pub fn delete_repo_status(o: StoreOutcome) -> (r: u16)
    ensures
        r == spec_delete_repo_status(o),
{
    match o {
        StoreOutcome::Done => HTTP_CREATED,
        StoreOutcome::Absent => HTTP_NOT_FOUND,
        StoreOutcome::Failed => HTTP_ERROR,
    }
}

/// Writing an access-control row: an insert answers 201, an update of
/// an existing pair 200.
pub open spec fn spec_update_acl_status(existed: bool, failed: bool) -> u16 {
    if failed {
        HTTP_ERROR
    } else if existed {
        HTTP_OK
    } else {
        HTTP_CREATED
    }
}

pub fn update_acl_status(existed: bool, failed: bool) -> (r: u16)
    ensures
        r == spec_update_acl_status(existed, failed),
{
    if failed {
        HTTP_ERROR
    } else if existed {
        HTTP_OK
    } else {
        HTTP_CREATED
    }
}

/// Deleting an access-control row: deleted answers 200, a missing pair
/// 404.
pub open spec fn spec_remove_acl_status(o: StoreOutcome) -> u16 {
    match o {
        StoreOutcome::Done => HTTP_OK,
        StoreOutcome::Absent => HTTP_NOT_FOUND,
        StoreOutcome::Failed => HTTP_ERROR,
    }
}

pub fn remove_acl_status(o: StoreOutcome) -> (r: u16)
    ensures
        r == spec_remove_acl_status(o),
{
    match o {
        StoreOutcome::Done => HTTP_OK,
        StoreOutcome::Absent => HTTP_NOT_FOUND,
        StoreOutcome::Failed => HTTP_ERROR,
    }
}

/// Adding an auth key: inserted answers 201, a duplicate fingerprint
/// 403.
pub open spec fn spec_add_key_status(o: StoreOutcome) -> u16 {
    match o {
        StoreOutcome::Done => HTTP_CREATED,
        StoreOutcome::Absent => HTTP_FORBIDDEN,
        StoreOutcome::Failed => HTTP_ERROR,
    }
}

pub fn add_key_status(o: StoreOutcome) -> (r: u16)
    ensures
        r == spec_add_key_status(o),
{
    match o {
        StoreOutcome::Done => HTTP_CREATED,
        StoreOutcome::Absent => HTTP_FORBIDDEN,
        StoreOutcome::Failed => HTTP_ERROR,
    }
}

/// Deleting an auth key: deleted answers 200, a missing row 403.
pub open spec fn spec_delete_key_status(o: StoreOutcome) -> u16 {
    match o {
        StoreOutcome::Done => HTTP_OK,
        StoreOutcome::Absent => HTTP_FORBIDDEN,
        StoreOutcome::Failed => HTTP_ERROR,
    }
}

pub fn delete_key_status(o: StoreOutcome) -> (r: u16)
    ensures
        r == spec_delete_key_status(o),
{
    match o {
        StoreOutcome::Done => HTTP_OK,
        StoreOutcome::Absent => HTTP_FORBIDDEN,
        StoreOutcome::Failed => HTTP_ERROR,
    }
}

} // verus!
