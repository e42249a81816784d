//! The key-fingerprint extractor. The host SSH daemon publishes a
//! per-session auth record of newline-separated `<method> <payload>`
//! entries; the first `publickey` entry carries the OpenSSH public key
//! that authenticated the session, and its SHA-256 fingerprint (raw 32
//! bytes) is the session's identity token.

use vstd::prelude::*;

use crate::bytes::{spec_split, split_bytes, sub_bytes, views};
use crate::errors::GatewayError;

verus! {

pub const NEWLINE: u8 = 10;

/// `publickey ` (method token and the space after it) as bytes.
pub open spec fn publickey_prefix() -> Seq<u8> {
    seq![112u8, 117u8, 98u8, 108u8, 105u8, 99u8, 107u8, 101u8, 121u8, 32u8]
}

/// The key text of one auth-record entry, if the entry's method is
/// `publickey`: everything after the method token and its space.
pub open spec fn spec_key_of_line(l: Seq<u8>) -> Option<Seq<u8>> {
    if l.len() >= 10 && l.take(10) == publickey_prefix() {
        Some(l.skip(10))
    } else {
        None
    }
}

/// The key text of the first `publickey` entry among `lines`, if any.
pub open spec fn spec_first_key(lines: Seq<Seq<u8>>) -> Option<Seq<u8>>
    decreases lines.len(),
{
    if lines.len() == 0 {
        None
    } else if spec_key_of_line(lines[0]) is Some {
        spec_key_of_line(lines[0])
    } else {
        spec_first_key(lines.skip(1))
    }
}

/// The SHA-256 fingerprint of the OpenSSH public key written in `text`,
/// or nothing where `text` is no parseable key. A function of the text
/// alone: the same key text always carries the same fingerprint.
pub uninterp spec fn openssh_fingerprint(text: Seq<u8>) -> Option<Seq<u8>>;

/// Relies on `ssh_key::PublicKey::from_openssh`,
/// `ssh_key::Fingerprint::new` and `ssh_key::Fingerprint::sha256`:
/// parsing an OpenSSH public key and hashing its wire-format body depend
/// on the key text alone, and a SHA-256 digest is 32 bytes.
#[verifier::external_body]
fn openssh_sha256(text: &Vec<u8>) -> (r: Option<Vec<u8>>)
    ensures
        match r {
            Some(f) => openssh_fingerprint(text@) == Some(f@) && f@.len() == 32,
            None => openssh_fingerprint(text@) is None,
        },
{
    let s = match core::str::from_utf8(text.as_slice()) {
        Ok(s) => s,
        Err(_) => return None,
    };
    let key = match ssh_key::PublicKey::from_openssh(s) {
        Ok(k) => k,
        Err(_) => return None,
    };
    let fp = ssh_key::Fingerprint::new(ssh_key::HashAlg::Sha256, key.key_data());
    fp.sha256().map(|d| d.to_vec())
}

/// What extracting a fingerprint from a whole auth record must yield:
/// the fingerprint of the first `publickey` entry's key, or
/// `AuthUnavailable` where no such entry exists or its key fails to
/// parse.
pub open spec fn spec_record_fingerprint(rec: Seq<u8>) -> Result<Seq<u8>, GatewayError> {
    match spec_first_key(spec_split(rec, NEWLINE)) {
        None => Err(GatewayError::AuthUnavailable),
        Some(k) => match openssh_fingerprint(k) {
            None => Err(GatewayError::AuthUnavailable),
            Some(f) => Ok(f),
        },
    }
}

/// Finds the first `publickey` entry in the record and returns its key
/// text.
fn first_publickey(rec: &Vec<u8>) -> (r: Option<Vec<u8>>)
    ensures
        match r {
            Some(k) => spec_first_key(spec_split(rec@, NEWLINE)) == Some(k@),
            None => spec_first_key(spec_split(rec@, NEWLINE)) is None,
        },
{
    let lines = split_bytes(rec.as_slice(), NEWLINE);
    let ghost all = views(lines@);
    let mut i: usize = 0;
    proof {
        assert(all.skip(0) =~= all);
    }
    while i < lines.len()
        invariant
            i <= lines@.len(),
            all == views(lines@),
            all == spec_split(rec@, NEWLINE),
            forall|j: int| 0 <= j < i as int ==> spec_key_of_line(all[j]) is None,
            spec_first_key(all) == spec_first_key(all.skip(i as int)),
        decreases lines@.len() - i,
    {
        let l = &lines[i];
        proof {
            assert(all[i as int] == l@);
            assert(all.skip(i as int)[0] == all[i as int]);
            assert(all.skip(i as int).skip(1) =~= all.skip(i as int + 1));
        }
        if l.len() >= 10 {
            let head = sub_bytes(l.as_slice(), 0, 10);
            let pk = vec![112u8, 117u8, 98u8, 108u8, 105u8, 99u8, 107u8, 101u8, 121u8, 32u8];
            proof {
                assert(pk@ =~= publickey_prefix());
                assert(head@ =~= l@.take(10));
            }
            if crate::bytes::bytes_eq(head.as_slice(), pk.as_slice()) {
                let key = sub_bytes(l.as_slice(), 10, l.len());
                proof {
                    assert(key@ =~= l@.skip(10));
                    assert(spec_key_of_line(all.skip(i as int)[0]) == Some(key@));
                    assert(spec_first_key(all.skip(i as int)) == Some(key@));
                }
                return Some(key);
            }
        }
        proof {
            assert(spec_key_of_line(all[i as int]) is None);
        }
        i += 1;
    }
    proof {
        assert(all.skip(i as int).len() == 0);
    }
    None
}

/// Derives the session's key fingerprint from the auth record the host
/// SSH daemon published, as `spec_record_fingerprint` says. A returned
/// fingerprint is always the raw 32 bytes of a SHA-256 digest.
pub fn record_fingerprint(rec: &Vec<u8>) -> (r: Result<Vec<u8>, GatewayError>)
    ensures
        match r {
            Ok(f) => spec_record_fingerprint(rec@) == Ok::<_, GatewayError>(f@) && f@.len() == 32,
            Err(e) => spec_record_fingerprint(rec@) == Err::<Seq<u8>, _>(e),
        },
{
    match first_publickey(rec) {
        None => Err(GatewayError::AuthUnavailable),
        Some(key) => match openssh_sha256(&key) {
            None => Err(GatewayError::AuthUnavailable),
            Some(f) => Ok(f),
        },
    }
}

/// Fingerprinting is idempotent: two fingerprints drawn from the same
/// key text are byte-identical.
pub proof fn lemma_fingerprint_idempotent(text: Seq<u8>, f1: Seq<u8>, f2: Seq<u8>)
    requires
        openssh_fingerprint(text) == Some(f1),
        openssh_fingerprint(text) == Some(f2),
    ensures
        f1 == f2,
{
}

/// So is extraction from a whole record: the same auth record always
/// yields the same fingerprint.
pub proof fn lemma_record_fingerprint_idempotent(
    rec: Seq<u8>,
    r1: Result<Seq<u8>, GatewayError>,
    r2: Result<Seq<u8>, GatewayError>,
)
    requires
        r1 == spec_record_fingerprint(rec),
        r2 == spec_record_fingerprint(rec),
    ensures
        r1 == r2,
{
}

} // verus!
