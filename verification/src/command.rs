//! The forced-command parser: the one string SSH hands the login shell
//! becomes a program from a fixed allow-list of git server-side helpers
//! plus exactly one repository-path argument. Splitting is on ASCII
//! space, with no shell quoting; each argument loses at most one pair of
//! surrounding quotes.

use vstd::prelude::*;

use crate::bytes::{bytes_eq, spec_split, split_bytes, sub_bytes, views};
use crate::errors::GatewayError;

verus! {

pub const SPACE: u8 = 32;

pub const SQUOTE: u8 = 39;

pub const DQUOTE: u8 = 34;

/// The three git server-side helpers the gateway will ever run.
#[derive(Clone, Copy, PartialEq, Eq, Structural, Debug)]
pub enum Program {
    ReceivePack,
    UploadPack,
    UploadArchive,
}

/// `git-receive-pack` as bytes.
pub open spec fn name_receive_pack() -> Seq<u8> {
    seq![103u8, 105u8, 116u8, 45u8, 114u8, 101u8, 99u8, 101u8, 105u8, 118u8, 101u8, 45u8, 112u8, 97u8, 99u8, 107u8]
}

/// `git-upload-pack` as bytes.
pub open spec fn name_upload_pack() -> Seq<u8> {
    seq![103u8, 105u8, 116u8, 45u8, 117u8, 112u8, 108u8, 111u8, 97u8, 100u8, 45u8, 112u8, 97u8, 99u8, 107u8]
}

/// `git-upload-archive` as bytes.
pub open spec fn name_upload_archive() -> Seq<u8> {
    seq![103u8, 105u8, 116u8, 45u8, 117u8, 112u8, 108u8, 111u8, 97u8, 100u8, 45u8, 97u8, 114u8, 99u8, 104u8, 105u8, 118u8, 101u8]
}

/// Which helper a program token names, if any; comparisons are byte-exact.
pub open spec fn spec_program_of(tok: Seq<u8>) -> Option<Program> {
    if tok == name_receive_pack() {
        Some(Program::ReceivePack)
    } else if tok == name_upload_pack() {
        Some(Program::UploadPack)
    } else if tok == name_upload_archive() {
        Some(Program::UploadArchive)
    } else {
        None
    }
}

/// The byte name of an allow-listed program.
pub open spec fn spec_program_name(p: Program) -> Seq<u8> {
    match p {
        Program::ReceivePack => name_receive_pack(),
        Program::UploadPack => name_upload_pack(),
        Program::UploadArchive => name_upload_archive(),
    }
}

pub fn program_name(p: &Program) -> (r: Vec<u8>)
    ensures
        r@ == spec_program_name(*p),
{
    let r: Vec<u8> = match p {
        Program::ReceivePack => vec![
            103u8, 105u8, 116u8, 45u8, 114u8, 101u8, 99u8, 101u8, 105u8, 118u8, 101u8, 45u8,
            112u8, 97u8, 99u8, 107u8,
        ],
        Program::UploadPack => vec![
            103u8, 105u8, 116u8, 45u8, 117u8, 112u8, 108u8, 111u8, 97u8, 100u8, 45u8, 112u8,
            97u8, 99u8, 107u8,
        ],
        Program::UploadArchive => vec![
            103u8, 105u8, 116u8, 45u8, 117u8, 112u8, 108u8, 111u8, 97u8, 100u8, 45u8, 97u8,
            114u8, 99u8, 104u8, 105u8, 118u8, 101u8,
        ],
    };
    proof {
        assert(r@ =~= spec_program_name(*p));
    }
    r
}

pub fn program_of(tok: &Vec<u8>) -> (r: Option<Program>)
    ensures
        r == spec_program_of(tok@),
{
    let rp = program_name(&Program::ReceivePack);
    let up = program_name(&Program::UploadPack);
    let ua = program_name(&Program::UploadArchive);
    if bytes_eq(tok.as_slice(), rp.as_slice()) {
        Some(Program::ReceivePack)
    } else if bytes_eq(tok.as_slice(), up.as_slice()) {
        Some(Program::UploadPack)
    } else if bytes_eq(tok.as_slice(), ua.as_slice()) {
        Some(Program::UploadArchive)
    } else {
        None
    }
}

/// Whether `b` is a single or double quote.
pub open spec fn spec_is_quote(b: u8) -> bool {
    b == SQUOTE || b == DQUOTE
}

/// An argument loses one surrounding pair of equal quotes, if it has
/// one; anything else passes through unchanged. Embedded quotes stay.
pub open spec fn spec_strip_quotes(s: Seq<u8>) -> Seq<u8> {
    if s.len() >= 2 && s[0] == s[s.len() - 1] && spec_is_quote(s[0]) {
        s.subrange(1, s.len() - 1)
    } else {
        s
    }
}

pub fn strip_quotes(s: &Vec<u8>) -> (r: Vec<u8>)
    ensures
        r@ == spec_strip_quotes(s@),
{
    if s.len() >= 2 && s[0] == s[s.len() - 1] && (s[0] == SQUOTE || s[0] == DQUOTE) {
        sub_bytes(s.as_slice(), 1, s.len() - 1)
    } else {
        sub_bytes(s.as_slice(), 0, s.len())
    }
}

/// A parsed forced command: an allow-listed helper and its single
/// repository-path argument, quotes already stripped.
#[derive(Debug)]
pub struct GitCommand {
    pub program: Program,
    pub repo_arg: Vec<u8>,
}

/// What parsing a forced-command line must yield. The first
/// space-separated token picks the program; a token outside the
/// allow-list is refused before anything else is looked at; then exactly
/// one argument must follow.
pub open spec fn spec_parse_command(line: Seq<u8>) -> Result<(Program, Seq<u8>), GatewayError> {
    let toks = spec_split(line, SPACE);
    match spec_program_of(toks[0]) {
        None => Err(GatewayError::DisallowedCommand),
        Some(p) => if toks.len() != 2 {
            Err(GatewayError::MalformedCommand)
        } else {
            Ok((p, spec_strip_quotes(toks[1])))
        },
    }
}

pub fn parse_command(line: &Vec<u8>) -> (r: Result<GitCommand, GatewayError>)
    ensures
        match r {
            Ok(c) => spec_parse_command(line@) == Ok::<_, GatewayError>((c.program, c.repo_arg@)),
            Err(e) => spec_parse_command(line@) == Err::<(Program, Seq<u8>), _>(e),
        },
{
    let toks = split_bytes(line.as_slice(), SPACE);
    proof {
        assert(views(toks@)[0] == toks@[0]@);
    }
    match program_of(&toks[0]) {
        None => Err(GatewayError::DisallowedCommand),
        Some(p) => if toks.len() != 2 {
            Err(GatewayError::MalformedCommand)
        } else {
            proof {
                assert(views(toks@)[1] == toks@[1]@);
            }
            Ok(GitCommand { program: p, repo_arg: strip_quotes(&toks[1]) })
        },
    }
}

/// A quoted argument comes out bare: for either quote and a body free of
/// quotes, stripping `q + s + q` yields `s`.
pub proof fn lemma_strip_quoted_argument(q: u8, s: Seq<u8>)
    requires
        spec_is_quote(q),
        forall|i: int| 0 <= i < s.len() ==> !spec_is_quote(s[i]),
    ensures
        spec_strip_quotes(seq![q] + s + seq![q]) == s,
{
    let w = seq![q] + s + seq![q];
    assert(w[0] == q);
    assert(w[w.len() - 1] == q);
    assert(w.subrange(1, w.len() - 1) =~= s);
}

/// Stripping never does more than remove one matching surrounding pair:
/// every argument comes out unchanged, or bare of exactly one pair of
/// equal quotes.
pub proof fn lemma_strip_at_most_one_pair(s: Seq<u8>)
    ensures
        spec_strip_quotes(s) == s || (s.len() >= 2 && s[0] == s[s.len() - 1] && spec_is_quote(s[0])
            && spec_strip_quotes(s) == s.subrange(1, s.len() - 1)),
{
}

/// How a gateway invocation must look after the program name: the
/// literal `-c` and then the forced-command string, nothing else. Any
/// other shape is a usage error.
pub open spec fn spec_gateway_line(args: Seq<Seq<u8>>) -> Option<Seq<u8>> {
    if args.len() == 2 && args[0] == seq![45u8, 99u8] {
        Some(args[1])
    } else {
        None
    }
}

pub fn gateway_line(args: &Vec<Vec<u8>>) -> (r: Option<Vec<u8>>)
    ensures
        match r {
            Some(l) => spec_gateway_line(views(args@)) == Some(l@),
            None => spec_gateway_line(views(args@)) is None,
        },
{
    proof {
        assert(views(args@).len() == args@.len());
    }
    if args.len() != 2 {
        return None;
    }
    let dash_c = vec![45u8, 99u8];
    proof {
        assert(views(args@)[0] == args@[0]@);
        assert(views(args@)[1] == args@[1]@);
    }
    if !bytes_eq(args[0].as_slice(), dash_c.as_slice()) {
        return None;
    }
    let line = sub_bytes(args[1].as_slice(), 0, args[1].len());
    proof {
        assert(line@ =~= args@[1]@);
    }
    Some(line)
}

/// The emitted program names are exactly the allow-listed ones: what
/// `program_name` writes, `spec_program_of` accepts, and as the same
/// helper.
pub proof fn lemma_program_name_allowlisted(p: Program)
    ensures
        spec_program_of(spec_program_name(p)) == Some(p),
{
}

/// A forced command whose first token is no allow-listed helper is
/// refused outright.
pub proof fn lemma_foreign_program_refused(line: Seq<u8>)
    requires
        spec_program_of(spec_split(line, SPACE)[0]) is None,
    ensures
        spec_parse_command(line) == Err::<(Program, Seq<u8>), _>(GatewayError::DisallowedCommand),
{
}

} // verus!
