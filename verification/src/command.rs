//! Building the external command lines. Arguments are raw byte strings,
//! because artifact paths are not guaranteed to be valid text; the fixed
//! words are pinned byte for byte, so the exact invocation is part of the
//! contract.

use crate::supervisor::{SIGNING_TIMEOUT_SECS, UPLOAD_TIMEOUT_SECS};
use vstd::prelude::*;

verus! {

/// The bytes of the word `store`.
pub open spec fn word_store() -> Seq<u8> {
    seq![115u8, 116u8, 111u8, 114u8, 101u8]
}

/// The bytes of the word `sign`.
pub open spec fn word_sign() -> Seq<u8> {
    seq![115u8, 105u8, 103u8, 110u8]
}

/// The bytes of the flag `--key-file`.
pub open spec fn word_key_file() -> Seq<u8> {
    seq![45u8, 45u8, 107u8, 101u8, 121u8, 45u8, 102u8, 105u8, 108u8, 101u8]
}

/// The bytes of the word `copy`.
pub open spec fn word_copy() -> Seq<u8> {
    seq![99u8, 111u8, 112u8, 121u8]
}

/// The bytes of the flag `--to`.
pub open spec fn word_to() -> Seq<u8> {
    seq![45u8, 45u8, 116u8, 111u8]
}

/// The argument list of one signing invocation:
/// `<tool> store sign --key-file <key> <path>`.
pub open spec fn spec_sign_args(key: Seq<u8>, path: Seq<u8>) -> Seq<Seq<u8>> {
    seq![word_store(), word_sign(), word_key_file(), key, path]
}

/// The argument list of one upload invocation:
/// `<tool> copy --to <dest> <path>`.
pub open spec fn spec_upload_args(dest: Seq<u8>, path: Seq<u8>) -> Seq<Seq<u8>> {
    seq![word_copy(), word_to(), dest, path]
}

/// One external invocation: program, arguments, and the hard deadline the
/// supervisor enforces on it.
pub struct CommandLine {
    pub program: Vec<u8>,
    pub args: Vec<Vec<u8>>,
    pub timeout_secs: u64,
}

impl CommandLine {
    /// The arguments as byte sequences.
    pub open spec fn arg_views(&self) -> Seq<Seq<u8>> {
        self.args@.map(|i: int, a: Vec<u8>| a@)
    }
}

/// Copy a byte string.
fn clone_bytes(v: &Vec<u8>) -> (r: Vec<u8>)
    ensures
        r@ == v@,
{
    let r = v.clone();
    proof {
        assert(r@ =~= v@);
    }
    r
}

fn word(codes: &[u8]) -> (r: Vec<u8>)
    ensures
        r@ == codes@,
{
    let mut r: Vec<u8> = Vec::new();
    let mut i: usize = 0;
    while i < codes.len()
        invariant
            i <= codes@.len(),
            r@ == codes@.take(i as int),
        decreases codes@.len() - i,
    {
        let b: u8 = codes[i];
        r.push(b);
        i = i + 1;
        proof {
            assert(r@ =~= codes@.take(i as int));
        }
    }
    proof {
        assert(codes@.take(codes@.len() as int) =~= codes@);
    }
    r
}

/// The signing command for one artifact, under the signing deadline.
pub fn sign_command(tool: &Vec<u8>, key: &Vec<u8>, path: &Vec<u8>) -> (c: CommandLine)
    ensures
        c.program@ == tool@,
        c.arg_views() == spec_sign_args(key@, path@),
        c.timeout_secs == SIGNING_TIMEOUT_SECS,
{
    let mut args: Vec<Vec<u8>> = Vec::new();
    args.push(word(&[115u8, 116u8, 111u8, 114u8, 101u8]));
    args.push(word(&[115u8, 105u8, 103u8, 110u8]));
    args.push(word(&[45u8, 45u8, 107u8, 101u8, 121u8, 45u8, 102u8, 105u8, 108u8, 101u8]));
    args.push(clone_bytes(key));
    args.push(clone_bytes(path));
    let c = CommandLine { program: clone_bytes(tool), args, timeout_secs: SIGNING_TIMEOUT_SECS };
    proof {
        assert(c.arg_views() =~= spec_sign_args(key@, path@));
    }
    c
}

/// The upload command for one artifact, under the upload deadline.
pub fn upload_command(tool: &Vec<u8>, dest: &Vec<u8>, path: &Vec<u8>) -> (c: CommandLine)
    ensures
        c.program@ == tool@,
        c.arg_views() == spec_upload_args(dest@, path@),
        c.timeout_secs == UPLOAD_TIMEOUT_SECS,
{
    let mut args: Vec<Vec<u8>> = Vec::new();
    args.push(word(&[99u8, 111u8, 112u8, 121u8]));
    args.push(word(&[45u8, 45u8, 116u8, 111u8]));
    args.push(clone_bytes(dest));
    args.push(clone_bytes(path));
    let c = CommandLine { program: clone_bytes(tool), args, timeout_secs: UPLOAD_TIMEOUT_SECS };
    proof {
        assert(c.arg_views() =~= spec_upload_args(dest@, path@));
    }
    c
}

} // verus!
