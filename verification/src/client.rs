//! The notifier's computations: split the build tool's list of output paths
//! into single artifact paths, and judge whether a datagram write delivered
//! a whole message. Connecting and sending are the caller's job.

use vstd::prelude::*;

verus! {

/// The byte the path list is separated by: a space.
pub const PATH_SEPARATOR: u8 = 32;

/// Splitting a byte string at every separator, keeping empty pieces — the
/// empty input yields one empty piece, and `n` separators always yield
/// `n + 1` pieces.
pub open spec fn spec_split(s: Seq<u8>) -> Seq<Seq<u8>>
    decreases s.len(),
{
    if s.len() == 0 {
        seq![Seq::<u8>::empty()]
    } else if s[0] == PATH_SEPARATOR {
        seq![Seq::<u8>::empty()] + spec_split(s.skip(1))
    } else {
        let rest = spec_split(s.skip(1));
        seq![seq![s[0]] + rest[0]] + rest.skip(1)
    }
}

/// The split of any byte string has at least one piece.
pub proof fn lemma_split_nonempty(s: Seq<u8>)
    ensures
        spec_split(s).len() >= 1,
    decreases s.len(),
{
    if s.len() > 0 && s[0] != PATH_SEPARATOR {
        lemma_split_nonempty(s.skip(1));
    }
}

/// Joining pieces with single separators between them.
pub open spec fn spec_join(pieces: Seq<Seq<u8>>) -> Seq<u8>
    decreases pieces.len(),
{
    if pieces.len() == 0 {
        Seq::<u8>::empty()
    } else if pieces.len() == 1 {
        pieces[0]
    } else {
        pieces[0] + seq![PATH_SEPARATOR] + spec_join(pieces.skip(1))
    }
}

/// Splitting loses nothing and invents nothing: joining the pieces with
/// single separators restores the input byte for byte.
pub proof fn lemma_split_join(s: Seq<u8>)
    ensures
        spec_join(spec_split(s)) == s,
    decreases s.len(),
{
    if s.len() == 0 {
        assert(spec_join(spec_split(s)) =~= s);
    } else if s[0] == PATH_SEPARATOR {
        lemma_split_join(s.skip(1));
        lemma_split_nonempty(s.skip(1));
        let rest = spec_split(s.skip(1));
        assert(spec_split(s).skip(1) =~= rest);
        assert(spec_join(spec_split(s)) =~= s);
    } else {
        lemma_split_join(s.skip(1));
        lemma_split_nonempty(s.skip(1));
        let rest = spec_split(s.skip(1));
        if rest.len() == 1 {
            assert(spec_join(rest) == rest[0]);
            assert(spec_split(s) =~= seq![seq![s[0]] + rest[0]]);
            assert(spec_join(spec_split(s)) == seq![s[0]] + rest[0]);
            assert(seq![s[0]] + rest[0] =~= s);
        } else {
            assert(spec_split(s).skip(1) =~= rest.skip(1));
            assert(spec_join(rest) == rest[0] + seq![PATH_SEPARATOR] + spec_join(rest.skip(1)));
            assert(spec_join(spec_split(s)) == (seq![s[0]] + rest[0]) + seq![PATH_SEPARATOR]
                + spec_join(rest.skip(1)));
            assert(spec_join(spec_split(s)) =~= seq![s[0]] + spec_join(rest));
            assert(seq![s[0]] + s.skip(1) =~= s);
        }
    }
}

/// The pieces of the suffix of `bytes` that starts at `i`.
fn split_from(bytes: &Vec<u8>, i: usize) -> (r: Vec<Vec<u8>>)
    requires
        i <= bytes@.len(),
    ensures
        r@.map(|k: int, piece: Vec<u8>| piece@) == spec_split(bytes@.skip(i as int)),
        r@.len() >= 1,
    decreases bytes@.len() - i,
{
    if i == bytes.len() {
        let mut r: Vec<Vec<u8>> = Vec::new();
        r.push(Vec::new());
        proof {
            assert(bytes@.skip(i as int) =~= Seq::<u8>::empty());
            assert(r@.map(|k: int, piece: Vec<u8>| piece@) =~~= spec_split(bytes@.skip(i as int)));
        }
        r
    } else {
        let b: u8 = bytes[i];
        let mut rest = split_from(bytes, i + 1);
        proof {
            lemma_split_nonempty(bytes@.skip(i as int + 1));
        }
        if b == PATH_SEPARATOR {
            rest.insert(0, Vec::new());
            proof {
                assert(bytes@.skip(i as int).skip(1) =~= bytes@.skip(i as int + 1));
                assert(rest@.map(|k: int, piece: Vec<u8>| piece@) =~~= spec_split(
                    bytes@.skip(i as int),
                ));
            }
            rest
        } else {
            let mut first = rest.remove(0);
            first.insert(0, b);
            rest.insert(0, first);
            proof {
                assert(bytes@.skip(i as int).skip(1) =~= bytes@.skip(i as int + 1));
                assert(rest@.map(|k: int, piece: Vec<u8>| piece@) =~~= spec_split(
                    bytes@.skip(i as int),
                ));
            }
            rest
        }
    }
}

/// Split the build tool's space-separated list of output paths into the
/// messages to send, one per artifact path, in order, empty pieces kept.
pub fn split_paths(bytes: &Vec<u8>) -> (r: Vec<Vec<u8>>)
    ensures
        r@.map(|k: int, piece: Vec<u8>| piece@) == spec_split(bytes@),
        r@.len() >= 1,
{
    let r = split_from(bytes, 0);
    proof {
        assert(bytes@.skip(0) =~= bytes@);
    }
    r
}

/// A datagram write delivered the message only if it wrote every byte; a
/// short write is an error for the notifier, which never retries.
pub fn send_complete(n_bytes: usize, len: usize) -> (r: bool)
    ensures
        r == (n_bytes == len),
{
    n_bytes == len
}

} // verus!
