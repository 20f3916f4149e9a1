use sha1::Digest;
use vstd::prelude::*;

verus! {

/// The SHA-1 digest of `data`.
pub uninterp spec fn sha1_digest(data: Seq<u8>) -> Seq<u8>;

/// `Digest::digest` of `sha1::Sha1`: the 20-byte SHA-1 digest of `data`. The
/// contract names the digest and claims nothing else of it. The array's
/// length is that of the hasher's output.
#[verifier::external_body]
pub(crate) fn sha1_of(data: &[u8]) -> (digest: [u8; 20])
    ensures
        digest@ == sha1_digest(data@),
{
    sha1::Sha1::digest(data).into()
}

/// Whether `digest` and `target` hold the same bytes.
pub fn digest_equals(digest: &[u8; 20], target: &Vec<u8>) -> (same: bool)
    ensures
        same == (digest@ == target@),
{
    if target.len() != 20 {
        return false;
    }
    let mut i: usize = 0;
    while i < 20
        invariant
            i <= 20,
            target@.len() == 20,
            forall|k: int| 0 <= k < i ==> digest@[k] == target@[k],
        decreases 20 - i,
    {
        if digest[i] != target[i] {
            return false;
        }
        i = i + 1;
    }
    assert(digest@ =~= target@);
    true
}

} // verus!
