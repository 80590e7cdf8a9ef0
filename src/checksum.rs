use vstd::prelude::*;

verus! {

/// The SHA-256 digest of a byte sequence.
pub uninterp spec fn sha256_of(data: Seq<u8>) -> Seq<u8>;

/// Relies on sha2's `Digest::digest` for `Sha256`: the 32-byte SHA-256 digest
/// of `data`.
#[verifier::external_body]
fn sha256(data: &[u8]) -> (r: Vec<u8>)
    ensures
        r@ == sha256_of(data@),
        r@.len() == 32,
{
    <sha2::Sha256 as sha2::Digest>::digest(data).to_vec()
}

/// The checksum of a payload: the first four bytes of SHA-256 applied twice.
pub open spec fn checksum_of(payload: Seq<u8>) -> Seq<u8> {
    Seq::new(4, |i: int| sha256_of(sha256_of(payload))[i])
}

/// Computes the four-byte checksum of `data`.
pub fn digest(data: &[u8]) -> (r: Vec<u8>)
    ensures
        r@ == checksum_of(data@),
        r@.len() == 4,
{
    let first = sha256(data);
    let second = sha256(first.as_slice());
    let mut r: Vec<u8> = Vec::new();
    let mut i: usize = 0;
    while i < 4
        invariant
            i <= 4,
            second@.len() == 32,
            r@ == second@.subrange(0, i as int),
        decreases 4 - i,
    {
        r.push(second[i]);
        i += 1;
        assert(r@ =~= second@.subrange(0, i as int));
    }
    assert(r@ =~= checksum_of(data@));
    r
}

} // verus!
