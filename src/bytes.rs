use vstd::prelude::*;

verus! {

/// The reserved identity that stands for "the public / any app":
/// the bytes of `did:sam:root:apps:xxxxxxxxxxxx`.
pub open spec fn public_did() -> Seq<u8> {
    seq![100u8, 105, 100, 58, 115, 97, 109, 58,
        114, 111, 111, 116, 58, 97, 112, 112, 115, 58, 120, 120, 120, 120, 120, 120, 120, 120, 120, 120, 120, 120]
}

/// Whether `did` is the reserved public identity.
pub open spec fn is_public(did: Seq<u8>) -> bool {
    did == public_did()
}

/// Compares two byte strings.
pub fn bytes_equal(a: &Vec<u8>, b: &Vec<u8>) -> (r: bool)
    ensures
        r == (a@ == b@),
{
    if a.len() != b.len() {
        return false;
    }
    let mut i: usize = 0;
    while i < a.len()
        invariant
            a@.len() == b@.len(),
            0 <= i <= a@.len(),
            forall|j: int| 0 <= j < i ==> a@[j] == b@[j],
        decreases a@.len() - i,
    {
        if a[i] != b[i] {
            return false;
        }
        i = i + 1;
    }
    assert(a@ =~= b@);
    true
}

/// Builds the reserved public identity.
pub fn public_did_bytes() -> (r: Vec<u8>)
    ensures
        r@ == public_did(),
{
    let r: Vec<u8> = vec![100u8, 105, 100, 58, 115, 97, 109, 58, 114, 111, 111, 116, 58, 97, 112, 112, 115, 58, 120, 120, 120, 120, 120, 120, 120, 120, 120, 120, 120, 120];
    assert(r@ =~= public_did());
    r
}

} // verus!
