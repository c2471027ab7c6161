use vstd::prelude::*;

verus! {

/// Whether two byte strings are the same.
pub fn bytes_eq(a: &[u8], b: &[u8]) -> (same: bool)
    ensures
        same == (a@ == b@),
{
    if a.len() != b.len() {
        return false;
    }
    let mut i: usize = 0;
    while i < a.len()
        invariant
            i <= a.len(),
            a.len() == b.len(),
            forall|k: int| 0 <= k < i ==> a@[k] == b@[k],
        decreases a.len() - i,
    {
        if a[i] != b[i] {
            return false;
        }
        i = i + 1;
    }
    assert(a@ =~= b@);
    true
}

/// Whether two arrays hold the same bytes.
pub fn array_eq<const N: usize>(a: &[u8; N], b: &[u8; N]) -> (same: bool)
    ensures
        same == (*a == *b),
{
    let same = bytes_eq(a.as_slice(), b.as_slice());
    assert(a@ == b@ ==> *a =~= *b);
    same
}

/// Whether two digests are the same. Every byte of both is read, whatever the bytes are.
pub fn constant_time_sha256_eq(a: &[u8; 32], b: &[u8; 32]) -> (same: bool)
    ensures
        same == (*a == *b),
{
    let mut difference: u8 = 0;
    let mut i: usize = 0;
    while i < 32
        invariant
            i <= 32,
            difference == 0 <==> forall|k: int| 0 <= k < i ==> a@[k] == b@[k],
        decreases 32 - i,
    {
        let left: u8 = a[i];
        let right: u8 = b[i];
        let next: u8 = difference | (left ^ right);
        assert(next == 0 <==> difference == 0 && left == right) by (bit_vector)
            requires
                next == difference | (left ^ right),
        ;
        difference = next;
        i = i + 1;
    }
    assert(a@ =~= b@ ==> *a =~= *b);
    assert((forall|k: int| 0 <= k < 32 ==> a@[k] == b@[k]) ==> a@ =~= b@);
    difference == 0
}

/// Whether two optional digests are the same.
pub fn opt_array_eq(a: &Option<[u8; 32]>, b: &Option<[u8; 32]>) -> (same: bool)
    ensures
        same == (*a == *b),
{
    match (a, b) {
        (Some(x), Some(y)) => array_eq(x, y),
        (None, None) => true,
        _ => false,
    }
}

/// A copy of a byte string.
pub fn bytes_copy(bytes: &Vec<u8>) -> (copy: Vec<u8>)
    ensures
        copy@ == bytes@,
{
    let copy = bytes.clone();
    assert(copy@ =~= bytes@);
    copy
}

} // verus!
