use vstd::prelude::*;

verus! {

broadcast use vstd::array::group_array_axioms;

/// A 32-byte account address or identifier, as the program's accounts hold it.
pub type Key = [u8; 32];

/// The all-zero key, which the program treats as "not set".
pub open spec fn is_default_key(k: Key) -> bool {
    forall|i: int| 0 <= i < 32 ==> #[trigger] k[i] == 0u8
}

/// Lexicographic order on byte strings of equal length: at the first index
/// where they differ, `a` holds the smaller byte (equal strings are ordered).
pub open spec fn bytes_le(a: Seq<u8>, b: Seq<u8>) -> bool {
    forall|k: int|
        #![trigger a[k], b[k]]
        0 <= k < a.len() && a[k] != b[k] && (forall|j: int| 0 <= j < k ==> a[j] == b[j]) ==> a[k]
            < b[k]
}

/// Compares two keys byte by byte.
pub fn key_eq(a: &Key, b: &Key) -> (r: bool)
    ensures
        r == (*a == *b),
{
    let mut i: usize = 0;
    while i < 32
        invariant
            0 <= i <= 32,
            forall|j: int| 0 <= j < i ==> a[j] == b[j],
        decreases 32 - i,
    {
        if a[i] != b[i] {
            return false;
        }
        i += 1;
    }
    assert(*a =~= *b);
    true
}

/// Whether a key is the all-zero key.
pub fn key_is_default(k: &Key) -> (r: bool)
    ensures
        r == is_default_key(*k),
{
    let mut i: usize = 0;
    while i < 32
        invariant
            0 <= i <= 32,
            forall|j: int| 0 <= j < i ==> k[j] == 0u8,
        decreases 32 - i,
    {
        if k[i] != 0 {
            return false;
        }
        i += 1;
    }
    true
}

/// Lexicographic `<=` on two keys, as Rust orders byte arrays.
pub fn key_le(a: &Key, b: &Key) -> (r: bool)
    ensures
        r == bytes_le(a@, b@),
{
    let mut i: usize = 0;
    while i < 32
        invariant
            0 <= i <= 32,
            forall|j: int| 0 <= j < i ==> a@[j] == b@[j],
        decreases 32 - i,
    {
        if a[i] != b[i] {
            let r = a[i] < b[i];
            assert forall|k: int|
                0 <= k < a@.len() && a@[k] != b@[k] && (forall|j: int|
                    0 <= j < k ==> a@[j] == b@[j]) implies k == i by {
                if k > i {
                    assert(a@[i as int] == b@[i as int]);
                }
            }
            assert(a@[i as int] != b@[i as int]);
            return r;
        }
        i += 1;
    }
    true
}

} // verus!
