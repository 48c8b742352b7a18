use vstd::prelude::*;

pub mod counter;
pub mod dispatch;
pub mod errors;
pub mod flag;
pub mod forward;
pub mod hook;
pub mod laws;
pub mod metadata;
pub mod metas;

verus! {

/// Byte-for-byte equality of two addresses.
pub fn address_eq(a: &Vec<u8>, b: &Vec<u8>) -> (r: bool)
    ensures
        r == (a@ == b@),
{
    if a.len() != b.len() {
        assert(a@ != b@);
        return false;
    }
    let mut i: usize = 0;
    while i < a.len()
        invariant
            i <= a.len(),
            a.len() == b.len(),
            forall|j: int| 0 <= j < i ==> a@[j] == b@[j],
        decreases a.len() - i,
    {
        if a[i] != b[i] {
            assert(a@ != b@);
            return false;
        }
        i += 1;
    }
    assert(a@ =~= b@);
    true
}

} // verus!
