//! Addresses.

use vstd::prelude::*;

verus! {

/// An address: 32 bytes.
pub type Pubkey = [u8; 32];

/// Whether an address is the default address, all of whose bytes are zero.
pub open spec fn is_default_spec(key: Seq<u8>) -> bool {
    forall|i: int| 0 <= i < key.len() ==> key[i] == 0
}

/// Whether two addresses are the same.
pub fn same_key(a: &Pubkey, b: &Pubkey) -> (r: bool)
    ensures
        r == (a@ == b@),
{
    let mut i: usize = 0;
    while i < 32
        invariant
            i <= 32,
            forall|j: int| 0 <= j < i ==> a@[j] == b@[j],
        decreases 32 - i,
    {
        if a[i] != b[i] {
            return false;
        }
        i = i + 1;
    }
    assert(a@ =~= b@);
    true
}

/// Whether an address is the default address.
pub fn is_default(key: &Pubkey) -> (r: bool)
    ensures
        r == is_default_spec(key@),
{
    let mut i: usize = 0;
    while i < 32
        invariant
            i <= 32,
            forall|j: int| 0 <= j < i ==> key@[j] == 0,
        decreases 32 - i,
    {
        if key[i] != 0 {
            return false;
        }
        i = i + 1;
    }
    true
}

/// The address unless it is the default address.
pub fn optional_address(key: &Pubkey) -> (r: Option<&Pubkey>)
    ensures
        r is Some == !is_default_spec(key@),
        r matches Some(address) ==> address@ == key@,
{
    if is_default(key) {
        None
    } else {
        Some(key)
    }
}

} // verus!
