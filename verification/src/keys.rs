//! Account addresses as plain 32-byte values, and the small set operations
//! the vault and proposal records need: equality, membership, uniqueness.
use vstd::prelude::*;

verus! {

/// A 32-byte account address. The all-zero address marks an empty slot in a
/// record's fixed-capacity key arrays and is never a valid member or voter.
pub type Pubkey = [u8; 32];

/// Holds when `k` is the all-zero address.
pub open spec fn is_zero_key(k: Pubkey) -> bool {
    forall|i: int| 0 <= i < 32 ==> k@[i] == 0
}

/// Holds when some entry of `keys` has the same bytes as `k`.
pub open spec fn has_key(keys: Seq<Pubkey>, k: Pubkey) -> bool {
    exists|i: int| 0 <= i < keys.len() && keys[i]@ == k@
}

/// Holds when no two entries of `keys` have the same bytes.
pub open spec fn keys_unique(keys: Seq<Pubkey>) -> bool {
    forall|i: int, j: int| 0 <= i < j < keys.len() ==> keys[i]@ != keys[j]@
}

/// Holds when no entry of `a` also occurs in `b`.
pub open spec fn keys_disjoint(a: Seq<Pubkey>, b: Seq<Pubkey>) -> bool {
    forall|i: int, j: int| 0 <= i < a.len() && 0 <= j < b.len() ==> a[i]@ != b[j]@
}

/// Compares two addresses byte for byte.
pub fn pubkey_eq(a: &Pubkey, b: &Pubkey) -> (r: bool)
    ensures
        r <==> a@ == b@,
{
    let mut i: usize = 0;
    while i < 32
        invariant
            i <= 32,
            forall|j: int| 0 <= j < i ==> a@[j] == b@[j],
        decreases 32 - i,
    {
        if a[i] != b[i] {
            return false;
        }
        i += 1;
    }
    proof {
        assert(a@ =~= b@);
    }
    true
}

/// Returns the all-zero address.
pub fn zero_key() -> (k: Pubkey)
    ensures
        is_zero_key(k),
{
    [0u8; 32]
}

/// Tests whether `k` is the all-zero address.
pub fn is_zero_key_exec(k: &Pubkey) -> (r: bool)
    ensures
        r == is_zero_key(*k),
{
    let mut i: usize = 0;
    while i < 32
        invariant
            i <= 32,
            forall|j: int| 0 <= j < i ==> k@[j] == 0,
        decreases 32 - i,
    {
        if k[i] != 0 {
            return false;
        }
        i += 1;
    }
    true
}

/// Tests that no two entries of `keys` have the same bytes.
pub fn check_keys_unique(keys: &Vec<Pubkey>) -> (r: bool)
    ensures
        r == keys_unique(keys@),
{
    let mut i: usize = 0;
    while i < keys.len()
        invariant
            i <= keys@.len(),
            forall|a: int, b: int| 0 <= a < b < keys@.len() && a < i ==> keys@[a]@ != keys@[b]@,
        decreases keys@.len() - i,
    {
        let mut j: usize = i + 1;
        while j < keys.len()
            invariant
                i < j <= keys@.len(),
                i < keys@.len(),
                forall|b: int| i < b < j ==> keys@[i as int]@ != keys@[b]@,
            decreases keys@.len() - j,
        {
            if pubkey_eq(&keys[i], &keys[j]) {
                assert(keys@[i as int]@ == keys@[j as int]@);
                return false;
            }
            j += 1;
        }
        i += 1;
    }
    true
}

/// Tests that no entry of `a` also occurs in `b`.
pub fn check_keys_disjoint(a: &Vec<Pubkey>, b: &Vec<Pubkey>) -> (r: bool)
    ensures
        r == keys_disjoint(a@, b@),
{
    let mut i: usize = 0;
    while i < a.len()
        invariant
            i <= a@.len(),
            forall|x: int, y: int| 0 <= x < i && 0 <= y < b@.len() ==> a@[x]@ != b@[y]@,
        decreases a@.len() - i,
    {
        if find_key(b, &a[i]) {
            proof {
                let j = choose|j: int| 0 <= j < b@.len() && b@[j]@ == a@[i as int]@;
                assert(a@[i as int]@ == b@[j]@);
            }
            return false;
        }
        i += 1;
    }
    true
}

/// Tests that no entry of `keys` is the all-zero address.
pub fn check_no_zero_keys(keys: &Vec<Pubkey>) -> (r: bool)
    ensures
        r == forall|i: int| 0 <= i < keys@.len() ==> !is_zero_key(#[trigger] keys@[i]),
{
    let mut i: usize = 0;
    while i < keys.len()
        invariant
            i <= keys@.len(),
            forall|j: int| 0 <= j < i ==> !is_zero_key(#[trigger] keys@[j]),
        decreases keys@.len() - i,
    {
        if is_zero_key_exec(&keys[i]) {
            return false;
        }
        i += 1;
    }
    true
}

/// Scans `keys` for an entry equal to `k`.
pub fn find_key(keys: &Vec<Pubkey>, k: &Pubkey) -> (r: bool)
    ensures
        r == has_key(keys@, *k),
{
    let mut i: usize = 0;
    while i < keys.len()
        invariant
            i <= keys@.len(),
            forall|j: int| 0 <= j < i ==> keys@[j]@ != k@,
        decreases keys@.len() - i,
    {
        if pubkey_eq(&keys[i], k) {
            assert(keys@[i as int]@ == k@);
            return true;
        }
        i += 1;
    }
    false
}

} // verus!
