use vstd::prelude::*;

verus! {

/// An account on the ledger, identified by a number.
#[derive(Clone, Copy, Debug, PartialEq, Eq, Structural)]
pub struct Address {
    pub id: u64,
}

impl View for Address {
    type V = u64;

    open spec fn view(&self) -> u64 {
        self.id
    }
}

/// A 32-byte identifier (certificate, request or session id).
#[derive(Clone, Copy, Debug, PartialEq, Eq)]
pub struct Bytes32 {
    pub data: [u8; 32],
}

impl View for Bytes32 {
    type V = Seq<u8>;

    open spec fn view(&self) -> Seq<u8> {
        self.data@
    }
}

impl Bytes32 {
    /// Builds an identifier from its bytes.
    pub fn from_array(data: [u8; 32]) -> (r: Bytes32)
        ensures
            r@ == data@,
    {
        Bytes32 { data }
    }

    /// The all-zero identifier.
    pub fn zero() -> (r: Bytes32)
        ensures
            r@.len() == 32,
            forall|i: int| 0 <= i < 32 ==> r@[i] == 0u8,
    {
        Bytes32 { data: [0u8; 32] }
    }
}

/// Keys whose equality can be decided in executable code, consistently with their view.
pub trait KeyEq: View + Sized {
    fn key_eq(&self, other: &Self) -> (r: bool)
        ensures
            r == (self@ == other@),
    ;
}

impl KeyEq for u64 {
    fn key_eq(&self, other: &Self) -> (r: bool) {
        *self == *other
    }
}

impl KeyEq for Address {
    fn key_eq(&self, other: &Self) -> (r: bool) {
        self.id == other.id
    }
}

impl KeyEq for String {
    fn key_eq(&self, other: &Self) -> (r: bool) {
        *self == *other
    }
}

impl KeyEq for Bytes32 {
    fn key_eq(&self, other: &Self) -> (r: bool) {
        let mut i: usize = 0;
        while i < 32
            invariant
                0 <= i <= 32,
                self@.len() == 32,
                other@.len() == 32,
                forall|j: int| 0 <= j < i ==> self@[j] == other@[j],
            decreases 32 - i,
        {
            if self.data[i] != other.data[i] {
                return false;
            }
            i = i + 1;
        }
        assert(self@ =~= other@);
        true
    }
}

impl<A: KeyEq, B: KeyEq> KeyEq for (A, B) {
    fn key_eq(&self, other: &Self) -> (r: bool) {
        self.0.key_eq(&other.0) && self.1.key_eq(&other.1)
    }
}

impl<A: KeyEq, B: KeyEq, C: KeyEq> KeyEq for (A, B, C) {
    fn key_eq(&self, other: &Self) -> (r: bool) {
        self.0.key_eq(&other.0) && self.1.key_eq(&other.1) && self.2.key_eq(&other.2)
    }
}

/// Finds a key in a vector of keys.
pub fn vec_contains<K: KeyEq>(v: &Vec<K>, k: &K) -> (r: bool)
    ensures
        r == (exists|i: int| 0 <= i < v@.len() && #[trigger] v@[i]@ == k@),
{
    let mut i: usize = 0;
    while i < v.len()
        invariant
            0 <= i <= v@.len(),
            forall|j: int| 0 <= j < i ==> #[trigger] v@[j]@ != k@,
        decreases v@.len() - i,
    {
        if v[i].key_eq(k) {
            return true;
        }
        i = i + 1;
    }
    false
}

} // verus!
