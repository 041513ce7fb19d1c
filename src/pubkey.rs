use vstd::prelude::*;

verus! {

/// A 32-byte account identity.
#[derive(Clone, Copy, Debug)]
pub struct Pubkey {
    pub bytes: [u8; 32],
}

impl Pubkey {
    pub fn new_from_array(bytes: [u8; 32]) -> (r: Pubkey)
        ensures
            r.bytes == bytes,
    {
        Pubkey { bytes }
    }

    pub fn to_bytes(&self) -> (r: [u8; 32])
        ensures
            r == self.bytes,
    {
        self.bytes
    }

    /// The all-zero identity, which stands for "no account".
    pub fn zeroed() -> (r: Pubkey)
        ensures
            r.is_null(),
    {
        Pubkey { bytes: [0u8; 32] }
    }

    pub open spec fn is_null(self) -> bool {
        forall|i: int| 0 <= i < 32 ==> self.bytes[i] == 0u8
    }

    pub fn is_zero(&self) -> (r: bool)
        ensures
            r == self.is_null(),
    {
        let null = Pubkey::zeroed();
        let r = self.same(&null);
        proof {
            if self.is_null() {
                assert(self.bytes =~= null.bytes);
            }
        }
        r
    }

    pub fn same(&self, other: &Pubkey) -> (r: bool)
        ensures
            r == (*self == *other),
    {
        let mut i: usize = 0;
        while i < 32
            invariant
                0 <= i <= 32,
                forall|j: int| 0 <= j < i ==> self.bytes[j] == other.bytes[j],
            decreases 32 - i,
        {
            if self.bytes[i] != other.bytes[i] {
                return false;
            }
            i = i + 1;
        }
        proof {
            assert(self.bytes =~= other.bytes);
        }
        true
    }
}

impl PartialEq for Pubkey {
    fn eq(&self, other: &Pubkey) -> (r: bool) {
        self.same(other)
    }
}

impl vstd::std_specs::cmp::PartialEqSpecImpl for Pubkey {
    open spec fn obeys_eq_spec() -> bool {
        true
    }

    open spec fn eq_spec(&self, other: &Pubkey) -> bool {
        *self == *other
    }
}

impl Eq for Pubkey {
}

} // verus!
