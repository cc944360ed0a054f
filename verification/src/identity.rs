//! Identities: the 32-byte opaque values that name users, channels,
//! delegates and administrators.

use vstd::prelude::*;

verus! {

/// A 32-byte opaque identity.
///
/// Two identities are the same exactly when their bytes agree.
#[derive(Clone, Copy, Debug, Eq, Hash)]
pub struct Identity {
    pub bytes: [u8; 32],
}

impl View for Identity {
    type V = Seq<u8>;

    open spec fn view(&self) -> Seq<u8> {
        self.bytes@
    }
}

impl PartialEq for Identity {
    fn eq(&self, other: &Self) -> (r: bool) {
        let mut i: usize = 0;
        while i < 32
            invariant
                i <= 32,
                forall|j: int| 0 <= j < i ==> self.bytes[j] == other.bytes[j],
            decreases 32 - i,
        {
            if self.bytes[i] != other.bytes[i] {
                return false;
            }
            i += 1;
        }
        assert(self.bytes =~= other.bytes);
        true
    }
}

impl vstd::std_specs::cmp::PartialEqSpecImpl for Identity {
    open spec fn obeys_eq_spec() -> bool {
        true
    }

    open spec fn eq_spec(&self, other: &Self) -> bool {
        *self == *other
    }
}

impl Default for Identity {
    /// The null identity.
    fn default() -> (r: Self)
        ensures
            r == Identity::null(),
    {
        Identity { bytes: [0u8; 32] }
    }
}

impl Identity {
    /// The null identity, whose bytes are all zero. It stands for "nobody"
    /// and is never accepted as a new owner.
    pub open spec fn null() -> Identity {
        Identity { bytes: vstd::array::spec_array_fill_for_copy_type::<u8, 32>(0u8) }
    }

    /// Whether this is the null identity.
    pub open spec fn spec_is_null(&self) -> bool {
        *self == Identity::null()
    }

    /// Wraps 32 raw bytes.
    pub fn new(bytes: [u8; 32]) -> (r: Self)
        ensures
            r.bytes == bytes,
    {
        Identity { bytes }
    }

    /// The raw bytes.
    pub fn to_bytes(&self) -> (r: [u8; 32])
        ensures
            r == self.bytes,
    {
        self.bytes
    }

    /// Tests for the null identity.
    #[verifier::when_used_as_spec(spec_is_null)]
    pub fn is_null(&self) -> (r: bool)
        ensures
            r == self.spec_is_null(),
    {
        let mut i: usize = 0;
        while i < 32
            invariant
                i <= 32,
                forall|j: int| 0 <= j < i ==> self.bytes[j] == 0u8,
            decreases 32 - i,
        {
            if self.bytes[i] != 0 {
                assert(Identity::null().bytes[i as int] == 0u8);
                return false;
            }
            i += 1;
        }
        assert(self.bytes =~= Identity::null().bytes);
        true
    }

    /// An identity is determined by its bytes.
    pub proof fn lemma_view_injective(a: Identity, b: Identity)
        requires
            a@ == b@,
        ensures
            a == b,
    {
        assert(a.bytes =~= b.bytes);
    }
}

} // verus!
