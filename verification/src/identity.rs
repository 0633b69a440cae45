use anchor_lang::prelude::Pubkey;
use vstd::prelude::*;

verus! {

/// The address of an account: thirty-two bytes.
#[derive(Clone, Copy, Debug)]
pub struct Identity {
    pub bytes: [u8; 32],
}

impl View for Identity {
    type V = Seq<u8>;

    open spec fn view(&self) -> Seq<u8> {
        self.bytes@
    }
}

/// The bytes of the identity that stands for "nobody": thirty-two zeros.
pub open spec fn null_bytes() -> Seq<u8> {
    Seq::new(32, |i: int| 0u8)
}

/// `Pubkey::default()` followed by `Pubkey::to_bytes`. `Pubkey` is a tuple
/// struct over `[u8; 32]` with a derived `Default`, and `to_bytes` hands that
/// array out, so the result is thirty-two zero bytes.
#[verifier::external_body]
fn default_pubkey_bytes() -> (bytes: [u8; 32])
    ensures
        bytes@ == null_bytes(),
{
    Pubkey::default().to_bytes()
}

impl Identity {
    /// Whether this is the null identity, which no bidder holds.
    pub open spec fn is_null(&self) -> bool {
        self@ == null_bytes()
    }

    /// The null identity.
    pub fn null() -> (id: Identity)
        ensures
            id.is_null(),
    {
        Identity { bytes: default_pubkey_bytes() }
    }

}

impl PartialEq for Identity {
    /// Compares two identities byte by byte.
    fn eq(&self, other: &Identity) -> (same: bool) {
        let mut i: usize = 0;
        while i < 32
            invariant
                i <= 32,
                forall|j: int| 0 <= j < i ==> self.bytes[j] == other.bytes[j],
            decreases 32 - i,
        {
            if self.bytes[i] != other.bytes[i] {
                return false;
            }
            i = i + 1;
        }
        assert(self.bytes =~= other.bytes);
        true
    }
}

impl Eq for Identity {

}

impl vstd::std_specs::cmp::PartialEqSpecImpl for Identity {
    open spec fn obeys_eq_spec() -> bool {
        true
    }

    open spec fn eq_spec(&self, other: &Identity) -> bool {
        *self == *other
    }
}

} // verus!
