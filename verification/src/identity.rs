use vstd::prelude::*;
use vstd::std_specs::cmp::PartialEqSpecImpl;

verus! {

/// An account address or public key: thirty-two opaque bytes.
///
/// Two identities are the same exactly when their bytes agree, so contracts
/// compare identities through their views.
#[derive(Clone, Copy, Debug, Eq, Hash)]
pub struct Identity {
    pub bytes: [u8; 32],
}

impl View for Identity {
    type V = Seq<u8>;

    open spec fn view(&self) -> Seq<u8> {
        self.bytes@
    }
}

impl Identity {
    /// The identity that stands for "none configured": all bytes zero.
    pub open spec fn is_unset(&self) -> bool {
        forall|i: int| 0 <= i < 32 ==> self.bytes[i] == 0u8
    }

    /// Wraps thirty-two bytes.
    pub fn new_from_array(bytes: [u8; 32]) -> (id: Identity)
        ensures
            id.bytes == bytes,
    {
        Identity { bytes }
    }

    /// The thirty-two bytes of this identity.
    pub fn to_bytes(&self) -> (bytes: [u8; 32])
        ensures
            bytes == self.bytes,
    {
        self.bytes
    }

    /// Whether this is the all-zero identity.
    pub fn is_default(&self) -> (r: bool)
        ensures
            r == self.is_unset(),
    {
        let mut i: usize = 0;
        while i < 32
            invariant
                i <= 32,
                forall|k: int| 0 <= k < i ==> self.bytes[k] == 0u8,
            decreases 32 - i,
        {
            if self.bytes[i] != 0 {
                return false;
            }
            i += 1;
        }
        true
    }
}

/// Calls `Pubkey::default()` of `anchor_lang` and hands back the key's bytes
/// (`Pubkey::to_bytes`). The key type is a wrapper around `[u8; 32]` with a
/// derived `Default`, so every byte of the default key is zero; that is all
/// this contract claims.
#[verifier::external_body]
fn default_key_bytes() -> (bytes: [u8; 32])
    ensures
        forall|i: int| 0 <= i < 32 ==> bytes[i] == 0u8,
{
    anchor_lang::prelude::Pubkey::default().to_bytes()
}

impl Default for Identity {
    /// The identity of the default key: the unset identity.
    fn default() -> (id: Identity)
        ensures
            id.is_unset(),
    {
        Identity { bytes: default_key_bytes() }
    }
}

impl PartialEq for Identity {
    /// Two identities are equal when all thirty-two bytes agree.
    fn eq(&self, other: &Identity) -> (r: bool) {
        let mut i: usize = 0;
        while i < 32
            invariant
                i <= 32,
                forall|k: int| 0 <= k < i ==> self.bytes[k] == other.bytes[k],
            decreases 32 - i,
        {
            if self.bytes[i] != other.bytes[i] {
                return false;
            }
            i += 1;
        }
        assert(self.bytes@ =~= other.bytes@);
        true
    }
}

impl PartialEqSpecImpl for Identity {
    open spec fn obeys_eq_spec() -> bool {
        true
    }

    open spec fn eq_spec(&self, other: &Identity) -> bool {
        self@ == other@
    }
}

/// Identities with the same bytes are the same identity.
pub proof fn lemma_identity_determined_by_bytes(a: Identity, b: Identity)
    ensures
        a@ == b@ <==> a == b,
{
    if a@ == b@ {
        assert(a.bytes =~= b.bytes);
    }
}

} // verus!
