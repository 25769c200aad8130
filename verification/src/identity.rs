//! Account identities: fixed-length public identifiers.

use vstd::prelude::*;
use vstd::std_specs::cmp::PartialEqSpecImpl;

verus! {

/// The public identifier of an account: 32 opaque bytes.
#[derive(Clone, Copy, Debug, Eq, Hash)]
pub struct Identity {
    pub bytes: [u8; 32],
}

impl View for Identity {
    type V = Seq<u8>;

    open spec fn view(&self) -> Seq<u8> {
        self.bytes@
    }
}

impl PartialEq for Identity {
    /// Two identities are equal when all 32 bytes agree.
    fn eq(&self, other: &Identity) -> (r: bool) {
        let mut i: usize = 0;
        while i < 32
            invariant
                i <= 32,
                forall|j: int| 0 <= j < i ==> self.bytes[j] == other.bytes[j],
            decreases 32 - i,
        {
            if self.bytes[i] != other.bytes[i] {
                return false;
            }
            i += 1;
        }
        proof {
            assert(self.bytes@ =~= other.bytes@);
        }
        true
    }
}

impl PartialEqSpecImpl for Identity {
    open spec fn obeys_eq_spec() -> bool {
        true
    }

    open spec fn eq_spec(&self, other: &Identity) -> bool {
        self@ == other@
    }
}

impl Identity {
    /// An identity is determined by its bytes.
    pub proof fn lemma_view_injective(a: Identity, b: Identity)
        ensures
            (a@ == b@) <==> (a == b),
            a@.len() == 32,
    {
        if a@ == b@ {
            assert(a.bytes =~= b.bytes);
        }
    }
}

/// The bytes of the system program's identity: thirty-two zero bytes.
///
/// An account owned by this identity is a plain balance-holding account.
pub open spec fn system_program_bytes() -> Seq<u8> {
    Seq::new(32, |i: int| 0u8)
}

/// Trusted: `anchor_lang::system_program::ID`, the identity of the system
/// program. Its base58 form is thirty-two times the digit `1`, which decodes
/// to thirty-two zero bytes; the contract claims exactly that.
#[verifier::external_body]
pub(crate) fn system_program_id() -> (id: Identity)
    ensures
        id@ == system_program_bytes(),
{
    Identity { bytes: anchor_lang::system_program::ID.to_bytes() }
}

} // verus!
