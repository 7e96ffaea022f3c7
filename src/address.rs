use vstd::prelude::*;

verus! {

/// Number of bytes in an identity or a record address.
pub const ADDRESS_LEN: usize = 32;

/// A 32-byte identity: a signer, a program, or the address of a record.
#[derive(Clone, Copy, Debug, PartialEq, Eq)]
pub struct Address {
    pub bytes: [u8; 32],
}

impl View for Address {
    type V = Seq<u8>;

    open spec fn view(&self) -> Seq<u8> {
        self.bytes@
    }
}

impl Address {
    pub fn new(bytes: [u8; 32]) -> (r: Address)
        ensures
            r@ == bytes@,
    {
        Address { bytes }
    }

    pub fn to_bytes(&self) -> (r: [u8; 32])
        ensures
            r@ == self@,
    {
        self.bytes
    }

    /// Byte-wise equality of two identities.
    pub fn same_as(&self, other: &Address) -> (r: bool)
        ensures
            r == (self@ == other@),
    {
        let mut i: usize = 0;
        while i < ADDRESS_LEN
            invariant
                i <= ADDRESS_LEN,
                self@.len() == ADDRESS_LEN,
                other@.len() == ADDRESS_LEN,
                forall|j: int| 0 <= j < i ==> self@[j] == other@[j],
            decreases ADDRESS_LEN - i,
        {
            if self.bytes[i] != other.bytes[i] {
                return false;
            }
            i = i + 1;
        }
        assert(self@ =~= other@);
        true
    }
}

/// The address derived for the seed `seed` under the program `program`, or
/// `None` where no address can be derived.
pub uninterp spec fn derived_address(seed: Seq<u8>, program: Seq<u8>) -> Option<Seq<u8>>;

/// The address of the replay-protection record of a remote transaction hash.
///
/// Relies on `solana_program::pubkey::Pubkey::try_find_program_address`,
/// which derives the address from the seeds and the program identity alone.
#[verifier::external_body]
pub(crate) fn find_record_address(tx_hash: &[u8; 32], program: &Address) -> (r: Option<Address>)
    ensures
        r is Some == derived_address(tx_hash@, program@) is Some,
        r matches Some(a) ==> derived_address(tx_hash@, program@) == Some(a@),
{
    let program_id = solana_program::pubkey::Pubkey::new_from_array(program.bytes);
    solana_program::pubkey::Pubkey::try_find_program_address(&[&tx_hash[..]], &program_id)
        .map(|(key, _bump)| Address::new(key.to_bytes()))
}

} // verus!
