use vstd::prelude::*;
use solana_program::pubkey::Pubkey;
use crate::error::EscrowError;

verus! {

/// A 32-byte account address.
#[derive(Clone, Copy, Debug, PartialEq, Eq, Hash)]
pub struct Address {
    pub bytes: [u8; 32],
}

impl View for Address {
    type V = Seq<u8>;

    open spec fn view(&self) -> Seq<u8> {
        self.bytes@
    }
}

impl Address {
    pub fn new(bytes: [u8; 32]) -> (r: Address)
        ensures
            r.bytes == bytes,
    {
        Address { bytes }
    }

    /// Two addresses with the same bytes are the same address.
    pub proof fn lemma_view_injective(a: Address, b: Address)
        requires
            a@ == b@,
        ensures
            a == b,
    {
        assert forall|i: int| 0 <= i < 32 implies a.bytes[i] == b.bytes[i] by {
            assert(a.bytes@[i] == b.bytes@[i]);
        }
        assert(a.bytes =~= b.bytes);
    }

    /// Byte-wise comparison of two addresses.
    pub fn same_as(&self, other: &Address) -> (r: bool)
        ensures
            r == (self@ == other@),
    {
        let mut i: usize = 0;
        while i < 32
            invariant
                i <= 32,
                self@.len() == 32,
                other@.len() == 32,
                forall|j: int| 0 <= j < i ==> self@[j] == other@[j],
            decreases 32 - i,
        {
            if self.bytes[i] != other.bytes[i] {
                return false;
            }
            i = i + 1;
        }
        assert(self@ =~= other@);
        true
    }
}

/// The address that the seed and program id derive, with its bump seed;
/// `None` where no bump seed gives an address off the curve.
pub uninterp spec fn program_address_of(seed: Seq<u8>, program_id: Seq<u8>) -> Option<(Seq<u8>, u8)>;

/// The token program's id, `TokenkegQfeZyiNwAJbNbGKPFXCWuBvf9Ss623VQ5DA`.
pub open spec fn token_program_bytes() -> Seq<u8> {
    seq![
        6u8, 221, 246, 225, 215, 101, 161, 147, 217, 203, 225, 70, 206, 235, 121, 172,
        28, 180, 133, 237, 95, 91, 55, 145, 58, 140, 245, 133, 126, 255, 0, 169,
    ]
}

/// The rent sysvar's id, `SysvarRent111111111111111111111111111111111`.
pub open spec fn rent_sysvar_bytes() -> Seq<u8> {
    seq![
        6u8, 167, 213, 23, 25, 44, 92, 81, 33, 140, 201, 76, 61, 74, 241, 127,
        88, 218, 238, 8, 155, 161, 253, 68, 227, 219, 217, 138, 0, 0, 0, 0,
    ]
}

/// Relies on `Pubkey::try_find_program_address` of solana_program with the one
/// seed `seed`: a hash of the seed, a bump seed and the program id, so the
/// result depends on these alone; a seed over 32 bytes gives `None`.
#[verifier::external_body]
fn find_program_address(seed: &[u8], program_id: &Address) -> (r: Option<(Address, u8)>)
    ensures
        match r {
            Some((a, bump)) => program_address_of(seed@, program_id@) == Some((a@, bump)),
            None => program_address_of(seed@, program_id@) is None,
        },
        seed@.len() > 32 ==> r is None,
{
    let program = Pubkey::new_from_array(program_id.bytes);
    match Pubkey::try_find_program_address(&[seed], &program) {
        Some((key, bump)) => Some((Address { bytes: key.to_bytes() }, bump)),
        None => None,
    }
}

/// Relies on `spl_token::id`: the token program's fixed id.
#[verifier::external_body]
pub(crate) fn token_program_id() -> (r: Address)
    ensures
        r@ == token_program_bytes(),
{
    Address { bytes: spl_token::id().to_bytes() }
}

/// Relies on `solana_program::sysvar::rent::id`: the rent sysvar's fixed id.
#[verifier::external_body]
pub(crate) fn rent_sysvar_id() -> (r: Address)
    ensures
        r@ == rent_sysvar_bytes(),
{
    Address { bytes: solana_program::sysvar::rent::id().to_bytes() }
}

/// The custody authority of a program: the keyless address derived from
/// `seed` and `program_id`, with its bump seed. Anyone can compute it ahead
/// of a request.
pub fn derive_authority(program_id: &Address, seed: &[u8]) -> (r: Result<(Address, u8), EscrowError>)
    ensures
        match program_address_of(seed@, program_id@) {
            Some((a, bump)) => r matches Ok((k, b)) && k@ == a && b == bump,
            None => r == Err::<(Address, u8), EscrowError>(EscrowError::InvalidSeeds),
        },
        seed@.len() > 32 ==> r == Err::<(Address, u8), EscrowError>(EscrowError::InvalidSeeds),
{
    match find_program_address(seed, program_id) {
        Some((key, bump)) => Ok((key, bump)),
        None => Err(EscrowError::InvalidSeeds),
    }
}

} // verus!
