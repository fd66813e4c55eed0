use vstd::prelude::*;
use vstd::bytes::{spec_u64_from_le_bytes, spec_u64_to_le_bytes, u64_from_le_bytes, u64_to_le_bytes};
use vstd::bytes::lemma_auto_spec_u64_to_from_le_bytes;
use vstd::slice::slice_subrange;
use crate::address::Address;
use crate::error::EscrowError;

verus! {

/// The persisted record of one pending trade.
#[derive(Clone, Copy, Debug, PartialEq, Eq)]
pub struct Escrow {
    /// Set once, when the trade is opened.
    pub is_initialized: bool,
    /// The party that opened the trade; gets the proceeds' rent back.
    pub initializer: Address,
    /// The custodial account that holds the deposited token X.
    pub temp_account: Address,
    /// Where the initializer's token Y must land.
    pub initializer_receive_account: Address,
    /// The amount of token Y the initializer must receive.
    pub expected_amount: u64,
}

/// Stored size of a record: `[is_initialized:1][initializer:32][temp_account:32]`
/// `[initializer_receive_account:32][expected_amount:8]`.
pub const ESCROW_LEN: usize = 105;

impl Escrow {
    /// The stored bytes of the record.
    pub open spec fn packed(self) -> Seq<u8> {
        seq![if self.is_initialized { 1u8 } else { 0u8 }] + self.initializer@ + self.temp_account@
            + self.initializer_receive_account@ + spec_u64_to_le_bytes(self.expected_amount)
    }

    /// Whether `bytes` is the stored form of some record.
    pub open spec fn is_record(bytes: Seq<u8>) -> bool {
        bytes.len() == ESCROW_LEN && bytes[0] <= 1
    }

    /// The record that stored bytes hold.
    pub open spec fn unpacked(bytes: Seq<u8>) -> Escrow
        recommends
            Self::is_record(bytes),
    {
        Escrow {
            is_initialized: bytes[0] == 1,
            initializer: Address { bytes: seq_to_array(bytes.subrange(1, 33)) },
            temp_account: Address { bytes: seq_to_array(bytes.subrange(33, 65)) },
            initializer_receive_account: Address { bytes: seq_to_array(bytes.subrange(65, 97)) },
            expected_amount: spec_u64_from_le_bytes(bytes.subrange(97, 105)),
        }
    }

    /// Writes the record in its stored form.
    pub fn pack(&self) -> (r: Vec<u8>)
        ensures
            r@ == self.packed(),
            r@.len() == ESCROW_LEN,
    {
        proof {
            lemma_auto_spec_u64_to_from_le_bytes();
        }
        let mut out: Vec<u8> = Vec::with_capacity(ESCROW_LEN);
        out.push(if self.is_initialized { 1u8 } else { 0u8 });
        push_address(&mut out, &self.initializer);
        push_address(&mut out, &self.temp_account);
        push_address(&mut out, &self.initializer_receive_account);
        let mut le = u64_to_le_bytes(self.expected_amount);
        out.append(&mut le);
        assert(out@ =~= self.packed());
        out
    }

    /// Reads a record from its stored form, opened or not.
    pub fn unpack_unchecked(src: &[u8]) -> (r: Result<Escrow, EscrowError>)
        ensures
            Self::is_record(src@) ==> r == Ok::<Escrow, EscrowError>(Self::unpacked(src@)),
            !Self::is_record(src@) ==> r == Err::<Escrow, EscrowError>(
                EscrowError::InvalidAccountData,
            ),
    {
        if src.len() != ESCROW_LEN {
            return Err(EscrowError::InvalidAccountData);
        }
        let is_initialized = if src[0] == 0 {
            false
        } else if src[0] == 1 {
            true
        } else {
            return Err(EscrowError::InvalidAccountData);
        };
        let initializer = read_address(src, 1);
        let temp_account = read_address(src, 33);
        let initializer_receive_account = read_address(src, 65);
        let expected_amount = u64_from_le_bytes(slice_subrange(src, 97, 105));
        let r = Escrow { is_initialized, initializer, temp_account, initializer_receive_account, expected_amount };
        proof {
            lemma_seq_to_array(initializer, src@.subrange(1, 33));
            lemma_seq_to_array(temp_account, src@.subrange(33, 65));
            lemma_seq_to_array(initializer_receive_account, src@.subrange(65, 97));
        }
        Ok(r)
    }
}

/// Reading back the stored form of a record gives the record.
pub proof fn lemma_unpack_pack(e: Escrow)
    ensures
        Escrow::is_record(e.packed()),
        Escrow::unpacked(e.packed()) == e,
{
    lemma_auto_spec_u64_to_from_le_bytes();
    let p = e.packed();
    assert(p.subrange(1, 33) =~= e.initializer@);
    assert(p.subrange(33, 65) =~= e.temp_account@);
    assert(p.subrange(65, 97) =~= e.initializer_receive_account@);
    assert(p.subrange(97, 105) =~= spec_u64_to_le_bytes(e.expected_amount));
    lemma_seq_to_array(e.initializer, p.subrange(1, 33));
    lemma_seq_to_array(e.temp_account, p.subrange(33, 65));
    lemma_seq_to_array(e.initializer_receive_account, p.subrange(65, 97));
}

/// The 32-byte array whose elements are `s`.
pub open spec fn seq_to_array(s: Seq<u8>) -> [u8; 32]
    recommends
        s.len() == 32,
{
    choose|a: [u8; 32]| a@ == s
}

proof fn lemma_seq_to_array(a: Address, s: Seq<u8>)
    requires
        a@ == s,
    ensures
        a == (Address { bytes: seq_to_array(s) }),
{
    let c = Address { bytes: seq_to_array(s) };
    assert(c@ == s);
    Address::lemma_view_injective(a, c);
}

fn push_address(out: &mut Vec<u8>, a: &Address)
    ensures
        final(out)@ == old(out)@ + a@,
{
    let mut i: usize = 0;
    while i < 32
        invariant
            i <= 32,
            a@.len() == 32,
            out@ == old(out)@ + a@.subrange(0, i as int),
        decreases 32 - i,
    {
        out.push(a.bytes[i]);
        i = i + 1;
        assert(out@ =~= old(out)@ + a@.subrange(0, i as int));
    }
    assert(a@.subrange(0, 32) =~= a@);
}

fn read_address(src: &[u8], start: usize) -> (r: Address)
    requires
        start + 32 <= src@.len(),
    ensures
        r@ == src@.subrange(start as int, start + 32),
{
    let n = src.len();
    let mut bytes = [0u8; 32];
    let mut i: usize = 0;
    while i < 32
        invariant
            i <= 32,
            start + 32 <= src@.len(),
            n == src@.len(),
            bytes@.len() == 32,
            forall|j: int| 0 <= j < i ==> bytes@[j] == src@[start + j],
        decreases 32 - i,
    {
        bytes[i] = src[start + i];
        i = i + 1;
    }
    let r = Address { bytes };
    assert(r@ =~= src@.subrange(start as int, start + 32));
    r
}

} // verus!
