use vstd::prelude::*;
use vstd::bytes::{spec_u64_from_le_bytes, spec_u64_to_le_bytes, u64_from_le_bytes, u64_to_le_bytes};
use vstd::bytes::lemma_auto_spec_u64_to_from_le_bytes;
use vstd::slice::slice_subrange;
use crate::error::EscrowError;
use crate::address::{Address, rent_sysvar_id, token_program_id, rent_sysvar_bytes, token_program_bytes};

verus! {

/// The two requests of the escrow.
#[derive(Clone, Copy, Debug, PartialEq, Eq, Structural)]
pub enum EscrowInstruction {
    /// Opens a trade: creates and fills the escrow record and hands the
    /// custodial token account over to the derived authority.
    ///
    /// Accounts expected:
    ///
    /// 0. `[signer]` The account of the person initializing the escrow
    /// 1. `[writable]` Temporary token account, created beforehand and owned by the initializer
    /// 2. `[]` The initializer's token account for the token they will receive
    /// 3. `[writable]` The escrow account, which holds the record of the trade
    /// 4. `[]` The rent sysvar
    /// 5. `[]` The token program
    InitEscrow {
        /// The amount of token Y that the initializer expects to receive.
        amount: u64,
    },
    /// Accepts a trade.
    ///
    /// Accounts expected:
    ///
    /// 0. `[signer]` The account of the person taking the trade
    /// 1. `[writable]` The taker's token account for the token they send
    /// 2. `[writable]` The taker's token account for the token they receive
    /// 3. `[writable]` The custodial token account to take tokens from and close
    /// 4. `[writable]` The initializer's main account, which gets the rent back
    /// 5. `[writable]` The initializer's token account that receives tokens
    /// 6. `[writable]` The escrow account holding the record
    /// 7. `[]` The token program
    /// 8. `[]` The derived authority
    Exchange {
        /// The amount of token X that the taker expects to be paid.
        amount: u64,
    },
}

/// Wire size of a request: one discriminant byte and a little-endian `u64`.
pub const INSTRUCTION_LEN: usize = 9;

impl EscrowInstruction {
    pub open spec fn tag(self) -> u8 {
        match self {
            EscrowInstruction::InitEscrow { .. } => 0,
            EscrowInstruction::Exchange { .. } => 1,
        }
    }

    pub open spec fn amount(self) -> u64 {
        match self {
            EscrowInstruction::InitEscrow { amount } => amount,
            EscrowInstruction::Exchange { amount } => amount,
        }
    }

    /// The request that a buffer decodes to. Bytes after the ninth are
    /// ignored.
    pub open spec fn decoded(input: Seq<u8>) -> Result<EscrowInstruction, EscrowError> {
        if input.len() < 9 || input[0] > 1 {
            Err(EscrowError::InvalidInstruction)
        } else if input[0] == 0 {
            Ok(EscrowInstruction::InitEscrow { amount: spec_u64_from_le_bytes(input.subrange(1, 9)) })
        } else {
            Ok(EscrowInstruction::Exchange { amount: spec_u64_from_le_bytes(input.subrange(1, 9)) })
        }
    }

    /// The wire form of the request: its tag, then its amount.
    pub open spec fn encoded(self) -> Seq<u8> {
        seq![self.tag()] + spec_u64_to_le_bytes(self.amount())
    }

    /// Unpacks a byte buffer into a request.
    pub fn unpack(input: &[u8]) -> (r: Result<EscrowInstruction, EscrowError>)
        ensures
            r == Self::decoded(input@),
            input@.len() == 0 ==> r == Err::<EscrowInstruction, EscrowError>(
                EscrowError::InvalidInstruction,
            ),
            input@.len() > 0 && input@[0] > 1 ==> r == Err::<EscrowInstruction, EscrowError>(
                EscrowError::InvalidInstruction,
            ),
            input@.len() < 9 ==> r == Err::<EscrowInstruction, EscrowError>(
                EscrowError::InvalidInstruction,
            ),
    {
        if input.len() == 0 {
            return Err(EscrowError::InvalidInstruction);
        }
        let tag = input[0];
        let rest = slice_subrange(input, 1, input.len());
        assert(rest@.subrange(0, 8) =~= input@.subrange(1, 9) || rest@.len() < 8);
        if tag == 0 {
            let amount = Self::unpack_amount(rest)?;
            Ok(EscrowInstruction::InitEscrow { amount })
        } else if tag == 1 {
            let amount = Self::unpack_amount(rest)?;
            Ok(EscrowInstruction::Exchange { amount })
        } else {
            Err(EscrowError::InvalidInstruction)
        }
    }

    /// Reads the little-endian amount from the first eight bytes of `input`.
    pub fn unpack_amount(input: &[u8]) -> (r: Result<u64, EscrowError>)
        ensures
            input@.len() >= 8 ==> r == Ok::<u64, EscrowError>(
                spec_u64_from_le_bytes(input@.subrange(0, 8)),
            ),
            input@.len() < 8 ==> r == Err::<u64, EscrowError>(EscrowError::InvalidInstruction),
    {
        if input.len() < 8 {
            return Err(EscrowError::InvalidInstruction);
        }
        let bytes = slice_subrange(input, 0, 8);
        Ok(u64_from_le_bytes(bytes))
    }

    /// Serializes the request with its own amount; never fails. The
    /// request carries its amount, so `_amount` is not read.
    pub fn serialize(self, _amount: u64) -> (r: Result<Vec<u8>, EscrowError>)
        ensures
            r is Ok,
            r->Ok_0@ == self.encoded(),
            r->Ok_0@.len() == INSTRUCTION_LEN,
    {
        proof {
            lemma_auto_spec_u64_to_from_le_bytes();
        }
        let mut output: Vec<u8> = Vec::with_capacity(INSTRUCTION_LEN);
        let amount = match self {
            EscrowInstruction::InitEscrow { amount } => {
                output.push(0u8);
                amount
            },
            EscrowInstruction::Exchange { amount } => {
                output.push(1u8);
                amount
            },
        };
        let mut le = u64_to_le_bytes(amount);
        output.append(&mut le);
        assert(output@ =~= self.encoded());
        Ok(output)
    }
}

/// Decoding the encoding of a request gives the request back.
pub proof fn lemma_unpack_serialize(ins: EscrowInstruction)
    ensures
        EscrowInstruction::decoded(ins.encoded()) == Ok::<EscrowInstruction, EscrowError>(ins),
{
    lemma_auto_spec_u64_to_from_le_bytes();
    let e = ins.encoded();
    assert(e.subrange(1, 9) =~= spec_u64_to_le_bytes(ins.amount()));
}

/// One account that an instruction names, with how it is used.
#[derive(Clone, Copy, Debug, PartialEq, Eq)]
pub struct AccountMeta {
    pub pubkey: Address,
    pub is_signer: bool,
    pub is_writable: bool,
}

impl AccountMeta {
    pub open spec fn is(self, key: Seq<u8>, is_signer: bool, is_writable: bool) -> bool {
        self.pubkey@ == key && self.is_signer == is_signer && self.is_writable == is_writable
    }
}

/// An instruction for the host: the program to run, its accounts and its
/// request bytes.
#[derive(Clone, Debug, PartialEq, Eq)]
pub struct Instruction {
    pub program_id: Address,
    pub accounts: Vec<AccountMeta>,
    pub data: Vec<u8>,
}

/// Creates an `InitEscrow` instruction.
pub fn initialize(
    program_id: &Address,
    initializer: &Address,
    initializer_send_token_account: &Address,
    initializer_receive_token_account: &Address,
    escrow_account: &Address,
    amount: u64,
) -> (r: Result<Instruction, EscrowError>)
    ensures
        r is Ok,
        r->Ok_0.program_id == *program_id,
        r->Ok_0.data@ == (EscrowInstruction::InitEscrow { amount }).encoded(),
        r->Ok_0.accounts@.len() == 6,
        r->Ok_0.accounts@[0].is(initializer@, true, true),
        r->Ok_0.accounts@[1].is(initializer_send_token_account@, false, true),
        r->Ok_0.accounts@[2].is(initializer_receive_token_account@, false, false),
        r->Ok_0.accounts@[3].is(escrow_account@, false, true),
        r->Ok_0.accounts@[4].is(rent_sysvar_bytes(), false, false),
        r->Ok_0.accounts@[5].is(token_program_bytes(), false, false),
{
    let data = EscrowInstruction::InitEscrow { amount }.serialize(amount)?;
    let accounts = vec![
        AccountMeta { pubkey: *initializer, is_signer: true, is_writable: true },
        AccountMeta { pubkey: *initializer_send_token_account, is_signer: false, is_writable: true },
        AccountMeta { pubkey: *initializer_receive_token_account, is_signer: false, is_writable: false },
        AccountMeta { pubkey: *escrow_account, is_signer: false, is_writable: true },
        AccountMeta { pubkey: rent_sysvar_id(), is_signer: false, is_writable: false },
        AccountMeta { pubkey: token_program_id(), is_signer: false, is_writable: false },
    ];
    Ok(Instruction { program_id: *program_id, accounts, data })
}

} // verus!
