use vstd::prelude::*;
use crate::address::{Address, derive_authority, program_address_of};
use crate::error::EscrowError;
use crate::state::Escrow;

verus! {

/// A party to a request: its address and whether it signed the request.
#[derive(Clone, Copy, Debug, PartialEq, Eq)]
pub struct Party {
    pub key: Address,
    pub is_signer: bool,
}

/// A token account as the token ledger holds it.
#[derive(Clone, Copy, Debug, PartialEq, Eq)]
pub struct TokenAccount {
    pub key: Address,
    /// The party that may move the account's tokens.
    pub authority: Address,
    /// The tokens it holds.
    pub amount: u64,
}

/// The account that stores an escrow record, with the record it holds.
#[derive(Clone, Copy, Debug, PartialEq, Eq)]
pub struct RecordAccount {
    pub key: Address,
    /// The account's balance, which pays for its storage.
    pub lamports: u64,
    pub record: Escrow,
}

/// One effect that the host's token ledger and storage carry out.
#[derive(Clone, Copy, Debug, PartialEq, Eq)]
pub enum Action {
    /// Move `amount` tokens from `source` to `destination`, authorised by `authority`.
    Transfer { source: Address, destination: Address, authority: Address, amount: u64 },
    /// Give the authority over `account` from `current_authority` to `new_authority`.
    SetAuthority { account: Address, current_authority: Address, new_authority: Address },
    /// Close the token account `account`, its storage reserve going to `destination`.
    CloseAccount { account: Address, destination: Address, authority: Address },
    /// Delete the record stored in `record`, its storage reserve going to `destination`.
    CloseRecord { record: Address, destination: Address },
}

/// The outcome of a request that passed every check: the record as it
/// stands afterwards (`None` once deleted) and the effects, to be applied
/// together or not at all.
#[derive(Clone, Debug, PartialEq, Eq)]
pub struct Transition {
    pub record: Option<Escrow>,
    pub actions: Vec<Action>,
    /// The bump seed with which the derived authority signs, where it signs.
    pub authority_bump: Option<u8>,
}

/// The custody authority that `seed` and `program_id` derive.
pub open spec fn authority_of(program_id: Seq<u8>, seed: Seq<u8>) -> Seq<u8> {
    program_address_of(seed, program_id)->Some_0.0
}

pub open spec fn is_transfer(
    a: Action,
    source: Seq<u8>,
    destination: Seq<u8>,
    authority: Seq<u8>,
    amount: u64,
) -> bool {
    a matches Action::Transfer { source: s, destination: d, authority: au, amount: n } && s@ == source
        && d@ == destination && au@ == authority && n == amount
}

pub open spec fn is_set_authority(
    a: Action,
    account: Seq<u8>,
    current_authority: Seq<u8>,
    new_authority: Seq<u8>,
) -> bool {
    a matches Action::SetAuthority { account: k, current_authority: c, new_authority: n } && k@
        == account && c@ == current_authority && n@ == new_authority
}

pub open spec fn is_close_account(
    a: Action,
    account: Seq<u8>,
    destination: Seq<u8>,
    authority: Seq<u8>,
) -> bool {
    a matches Action::CloseAccount { account: k, destination: d, authority: au } && k@ == account
        && d@ == destination && au@ == authority
}

pub open spec fn is_close_record(a: Action, record: Seq<u8>, destination: Seq<u8>) -> bool {
    a matches Action::CloseRecord { record: k, destination: d } && k@ == record && d@ == destination
}

/// The first precondition of opening a trade that fails, if any. A custodial
/// account whose authority is not the initializer is a binding failure.
pub open spec fn open_failure(
    program_id: Address,
    seed: Seq<u8>,
    initializer: Party,
    temp_account: TokenAccount,
    escrow: RecordAccount,
    rent_minimum: u64,
) -> Option<EscrowError> {
    if !initializer.is_signer {
        Some(EscrowError::MissingRequiredSignature)
    } else if temp_account.authority@ != initializer.key@ {
        Some(EscrowError::InvalidAccountBinding)
    } else if escrow.lamports < rent_minimum {
        Some(EscrowError::NotRentExempt)
    } else if escrow.record.is_initialized {
        Some(EscrowError::AlreadyInitialized)
    } else if program_address_of(seed, program_id@) is None {
        Some(EscrowError::InvalidSeeds)
    } else {
        None
    }
}

/// The first precondition of settling a trade that fails, if any. The
/// custodial balance must equal both the requested and the expected amount
/// exactly: a larger balance is a mismatch too.
pub open spec fn exchange_failure(
    program_id: Address,
    seed: Seq<u8>,
    taker: Party,
    temp_account: TokenAccount,
    initializer: Address,
    initializer_receive_account: Address,
    escrow: RecordAccount,
    amount: u64,
) -> Option<EscrowError> {
    let rec = escrow.record;
    if !taker.is_signer {
        Some(EscrowError::MissingRequiredSignature)
    } else if !rec.is_initialized {
        Some(EscrowError::NotInitialized)
    } else if temp_account.key@ != rec.temp_account@ || initializer@ != rec.initializer@
        || initializer_receive_account@ != rec.initializer_receive_account@ {
        Some(EscrowError::InvalidAccountBinding)
    } else if temp_account.amount != amount || temp_account.amount != rec.expected_amount {
        Some(EscrowError::ExpectedAmountMismatch)
    } else if program_address_of(seed, program_id@) is None {
        Some(EscrowError::InvalidSeeds)
    } else {
        None
    }
}

/// An open request against a record that is already open fails with
/// `AlreadyInitialized` once the signature, custody and rent checks pass;
/// it never succeeds, so the stored record stays as it was.
pub proof fn lemma_no_second_open(
    program_id: Address,
    seed: Seq<u8>,
    initializer: Party,
    temp_account: TokenAccount,
    escrow: RecordAccount,
    rent_minimum: u64,
)
    requires
        escrow.record.is_initialized,
    ensures
        open_failure(program_id, seed, initializer, temp_account, escrow, rent_minimum) is Some,
        initializer.is_signer && temp_account.authority@ == initializer.key@ && escrow.lamports
            >= rent_minimum ==> open_failure(
            program_id,
            seed,
            initializer,
            temp_account,
            escrow,
            rent_minimum,
        ) == Some(EscrowError::AlreadyInitialized),
{
}

/// A settle request against a custodial balance other than the record's
/// expected amount fails with `ExpectedAmountMismatch` once the signature,
/// state and binding checks pass, so no balance moves.
pub proof fn lemma_amount_mismatch_fails(
    program_id: Address,
    seed: Seq<u8>,
    taker: Party,
    temp_account: TokenAccount,
    initializer: Address,
    initializer_receive_account: Address,
    escrow: RecordAccount,
    amount: u64,
)
    requires
        temp_account.amount != escrow.record.expected_amount,
        taker.is_signer,
        escrow.record.is_initialized,
        temp_account.key@ == escrow.record.temp_account@,
        initializer@ == escrow.record.initializer@,
        initializer_receive_account@ == escrow.record.initializer_receive_account@,
    ensures
        exchange_failure(
            program_id,
            seed,
            taker,
            temp_account,
            initializer,
            initializer_receive_account,
            escrow,
            amount,
        ) == Some(EscrowError::ExpectedAmountMismatch),
{
}

/// A settle request whose receive account is not the one the record is
/// bound to fails with `InvalidAccountBinding` once the signature and state
/// checks pass, so no balance moves.
pub proof fn lemma_wrong_receive_account_fails(
    program_id: Address,
    seed: Seq<u8>,
    taker: Party,
    temp_account: TokenAccount,
    initializer: Address,
    initializer_receive_account: Address,
    escrow: RecordAccount,
    amount: u64,
)
    requires
        initializer_receive_account@ != escrow.record.initializer_receive_account@,
        taker.is_signer,
        escrow.record.is_initialized,
    ensures
        exchange_failure(
            program_id,
            seed,
            taker,
            temp_account,
            initializer,
            initializer_receive_account,
            escrow,
            amount,
        ) == Some(EscrowError::InvalidAccountBinding),
{
}

/// A trade that opened can be settled: a signed settle request that names
/// the accounts the open recorded, against a custodial balance and a
/// requested amount both equal to the expected amount, passes every check.
pub proof fn lemma_opened_trade_settles(
    program_id: Address,
    seed: Seq<u8>,
    initializer: Party,
    temp_account: TokenAccount,
    initializer_receive_account: Address,
    escrow: RecordAccount,
    rent_minimum: u64,
    expected_amount: u64,
    taker: Party,
    custody: TokenAccount,
    stored: RecordAccount,
)
    requires
        open_failure(program_id, seed, initializer, temp_account, escrow, rent_minimum) is None,
        stored.record == (Escrow {
            is_initialized: true,
            initializer: initializer.key,
            temp_account: temp_account.key,
            initializer_receive_account,
            expected_amount,
        }),
        taker.is_signer,
        custody.key == temp_account.key,
        custody.amount == expected_amount,
    ensures
        exchange_failure(
            program_id,
            seed,
            taker,
            custody,
            initializer.key,
            initializer_receive_account,
            stored,
            expected_amount,
        ) is None,
{
}

/// Once a trade is settled its record is gone: a signed settle request
/// against a record account that holds no open record fails with
/// `NotInitialized`, so a trade settles at most once.
pub proof fn lemma_settled_trade_stays_closed(
    program_id: Address,
    seed: Seq<u8>,
    taker: Party,
    temp_account: TokenAccount,
    initializer: Address,
    initializer_receive_account: Address,
    escrow: RecordAccount,
    amount: u64,
)
    requires
        taker.is_signer,
        !escrow.record.is_initialized,
    ensures
        exchange_failure(
            program_id,
            seed,
            taker,
            temp_account,
            initializer,
            initializer_receive_account,
            escrow,
            amount,
        ) == Some(EscrowError::NotInitialized),
{
}

/// Opens a trade: records it in `escrow` and hands the custodial account
/// over to the derived authority. `rent_minimum` is the balance that the
/// record account needs to stay rent exempt.
pub fn process_init_escrow(
    program_id: &Address,
    seed: &[u8],
    initializer: &Party,
    temp_account: &TokenAccount,
    initializer_receive_account: &Address,
    escrow: &RecordAccount,
    rent_minimum: u64,
    expected_amount: u64,
) -> (r: Result<Transition, EscrowError>)
    ensures
        open_failure(*program_id, seed@, *initializer, *temp_account, *escrow, rent_minimum) matches Some(e)
            ==> r == Err::<Transition, EscrowError>(e),
        open_failure(*program_id, seed@, *initializer, *temp_account, *escrow, rent_minimum) is None
            ==> {
            &&& r is Ok
            &&& r->Ok_0.record == Some(
                Escrow {
                    is_initialized: true,
                    initializer: initializer.key,
                    temp_account: temp_account.key,
                    initializer_receive_account: *initializer_receive_account,
                    expected_amount,
                },
            )
            &&& r->Ok_0.actions@.len() == 1
            &&& is_set_authority(
                r->Ok_0.actions@[0],
                temp_account.key@,
                initializer.key@,
                authority_of(program_id@, seed@),
            )
            &&& r->Ok_0.authority_bump is None
        },
{
    if !initializer.is_signer {
        return Err(EscrowError::MissingRequiredSignature);
    }
    if !temp_account.authority.same_as(&initializer.key) {
        return Err(EscrowError::InvalidAccountBinding);
    }
    if escrow.lamports < rent_minimum {
        return Err(EscrowError::NotRentExempt);
    }
    if escrow.record.is_initialized {
        return Err(EscrowError::AlreadyInitialized);
    }
    let (authority, _bump) = derive_authority(program_id, seed)?;
    let record = Escrow {
        is_initialized: true,
        initializer: initializer.key,
        temp_account: temp_account.key,
        initializer_receive_account: *initializer_receive_account,
        expected_amount,
    };
    let actions = vec![
        Action::SetAuthority {
            account: temp_account.key,
            current_authority: initializer.key,
            new_authority: authority,
        },
    ];
    Ok(Transition { record: Some(record), actions, authority_bump: None })
}

/// Settles a trade: the taker's token Y goes to the initializer, the
/// custodial token X to the taker, and the custodial account and the
/// record are closed, their storage reserve going to the initializer.
pub fn process_exchange(
    program_id: &Address,
    seed: &[u8],
    taker: &Party,
    taker_send_account: &Address,
    taker_receive_account: &Address,
    temp_account: &TokenAccount,
    initializer: &Address,
    initializer_receive_account: &Address,
    escrow: &RecordAccount,
    amount: u64,
) -> (r: Result<Transition, EscrowError>)
    ensures
        exchange_failure(
            *program_id,
            seed@,
            *taker,
            *temp_account,
            *initializer,
            *initializer_receive_account,
            *escrow,
            amount,
        ) matches Some(e) ==> r == Err::<Transition, EscrowError>(e),
        exchange_failure(
            *program_id,
            seed@,
            *taker,
            *temp_account,
            *initializer,
            *initializer_receive_account,
            *escrow,
            amount,
        ) is None ==> {
            let pda = authority_of(program_id@, seed@);
            &&& r is Ok
            &&& r->Ok_0.record is None
            &&& r->Ok_0.actions@.len() == 4
            &&& is_transfer(
                r->Ok_0.actions@[0],
                taker_send_account@,
                initializer_receive_account@,
                taker.key@,
                escrow.record.expected_amount,
            )
            &&& is_transfer(
                r->Ok_0.actions@[1],
                temp_account.key@,
                taker_receive_account@,
                pda,
                temp_account.amount,
            )
            &&& is_close_account(r->Ok_0.actions@[2], temp_account.key@, initializer@, pda)
            &&& is_close_record(r->Ok_0.actions@[3], escrow.key@, initializer@)
            &&& r->Ok_0.authority_bump == Some(program_address_of(seed@, program_id@)->Some_0.1)
        },
{
    let rec = &escrow.record;
    if !taker.is_signer {
        return Err(EscrowError::MissingRequiredSignature);
    }
    if !rec.is_initialized {
        return Err(EscrowError::NotInitialized);
    }
    if !temp_account.key.same_as(&rec.temp_account) || !initializer.same_as(&rec.initializer)
        || !initializer_receive_account.same_as(&rec.initializer_receive_account) {
        return Err(EscrowError::InvalidAccountBinding);
    }
    if temp_account.amount != amount || temp_account.amount != rec.expected_amount {
        return Err(EscrowError::ExpectedAmountMismatch);
    }
    let (authority, bump) = derive_authority(program_id, seed)?;
    let actions = vec![
        Action::Transfer {
            source: *taker_send_account,
            destination: *initializer_receive_account,
            authority: taker.key,
            amount: rec.expected_amount,
        },
        Action::Transfer {
            source: temp_account.key,
            destination: *taker_receive_account,
            authority,
            amount: temp_account.amount,
        },
        Action::CloseAccount { account: temp_account.key, destination: *initializer, authority },
        Action::CloseRecord { record: escrow.key, destination: *initializer },
    ];
    Ok(Transition { record: None, actions, authority_bump: Some(bump) })
}

} // verus!
