use vstd::prelude::*;
use vstd::bytes::spec_u64_from_le_bytes;
use crate::account::AccountRef;
use crate::error::TransferError;
use crate::instruction::TransferInstruction;

verus! {

/// The transfer the handler asks the host runtime to perform: move
/// `lamports` from the account at address `from` to the account at address
/// `to`.
#[derive(Clone, Copy, Debug, PartialEq, Eq)]
pub struct TransferAction {
    /// Address the lamports leave.
    pub from: [u8; 32],
    /// Address the lamports arrive at.
    pub to: [u8; 32],
    /// The amount moved, in lamports.
    pub lamports: u64,
}

/// What the handler decides for a given account list and payload. The checks
/// are ordered: the account list is inspected first, then the payload's
/// shape, then the balance. The third account is only required to be present
/// — it stands for the system program, which the delegated primitive needs
/// listed, and is never read.
pub open spec fn handler_outcome(accounts: Seq<AccountRef>, payload: Seq<u8>) -> Result<
    TransferAction,
    TransferError,
> {
    if accounts.len() < 3 {
        Err(TransferError::MissingAccount)
    } else if payload.len() != 8 {
        Err(TransferError::MalformedInstruction)
    } else if accounts[0].lamports < spec_u64_from_le_bytes(payload) {
        Err(TransferError::InsufficientFunds)
    } else {
        Ok(
            TransferAction {
                from: accounts[0].key,
                to: accounts[1].key,
                lamports: spec_u64_from_le_bytes(payload),
            },
        )
    }
}

/// The instruction handler's decision. It extracts source, destination and
/// the system-program reference positionally, decodes the payload into the
/// requested amount, and checks the source balance; on success it returns the
/// transfer to delegate to the host runtime. It mutates nothing itself.
pub fn process_instruction(accounts: &[AccountRef], instruction_data: &[u8]) -> (r: Result<
    TransferAction,
    TransferError,
>)
    ensures
        r == handler_outcome(accounts@, instruction_data@),
{
    if accounts.len() < 3 {
        return Err(TransferError::MissingAccount);
    }
    let request = match TransferInstruction::try_from_slice(instruction_data) {
        Ok(request) => request,
        Err(e) => {
            return Err(e);
        },
    };
    let source = accounts[0];
    let destination = accounts[1];
    if source.lamports < request.lamports {
        return Err(TransferError::InsufficientFunds);
    }
    Ok(TransferAction { from: source.key, to: destination.key, lamports: request.lamports })
}

/// What the host's native transfer primitive does to the two accounts it is
/// given: on success the source is debited and the destination credited by
/// exactly the amount; it fails — leaving both untouched — when the source
/// cannot cover the amount or the destination balance would overflow.
pub open spec fn transfer_outcome(
    source: AccountRef,
    destination: AccountRef,
    lamports: u64,
) -> Result<(AccountRef, AccountRef), TransferError> {
    if source.lamports < lamports || destination.lamports + lamports > u64::MAX {
        Err(TransferError::DelegatedTransferFailed)
    } else {
        Ok(
            (
                AccountRef { key: source.key, lamports: (source.lamports - lamports) as u64 },
                AccountRef {
                    key: destination.key,
                    lamports: (destination.lamports + lamports) as u64,
                },
            ),
        )
    }
}

/// An executable model of the host's native transfer primitive, for running
/// the handler's decision against an in-memory ledger where no host runtime
/// is present. It debits `source` and credits `destination` atomically: on
/// any failure neither account changes.
pub fn execute_transfer(
    source: &mut AccountRef,
    destination: &mut AccountRef,
    lamports: u64,
) -> (r: Result<(), TransferError>)
    ensures
        (match transfer_outcome(*old(source), *old(destination), lamports) {
            Ok(updated) => {
                &&& r is Ok
                &&& *final(source) == updated.0
                &&& *final(destination) == updated.1
            },
            Err(e) => {
                &&& r == Err::<(), TransferError>(e)
                &&& *final(source) == *old(source)
                &&& *final(destination) == *old(destination)
            },
        }),
{
    if source.lamports < lamports {
        return Err(TransferError::DelegatedTransferFailed);
    }
    if lamports > u64::MAX - destination.lamports {
        return Err(TransferError::DelegatedTransferFailed);
    }
    source.lamports = source.lamports - lamports;
    destination.lamports = destination.lamports + lamports;
    Ok(())
}

/// Sufficient funds are accepted: whenever at least three accounts are
/// supplied, the payload is eight bytes, and the decoded amount is within the
/// source balance, the handler succeeds, and the action it delegates moves
/// exactly the decoded amount from the source's address to the destination's.
pub proof fn lemma_sufficient_funds_accepted(accounts: Seq<AccountRef>, payload: Seq<u8>)
    requires
        accounts.len() >= 3,
        payload.len() == 8,
        spec_u64_from_le_bytes(payload) <= accounts[0].lamports,
    ensures
        ({
            let r = handler_outcome(accounts, payload);
            r matches Ok(action) && action.from == accounts[0].key && action.to == accounts[1].key
                && action.lamports == spec_u64_from_le_bytes(payload)
        }),
{
}

/// Conservation: when the host transfer succeeds, the source balance falls
/// by exactly the amount, the destination balance rises by exactly the
/// amount, and the total over the two accounts is unchanged. (A destination
/// balance that the credit would overflow is excluded: the host primitive
/// fails on it rather than transferring.)
pub proof fn lemma_transfer_conserves_total(
    source: AccountRef,
    destination: AccountRef,
    lamports: u64,
)
    requires
        lamports <= source.lamports,
        destination.lamports + lamports <= u64::MAX,
    ensures
        ({
            let r = transfer_outcome(source, destination, lamports);
            r matches Ok(updated) && updated.0.lamports == source.lamports - lamports
                && updated.1.lamports == destination.lamports + lamports && updated.0.lamports
                + updated.1.lamports == source.lamports + destination.lamports
        }),
{
}

/// Insufficient funds are rejected: whenever the decoded amount exceeds the
/// source balance, the handler fails with `InsufficientFunds`. The handler
/// never issues the delegated transfer on this path and holds the accounts
/// immutably, so neither balance can change.
pub proof fn lemma_insufficient_funds_rejected(accounts: Seq<AccountRef>, payload: Seq<u8>)
    requires
        accounts.len() >= 3,
        payload.len() == 8,
        spec_u64_from_le_bytes(payload) > accounts[0].lamports,
    ensures
        handler_outcome(accounts, payload) == Err::<TransferAction, TransferError>(
            TransferError::InsufficientFunds,
        ),
{
}

/// A payload of any length other than eight bytes is rejected as malformed,
/// whatever its contents and whatever the balances.
pub proof fn lemma_malformed_payload_rejected(accounts: Seq<AccountRef>, payload: Seq<u8>)
    requires
        accounts.len() >= 3,
        payload.len() != 8,
    ensures
        handler_outcome(accounts, payload) == Err::<TransferAction, TransferError>(
            TransferError::MalformedInstruction,
        ),
{
}

/// An account list with fewer than three entries is rejected before anything
/// else is looked at, whatever the payload.
pub proof fn lemma_missing_account_rejected(accounts: Seq<AccountRef>, payload: Seq<u8>)
    requires
        accounts.len() < 3,
    ensures
        handler_outcome(accounts, payload) == Err::<TransferAction, TransferError>(
            TransferError::MissingAccount,
        ),
{
}

} // verus!
