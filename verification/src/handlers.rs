//! The three handlers: what each makes of the accounts, and the code that
//! does it.

use vstd::prelude::*;
use crate::account::{
    require_accounts, require_admin, require_owner, require_signer, views, Account, AccountView,
    Pubkey,
};
use crate::codec::{
    amount_of, encode_record, lemma_counter_keeps_length, record_of, CampaignRecord,
    CampaignRecordView, DonationRequest, WithdrawRequest,
};
use crate::error::LedgerError;
use crate::solvency::{check_creation, check_withdrawal, creation_solvent, withdrawal_solvent};

verus! {

/// A data buffer after `bytes` were written over its front. The buffer keeps
/// its length and what lies behind the bytes written.
pub open spec fn overwritten(data: Seq<u8>, bytes: Seq<u8>) -> Seq<u8> {
    bytes + data.subrange(bytes.len() as int, data.len() as int)
}

/// An account with another data buffer.
pub open spec fn with_data(account: AccountView, data: Seq<u8>) -> AccountView {
    AccountView { data, ..account }
}

/// An account after `amount` was added to its balance.
pub open spec fn credited(account: AccountView, amount: nat) -> AccountView {
    AccountView { lamports: account.lamports + amount, ..account }
}

/// An account after `amount` was taken from its balance, which covers it.
pub open spec fn debited(account: AccountView, amount: nat) -> AccountView {
    AccountView { lamports: (account.lamports - amount) as nat, ..account }
}

/// Whether a handler's result and the accounts as it left them are what an
/// outcome says: on success the accounts are those of the outcome, on
/// rejection the error is that of the outcome.
pub open spec fn settled(
    r: Result<(), LedgerError>,
    after: Seq<Account>,
    outcome: Result<Seq<AccountView>, LedgerError>,
) -> bool {
    match r {
        Ok(()) => outcome == Ok::<Seq<AccountView>, LedgerError>(views(after)),
        Err(e) => outcome == Err::<Seq<AccountView>, LedgerError>(e),
    }
}

/// What creating a campaign makes of the accounts, or why it is rejected.
///
/// The first account is to hold the record, the second is the creator. The
/// checks come in this order, and the first that fails decides: two accounts
/// are there; the creator signed; the program owns the first account; the
/// payload encodes a record; the record's admin is the creator; a floor is
/// known; the first account's balance reaches it; the record fits the first
/// account's buffer. Then the record is written over the front of that
/// buffer with its counter at zero, whatever the payload held there.
pub open spec fn create_outcome(
    program_id: Seq<u8>,
    accounts: Seq<AccountView>,
    payload: Seq<u8>,
    floor: Option<u64>,
) -> Result<Seq<AccountView>, LedgerError> {
    if accounts.len() < 2 {
        Err(LedgerError::MissingAccount)
    } else if !accounts[1].is_signer {
        Err(LedgerError::MissingSigner)
    } else if accounts[0].owner != program_id {
        Err(LedgerError::WrongAccountOwner)
    } else {
        match record_of(payload) {
            None => Err(LedgerError::MalformedRecord),
            Some(record) => {
                if record.admin != accounts[1].key {
                    Err(LedgerError::Unauthorized)
                } else {
                    match floor {
                        None => Err(LedgerError::FloorUnavailable),
                        Some(floor) => {
                            let stored = encode_record(record.zeroed());
                            if !creation_solvent(accounts[0].lamports, floor as nat) {
                                Err(LedgerError::InsufficientFunds)
                            } else if stored.len() > accounts[0].data.len() {
                                Err(LedgerError::RecordTooLarge)
                            } else {
                                Ok(
                                    accounts.update(
                                        0,
                                        with_data(
                                            accounts[0],
                                            overwritten(accounts[0].data, stored),
                                        ),
                                    ),
                                )
                            }
                        },
                    }
                }
            },
        }
    }
}

/// What a withdrawal makes of the accounts, or why it is rejected.
///
/// The first account holds the record, the second is the admin. The checks
/// come in this order, and the first that fails decides: two accounts are
/// there; the program owns the first account; the admin signed; the first
/// account's buffer encodes a record; the record's admin is the second
/// account; the payload encodes an amount; a floor is known; what the first
/// account holds above the floor covers the amount; the admin's balance can
/// take the amount. Then the amount moves from the first account's balance
/// to the admin's, and nothing else changes.
pub open spec fn withdraw_outcome(
    program_id: Seq<u8>,
    accounts: Seq<AccountView>,
    payload: Seq<u8>,
    floor: Option<u64>,
) -> Result<Seq<AccountView>, LedgerError> {
    if accounts.len() < 2 {
        Err(LedgerError::MissingAccount)
    } else if accounts[0].owner != program_id {
        Err(LedgerError::WrongAccountOwner)
    } else if !accounts[1].is_signer {
        Err(LedgerError::MissingSigner)
    } else {
        match record_of(accounts[0].data) {
            None => Err(LedgerError::MalformedRecord),
            Some(record) => {
                if record.admin != accounts[1].key {
                    Err(LedgerError::Unauthorized)
                } else {
                    match amount_of(payload) {
                        None => Err(LedgerError::MalformedRecord),
                        Some(amount) => match floor {
                            None => Err(LedgerError::FloorUnavailable),
                            Some(floor) => {
                                if !withdrawal_solvent(
                                    accounts[0].lamports,
                                    floor as nat,
                                    amount as nat,
                                ) {
                                    Err(LedgerError::InsufficientFunds)
                                } else if accounts[1].lamports + amount > u64::MAX {
                                    Err(LedgerError::Overflow)
                                } else {
                                    Ok(
                                        accounts.update(
                                            0,
                                            debited(accounts[0], amount as nat),
                                        ).update(1, credited(accounts[1], amount as nat)),
                                    )
                                }
                            },
                        },
                    }
                }
            },
        }
    }
}

/// What a donation that moves value makes of the accounts, or why it is
/// rejected.
///
/// The first account holds the record, the second is the donor. The checks
/// come in this order, and the first that fails decides: two accounts are
/// there; the program owns the first account; the donor signed; the first
/// account's buffer encodes a record; the payload encodes an amount; the
/// donor's balance covers it; the first account's balance can take it; the
/// record's counter can take it. Then the amount moves from the donor's
/// balance to the first account's, and the record's counter grows by it.
pub open spec fn donation_outcome(
    program_id: Seq<u8>,
    accounts: Seq<AccountView>,
    payload: Seq<u8>,
) -> Result<Seq<AccountView>, LedgerError> {
    if accounts.len() < 2 {
        Err(LedgerError::MissingAccount)
    } else if accounts[0].owner != program_id {
        Err(LedgerError::WrongAccountOwner)
    } else if !accounts[1].is_signer {
        Err(LedgerError::MissingSigner)
    } else {
        match record_of(accounts[0].data) {
            None => Err(LedgerError::MalformedRecord),
            Some(record) => match amount_of(payload) {
                None => Err(LedgerError::MalformedRecord),
                Some(amount) => {
                    if accounts[1].lamports < amount {
                        Err(LedgerError::InsufficientFunds)
                    } else if accounts[0].lamports + amount > u64::MAX {
                        Err(LedgerError::Overflow)
                    } else if record.amount_donated + amount > u64::MAX {
                        Err(LedgerError::Overflow)
                    } else {
                        let counted = CampaignRecordView {
                            amount_donated: (record.amount_donated + amount) as u64,
                            ..record
                        };
                        Ok(
                            accounts.update(
                                0,
                                with_data(
                                    credited(accounts[0], amount as nat),
                                    encode_record(counted),
                                ),
                            ).update(1, debited(accounts[1], amount as nat)),
                        )
                    }
                },
            },
        }
    }
}

/// Writes `bytes` over the front of `data`.
fn overwrite(data: &mut Vec<u8>, bytes: &Vec<u8>)
    requires
        bytes.len() <= old(data).len(),
    ensures
        final(data)@ == overwritten(old(data)@, bytes@),
{
    let mut i: usize = 0;
    while i < bytes.len()
        invariant
            i <= bytes.len() <= data.len(),
            data.len() == old(data).len(),
            forall|j: int| 0 <= j < i ==> data@[j] == bytes@[j],
            forall|j: int| i <= j < data.len() ==> data@[j] == old(data)@[j],
        decreases bytes.len() - i,
    {
        data[i] = bytes[i];
        i += 1;
    }
    assert(data@ =~= overwritten(old(data)@, bytes@));
}

/// Creates a campaign in the first account for the creator in the second.
/// `floor` is the solvency floor of the first account at the length of its
/// data buffer, where one is known. A rejection changes nothing.
pub fn create_campaign(
    program_id: &Pubkey,
    accounts: &mut Vec<Account>,
    payload: &[u8],
    floor: Option<u64>,
) -> (r: Result<(), LedgerError>)
    ensures
        settled(
            r,
            final(accounts)@,
            create_outcome(program_id@, views(old(accounts)@), payload@, floor),
        ),
        r is Err ==> final(accounts)@ == old(accounts)@,
        final(accounts)@.len() == old(accounts)@.len(),
{
    require_accounts(accounts, 2)?;
    require_signer(&accounts[1])?;
    require_owner(&accounts[0], program_id)?;
    let mut record = CampaignRecord::decode(payload)?;
    require_admin(&accounts[1], &record.admin)?;
    let floor = match floor {
        Some(floor) => floor,
        None => return Err(LedgerError::FloorUnavailable),
    };
    check_creation(accounts[0].lamports, floor)?;
    record.amount_donated = 0;
    let stored = record.encode()?;
    if stored.len() > accounts[0].data.len() {
        return Err(LedgerError::RecordTooLarge);
    }
    overwrite(&mut accounts[0].data, &stored);
    assert(views(accounts@) =~= views(old(accounts)@).update(
        0,
        with_data(views(old(accounts)@)[0], overwritten(old(accounts)@[0].data@, stored@)),
    ));
    Ok(())
}

/// Moves the amount that the payload names from the campaign in the first
/// account to its admin in the second. `floor` is the solvency floor of the
/// first account at the length of its data buffer, where one is known. A
/// rejection changes nothing.
pub fn withdraw(
    program_id: &Pubkey,
    accounts: &mut Vec<Account>,
    payload: &[u8],
    floor: Option<u64>,
) -> (r: Result<(), LedgerError>)
    ensures
        settled(
            r,
            final(accounts)@,
            withdraw_outcome(program_id@, views(old(accounts)@), payload@, floor),
        ),
        r is Err ==> final(accounts)@ == old(accounts)@,
        final(accounts)@.len() == old(accounts)@.len(),
{
    require_accounts(accounts, 2)?;
    require_owner(&accounts[0], program_id)?;
    require_signer(&accounts[1])?;
    let record = CampaignRecord::decode(accounts[0].data.as_slice())?;
    require_admin(&accounts[1], &record.admin)?;
    let request = WithdrawRequest::decode(payload)?;
    let floor = match floor {
        Some(floor) => floor,
        None => return Err(LedgerError::FloorUnavailable),
    };
    check_withdrawal(accounts[0].lamports, floor, request.amount)?;
    let credited_balance = match accounts[1].lamports.checked_add(request.amount) {
        Some(balance) => balance,
        None => return Err(LedgerError::Overflow),
    };
    accounts[0].lamports = accounts[0].lamports - request.amount;
    accounts[1].lamports = credited_balance;
    assert(views(accounts@) =~= views(old(accounts)@).update(
        0,
        debited(views(old(accounts)@)[0], request.amount as nat),
    ).update(1, credited(views(old(accounts)@)[1], request.amount as nat)));
    Ok(())
}

/// Accepts a donation instruction and changes nothing: no value moves and no
/// counter grows. The transition that does both is [`apply_donation`].
pub fn donate(_program_id: &Pubkey, accounts: &mut Vec<Account>, _payload: &[u8]) -> (r: Result<
    (),
    LedgerError,
>)
    ensures
        r is Ok,
        final(accounts)@ == old(accounts)@,
{
    Ok(())
}

/// Moves the amount that the payload names from the donor in the second
/// account to the campaign in the first, and adds it to the campaign's
/// counter. Any signer may donate. A rejection changes nothing.
pub fn apply_donation(program_id: &Pubkey, accounts: &mut Vec<Account>, payload: &[u8]) -> (r:
    Result<(), LedgerError>)
    ensures
        settled(
            r,
            final(accounts)@,
            donation_outcome(program_id@, views(old(accounts)@), payload@),
        ),
        r is Err ==> final(accounts)@ == old(accounts)@,
        final(accounts)@.len() == old(accounts)@.len(),
{
    require_accounts(accounts, 2)?;
    require_owner(&accounts[0], program_id)?;
    require_signer(&accounts[1])?;
    let mut record = CampaignRecord::decode(accounts[0].data.as_slice())?;
    let request = DonationRequest::decode(payload)?;
    if accounts[1].lamports < request.amount {
        return Err(LedgerError::InsufficientFunds);
    }
    let credited_balance = match accounts[0].lamports.checked_add(request.amount) {
        Some(balance) => balance,
        None => return Err(LedgerError::Overflow),
    };
    let counted = match record.amount_donated.checked_add(request.amount) {
        Some(counted) => counted,
        None => return Err(LedgerError::Overflow),
    };
    let ghost before = record@;
    record.amount_donated = counted;
    let stored = record.encode()?;
    proof {
        lemma_counter_keeps_length(before, counted);
    }
    overwrite(&mut accounts[0].data, &stored);
    accounts[0].lamports = credited_balance;
    accounts[1].lamports = accounts[1].lamports - request.amount;
    assert(accounts@[0].data@ =~= stored@);
    assert(views(accounts@) =~= views(old(accounts)@).update(
        0,
        with_data(credited(views(old(accounts)@)[0], request.amount as nat), stored@),
    ).update(1, debited(views(old(accounts)@)[1], request.amount as nat)));
    Ok(())
}

} // verus!
