//! The dispatcher: from an instruction buffer to the handler that its tag
//! selects.

use vstd::prelude::*;
use vstd::slice::slice_subrange;
use crate::account::{views, Account, AccountView, Pubkey};
use crate::error::LedgerError;
use crate::handlers::{
    create_campaign, create_outcome, donate, settled, withdraw, withdraw_outcome,
};
use crate::solvency::{current_rent, RentParams};

verus! {

/// The handler that an instruction selects.
#[derive(Clone, Copy, Debug, PartialEq, Eq, Structural)]
pub enum Opcode {
    CreateCampaign,
    Withdraw,
    Donate,
}

/// The handler that a tag byte selects: 0 creates a campaign, 1 withdraws,
/// 2 donates, and no other byte selects one.
pub open spec fn opcode_of(tag: u8) -> Option<Opcode> {
    if tag == 0 {
        Some(Opcode::CreateCampaign)
    } else if tag == 1 {
        Some(Opcode::Withdraw)
    } else if tag == 2 {
        Some(Opcode::Donate)
    } else {
        None
    }
}

/// An instruction buffer taken apart: the handler that its first byte
/// selects, and the bytes behind it as the handler's payload.
pub open spec fn instruction_of(data: Seq<u8>) -> Result<(Opcode, Seq<u8>), LedgerError> {
    if data.len() == 0 {
        Err(LedgerError::MissingInstructionData)
    } else {
        match opcode_of(data[0]) {
            Some(opcode) => Ok((opcode, data.subrange(1, data.len() as int))),
            None => Err(LedgerError::UnknownInstruction),
        }
    }
}

/// The solvency floor of the first account under a rent configuration, where
/// there is a first account, a configuration, and a floor under it.
pub open spec fn floor_under(rent: Option<RentParams>, accounts: Seq<AccountView>) -> Option<u64> {
    match rent {
        Some(rent) => if accounts.len() > 0 {
            rent.floor(accounts[0].data.len())
        } else {
            None
        },
        None => None,
    }
}

/// What an instruction makes of the accounts under a rent configuration, or
/// why it is rejected. The tag is read before anything else; the payload is
/// the selected handler's to decode. A donation is accepted and changes
/// nothing.
pub open spec fn process_outcome(
    program_id: Seq<u8>,
    accounts: Seq<AccountView>,
    data: Seq<u8>,
    rent: Option<RentParams>,
) -> Result<Seq<AccountView>, LedgerError> {
    match instruction_of(data) {
        Err(e) => Err(e),
        Ok((opcode, payload)) => match opcode {
            Opcode::CreateCampaign => create_outcome(
                program_id,
                accounts,
                payload,
                floor_under(rent, accounts),
            ),
            Opcode::Withdraw => withdraw_outcome(
                program_id,
                accounts,
                payload,
                floor_under(rent, accounts),
            ),
            Opcode::Donate => Ok(accounts),
        },
    }
}

/// Takes an instruction buffer apart into the selected handler and its
/// payload.
pub fn parse_instruction<'a>(data: &'a [u8]) -> (r: Result<(Opcode, &'a [u8]), LedgerError>)
    ensures
        match r {
            Ok((opcode, payload)) => instruction_of(data@) == Ok::<
                (Opcode, Seq<u8>),
                LedgerError,
            >((opcode, payload@)),
            Err(e) => instruction_of(data@) == Err::<(Opcode, Seq<u8>), LedgerError>(e),
        },
{
    if data.len() == 0 {
        return Err(LedgerError::MissingInstructionData);
    }
    let tag = data[0];
    let opcode = if tag == 0 {
        Opcode::CreateCampaign
    } else if tag == 1 {
        Opcode::Withdraw
    } else if tag == 2 {
        Opcode::Donate
    } else {
        return Err(LedgerError::UnknownInstruction);
    };
    Ok((opcode, slice_subrange(data, 1, data.len())))
}

/// Computes the solvency floor of the first account under a rent
/// configuration.
pub fn record_holder_floor(rent: Option<RentParams>, accounts: &Vec<Account>) -> (floor: Option<
    u64,
>)
    ensures
        floor == floor_under(rent, views(accounts@)),
{
    match rent {
        Some(rent) => if accounts.len() > 0 {
            rent.solvency_floor(accounts[0].data.len())
        } else {
            None
        },
        None => None,
    }
}

/// Processes one instruction under a given rent configuration; `None` stands
/// for a runtime that has none to give. A rejection changes nothing.
pub fn process_with_rent(
    program_id: &Pubkey,
    accounts: &mut Vec<Account>,
    instruction_data: &[u8],
    rent: Option<RentParams>,
) -> (r: Result<(), LedgerError>)
    ensures
        settled(
            r,
            final(accounts)@,
            process_outcome(program_id@, views(old(accounts)@), instruction_data@, rent),
        ),
        r is Err ==> final(accounts)@ == old(accounts)@,
        final(accounts)@.len() == old(accounts)@.len(),
        instruction_data@.len() == 0 ==> r == Err::<(), LedgerError>(
            LedgerError::MissingInstructionData,
        ),
        instruction_data@.len() > 0 && instruction_data@[0] != 0 && instruction_data@[0] != 1
            && instruction_data@[0] != 2 ==> r == Err::<(), LedgerError>(
            LedgerError::UnknownInstruction,
        ),
{
    let (opcode, payload) = parse_instruction(instruction_data)?;
    match opcode {
        Opcode::CreateCampaign => {
            let floor = record_holder_floor(rent, accounts);
            create_campaign(program_id, accounts, payload, floor)
        },
        Opcode::Withdraw => {
            let floor = record_holder_floor(rent, accounts);
            withdraw(program_id, accounts, payload, floor)
        },
        Opcode::Donate => donate(program_id, accounts, payload),
    }
}

/// The entry point: processes one instruction under the rent configuration
/// that the runtime has in force. The runtime is asked only where the tag
/// selects a handler that enforces a floor. Whatever it answers, the result
/// is that of [`process_with_rent`] under some configuration or under none,
/// and a rejection changes nothing.
pub fn process_instruction(
    program_id: &Pubkey,
    accounts: &mut Vec<Account>,
    instruction_data: &[u8],
) -> (r: Result<(), LedgerError>)
    ensures
        exists|rent: Option<RentParams>|
            settled(
                r,
                final(accounts)@,
                #[trigger] process_outcome(
                    program_id@,
                    views(old(accounts)@),
                    instruction_data@,
                    rent,
                ),
            ),
        r is Err ==> final(accounts)@ == old(accounts)@,
        final(accounts)@.len() == old(accounts)@.len(),
        instruction_data@.len() == 0 ==> r == Err::<(), LedgerError>(
            LedgerError::MissingInstructionData,
        ),
        instruction_data@.len() > 0 && instruction_data@[0] != 0 && instruction_data@[0] != 1
            && instruction_data@[0] != 2 ==> r == Err::<(), LedgerError>(
            LedgerError::UnknownInstruction,
        ),
{
    let rent = match parse_instruction(instruction_data) {
        Ok((Opcode::CreateCampaign, _)) | Ok((Opcode::Withdraw, _)) => current_rent(),
        _ => None,
    };
    let r = process_with_rent(program_id, accounts, instruction_data, rent);
    assert(settled(
        r,
        accounts@,
        process_outcome(program_id@, views(old(accounts)@), instruction_data@, rent),
    ));
    r
}

} // verus!
