//! What holds of the handlers for every input, proved from what they are
//! stated to do.

use vstd::prelude::*;
use crate::account::{total_lamports, AccountView};
use crate::codec::{
    amount_of, encode_record, lemma_counter_keeps_length, lemma_record_of_encoding, record_of,
    CampaignRecordView,
};
use crate::error::LedgerError;
use crate::handlers::{
    create_outcome, credited, debited, donation_outcome, with_data, withdraw_outcome,
};
use crate::processor::{floor_under, instruction_of, process_outcome, Opcode};
use crate::solvency::{withdrawal_solvent, RentParams};

verus! {

/// Putting another account in one place of a list changes the sum of the
/// balances by the difference between the two.
pub proof fn lemma_total_after_update(accounts: Seq<AccountView>, i: int, account: AccountView)
    requires
        0 <= i < accounts.len(),
    ensures
        total_lamports(accounts.update(i, account)) + accounts[i].lamports == total_lamports(
            accounts,
        ) + account.lamports,
    decreases accounts.len(),
{
    let updated = accounts.update(i, account);
    if i == accounts.len() - 1 {
        assert(updated.drop_last() =~= accounts.drop_last());
    } else {
        assert(updated.drop_last() =~= accounts.drop_last().update(i, account));
        lemma_total_after_update(accounts.drop_last(), i, account);
    }
}

/// Creating a campaign succeeds exactly when the creator signed, the program
/// owns the record-holding account, the payload names the creator as admin,
/// and the balance reaches the floor. This is said of two accounts, of a
/// payload that encodes a record no longer than the record-holding buffer,
/// and of a known floor.
pub proof fn law_create_succeeds_iff(
    program_id: Seq<u8>,
    accounts: Seq<AccountView>,
    payload: Seq<u8>,
    floor: u64,
)
    requires
        accounts.len() >= 2,
        record_of(payload) is Some,
        encode_record(record_of(payload).unwrap()).len() <= accounts[0].data.len(),
    ensures
        create_outcome(program_id, accounts, payload, Some(floor)) is Ok <==> {
            &&& accounts[1].is_signer
            &&& accounts[0].owner == program_id
            &&& record_of(payload).unwrap().admin == accounts[1].key
            &&& accounts[0].lamports >= floor
        },
{
    lemma_counter_keeps_length(record_of(payload).unwrap(), 0);
}

/// A created campaign counts from zero, whatever counter the payload held:
/// the front of the record-holding buffer is the encoding of the payload's
/// record with its counter at zero, the rest of the buffer and every other
/// field and account are as before.
pub proof fn law_create_zeroes_counter(
    program_id: Seq<u8>,
    accounts: Seq<AccountView>,
    payload: Seq<u8>,
    floor: Option<u64>,
)
    requires
        create_outcome(program_id, accounts, payload, floor) is Ok,
    ensures
        ({
            let after = create_outcome(program_id, accounts, payload, floor)->Ok_0;
            let record = record_of(payload).unwrap();
            let written = encode_record(record.zeroed());
            &&& written.len() <= accounts[0].data.len()
            &&& after.len() == accounts.len()
            &&& after[0].lamports == accounts[0].lamports
            &&& after[0].lamports >= floor.unwrap()
            &&& after[0].data.len() == accounts[0].data.len()
            &&& after[0].data.subrange(0, written.len() as int) == written
            &&& after[0].data.subrange(written.len() as int, after[0].data.len() as int)
                == accounts[0].data.subrange(written.len() as int, accounts[0].data.len() as int)
            &&& record_of(written) == Some(record.zeroed())
            &&& record.zeroed().amount_donated == 0
            &&& record.zeroed().admin == accounts[1].key
            &&& written.len() == accounts[0].data.len() ==> record_of(after[0].data) == Some(
                record.zeroed(),
            )
            &&& after[0] == (AccountView { data: after[0].data, ..accounts[0] })
            &&& forall|i: int| 1 <= i < accounts.len() ==> after[i] == accounts[i]
        }),
{
    let after = create_outcome(program_id, accounts, payload, floor)->Ok_0;
    let record = record_of(payload).unwrap();
    let written = encode_record(record.zeroed());
    lemma_record_of_encoding(record.zeroed());
    assert(after[0].data.subrange(0, written.len() as int) =~= written);
    assert(after[0].data.subrange(written.len() as int, after[0].data.len() as int)
        =~= accounts[0].data.subrange(written.len() as int, accounts[0].data.len() as int));
    if written.len() == accounts[0].data.len() {
        assert(after[0].data =~= written);
    }
}

/// What creating a campaign does is the same for two payloads whose records
/// differ in nothing but the counter.
pub proof fn law_create_ignores_payload_counter(
    program_id: Seq<u8>,
    accounts: Seq<AccountView>,
    payload: Seq<u8>,
    other: Seq<u8>,
    floor: Option<u64>,
)
    requires
        record_of(payload) is Some,
        record_of(other) is Some,
        record_of(payload).unwrap().zeroed() == record_of(other).unwrap().zeroed(),
    ensures
        create_outcome(program_id, accounts, payload, floor) == create_outcome(
            program_id,
            accounts,
            other,
            floor,
        ),
{
}

/// Creating a campaign for an admin other than the creator is rejected as
/// unauthorized, where the checks before that one pass.
pub proof fn law_create_rejects_foreign_admin(
    program_id: Seq<u8>,
    accounts: Seq<AccountView>,
    payload: Seq<u8>,
    floor: Option<u64>,
)
    requires
        accounts.len() >= 2,
        accounts[1].is_signer,
        accounts[0].owner == program_id,
        record_of(payload) is Some,
        record_of(payload).unwrap().admin != accounts[1].key,
    ensures
        create_outcome(program_id, accounts, payload, floor) == Err::<
            Seq<AccountView>,
            LedgerError,
        >(LedgerError::Unauthorized),
{
}

/// A withdrawal succeeds exactly when the program owns the record-holding
/// account, the admin signed, the stored record names that admin, and what
/// the balance holds above the floor covers the amount. This is said of two
/// accounts, of a buffer that encodes a record, of a payload that encodes an
/// amount, of a known floor, and of an admin whose balance can take the
/// amount.
pub proof fn law_withdraw_succeeds_iff(
    program_id: Seq<u8>,
    accounts: Seq<AccountView>,
    payload: Seq<u8>,
    floor: u64,
)
    requires
        accounts.len() >= 2,
        record_of(accounts[0].data) is Some,
        amount_of(payload) is Some,
        accounts[1].lamports + amount_of(payload).unwrap() <= u64::MAX,
    ensures
        withdraw_outcome(program_id, accounts, payload, Some(floor)) is Ok <==> {
            &&& accounts[0].owner == program_id
            &&& accounts[1].is_signer
            &&& record_of(accounts[0].data).unwrap().admin == accounts[1].key
            &&& accounts[0].lamports - floor >= amount_of(payload).unwrap()
        },
{
}

/// A withdrawal that succeeds takes exactly the amount from the
/// record-holding balance and adds exactly the amount to the admin's. The
/// sum of all balances is as before, the record-holding balance stays at or
/// above the floor, and nothing but the two balances changes: the stored
/// record, its counter and its admin are untouched.
pub proof fn law_withdraw_moves_amount(
    program_id: Seq<u8>,
    accounts: Seq<AccountView>,
    payload: Seq<u8>,
    floor: Option<u64>,
)
    requires
        withdraw_outcome(program_id, accounts, payload, floor) is Ok,
    ensures
        ({
            let after = withdraw_outcome(program_id, accounts, payload, floor)->Ok_0;
            let amount = amount_of(payload).unwrap();
            &&& after.len() == accounts.len()
            &&& after[0].lamports == accounts[0].lamports - amount
            &&& after[1].lamports == accounts[1].lamports + amount
            &&& total_lamports(after) == total_lamports(accounts)
            &&& after[0].lamports >= floor.unwrap()
            &&& after[0] == (AccountView { lamports: after[0].lamports, ..accounts[0] })
            &&& after[1] == (AccountView { lamports: after[1].lamports, ..accounts[1] })
            &&& record_of(after[0].data) == record_of(accounts[0].data)
            &&& forall|i: int| 2 <= i < accounts.len() ==> after[i] == accounts[i]
        }),
{
    let amount = amount_of(payload).unwrap() as nat;
    let campaign = debited(accounts[0], amount);
    let admin = credited(accounts[1], amount);
    let between = accounts.update(0, campaign);
    lemma_total_after_update(accounts, 0, campaign);
    lemma_total_after_update(between, 1, admin);
}

/// A withdrawal that would leave the record-holding balance under the floor,
/// by however little, does not succeed; where the checks before the floor
/// pass, it is rejected for insufficient funds.
pub proof fn law_withdraw_keeps_floor(
    program_id: Seq<u8>,
    accounts: Seq<AccountView>,
    payload: Seq<u8>,
    floor: u64,
)
    requires
        accounts.len() >= 2,
        amount_of(payload) is Some,
        accounts[0].lamports - amount_of(payload).unwrap() < floor,
    ensures
        withdraw_outcome(program_id, accounts, payload, Some(floor)) is Err,
        accounts[0].owner == program_id && accounts[1].is_signer && record_of(
            accounts[0].data,
        ) is Some && record_of(accounts[0].data).unwrap().admin == accounts[1].key
            ==> withdraw_outcome(program_id, accounts, payload, Some(floor)) == Err::<
            Seq<AccountView>,
            LedgerError,
        >(LedgerError::InsufficientFunds),
{
}

/// A withdrawal is not idempotent. After one that succeeded, the same
/// instruction is judged anew against the balances as they now are: it
/// succeeds exactly when the new record-holding balance still covers the
/// amount above the floor and the admin's new balance can take it, and it
/// then takes the amount a second time.
pub proof fn law_withdraw_replay(
    program_id: Seq<u8>,
    accounts: Seq<AccountView>,
    payload: Seq<u8>,
    floor: Option<u64>,
)
    requires
        withdraw_outcome(program_id, accounts, payload, floor) is Ok,
    ensures
        ({
            let once = withdraw_outcome(program_id, accounts, payload, floor)->Ok_0;
            let again = withdraw_outcome(program_id, once, payload, floor);
            let amount = amount_of(payload).unwrap();
            &&& again is Ok <==> withdrawal_solvent(
                once[0].lamports,
                floor.unwrap() as nat,
                amount as nat,
            ) && once[1].lamports + amount <= u64::MAX
            &&& again is Ok <==> accounts[0].lamports - floor.unwrap() >= 2 * amount
                && accounts[1].lamports + 2 * amount <= u64::MAX
            &&& again matches Ok(twice) ==> twice[0].lamports == accounts[0].lamports - 2 * amount
                && twice[1].lamports == accounts[1].lamports + 2 * amount
            &&& again matches Err(e) ==> e == LedgerError::InsufficientFunds || e
                == LedgerError::Overflow
        }),
{
}

/// A withdrawal checks who owns the record-holding account and who signed
/// before it decodes anything: where one of the two checks fails, the result
/// is the same whatever the buffer and the payload hold.
pub proof fn law_withdraw_checks_before_decoding(
    program_id: Seq<u8>,
    accounts: Seq<AccountView>,
    payload: Seq<u8>,
    floor: Option<u64>,
)
    requires
        accounts.len() >= 2,
        accounts[0].owner != program_id || !accounts[1].is_signer,
    ensures
        withdraw_outcome(program_id, accounts, payload, floor) == (if accounts[0].owner
            != program_id {
            Err::<Seq<AccountView>, LedgerError>(LedgerError::WrongAccountOwner)
        } else {
            Err::<Seq<AccountView>, LedgerError>(LedgerError::MissingSigner)
        }),
{
}

/// A donation that succeeds moves exactly the amount from the donor to the
/// campaign and adds exactly the amount to the campaign's counter. The sum
/// of all balances is as before, and the stored record is otherwise the same:
/// its admin does not change.
pub proof fn law_donation_counts(
    program_id: Seq<u8>,
    accounts: Seq<AccountView>,
    payload: Seq<u8>,
)
    requires
        donation_outcome(program_id, accounts, payload) is Ok,
    ensures
        ({
            let after = donation_outcome(program_id, accounts, payload)->Ok_0;
            let amount = amount_of(payload).unwrap();
            let before = record_of(accounts[0].data).unwrap();
            &&& after.len() == accounts.len()
            &&& after[0].lamports == accounts[0].lamports + amount
            &&& after[1].lamports == accounts[1].lamports - amount
            &&& total_lamports(after) == total_lamports(accounts)
            &&& after[0].data.len() == accounts[0].data.len()
            &&& record_of(after[0].data) == Some(
                CampaignRecordView {
                    amount_donated: (before.amount_donated + amount) as u64,
                    ..before
                },
            )
            &&& before.amount_donated + amount <= u64::MAX
            &&& forall|i: int| 2 <= i < accounts.len() ==> after[i] == accounts[i]
        }),
{
    let amount = amount_of(payload).unwrap();
    let before = record_of(accounts[0].data).unwrap();
    let counted = CampaignRecordView {
        amount_donated: (before.amount_donated + amount) as u64,
        ..before
    };
    let campaign = with_data(
        credited(accounts[0], amount as nat),
        encode_record(counted),
    );
    let donor = debited(accounts[1], amount as nat);
    let between = accounts.update(0, campaign);
    lemma_total_after_update(accounts, 0, campaign);
    lemma_total_after_update(between, 1, donor);
    lemma_record_of_encoding(counted);
    lemma_counter_keeps_length(before, counted.amount_donated);
}

/// No instruction changes who an account is, who owns it, whether it signed,
/// how many accounts there are, or how long a data buffer is. So the solvency
/// floor of the record-holding account is after an instruction what it was
/// before.
pub proof fn law_identities_and_lengths_are_kept(
    program_id: Seq<u8>,
    accounts: Seq<AccountView>,
    data: Seq<u8>,
    rent: Option<RentParams>,
)
    requires
        process_outcome(program_id, accounts, data, rent) is Ok,
    ensures
        ({
            let after = process_outcome(program_id, accounts, data, rent)->Ok_0;
            &&& after.len() == accounts.len()
            &&& forall|i: int|
                0 <= i < accounts.len() ==> {
                    &&& (#[trigger] after[i]).key == accounts[i].key
                    &&& after[i].owner == accounts[i].owner
                    &&& after[i].is_signer == accounts[i].is_signer
                    &&& after[i].data.len() == accounts[i].data.len()
                }
            &&& floor_under(rent, after) == floor_under(rent, accounts)
        }),
{
    let after = process_outcome(program_id, accounts, data, rent)->Ok_0;
    match instruction_of(data) {
        Ok((Opcode::CreateCampaign, payload)) => {
            law_create_zeroes_counter(program_id, accounts, payload, floor_under(rent, accounts));
        },
        Ok((Opcode::Withdraw, payload)) => {
            law_withdraw_moves_amount(program_id, accounts, payload, floor_under(rent, accounts));
        },
        _ => {},
    }
}

/// An empty instruction buffer is rejected for missing data, and a tag other
/// than 0, 1 and 2 for an unknown instruction, whatever the accounts and the
/// rent configuration.
pub proof fn law_dispatch_rejects(
    program_id: Seq<u8>,
    accounts: Seq<AccountView>,
    data: Seq<u8>,
    rent: Option<RentParams>,
)
    ensures
        data.len() == 0 ==> process_outcome(program_id, accounts, data, rent) == Err::<
            Seq<AccountView>,
            LedgerError,
        >(LedgerError::MissingInstructionData),
        data.len() > 0 && data[0] != 0 && data[0] != 1 && data[0] != 2 ==> process_outcome(
            program_id,
            accounts,
            data,
            rent,
        ) == Err::<Seq<AccountView>, LedgerError>(LedgerError::UnknownInstruction),
{
}

/// The rent configuration matters only where a handler reaches the floor:
/// an instruction that, with no configuration at all, ends otherwise than for
/// want of a floor ends the same way under every configuration.
pub proof fn law_rent_matters_only_at_the_floor(
    program_id: Seq<u8>,
    accounts: Seq<AccountView>,
    data: Seq<u8>,
    rent: Option<RentParams>,
)
    requires
        process_outcome(program_id, accounts, data, None) != Err::<Seq<AccountView>, LedgerError>(
            LedgerError::FloorUnavailable,
        ),
    ensures
        process_outcome(program_id, accounts, data, rent) == process_outcome(
            program_id,
            accounts,
            data,
            None,
        ),
{
}

} // verus!
