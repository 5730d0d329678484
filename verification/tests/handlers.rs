use crowdfunding::account::{require_accounts, require_admin, require_owner, require_signer, same_key, Account};
use crowdfunding::codec::{CampaignRecord, DonationRequest, WithdrawRequest};
use crowdfunding::error::LedgerError;
use crowdfunding::handlers::{apply_donation, create_campaign, donate, withdraw};

const PROGRAM: [u8; 32] = [1u8; 32];
const ADMIN: [u8; 32] = [2u8; 32];
const CAMPAIGN: [u8; 32] = [3u8; 32];
const STRANGER: [u8; 32] = [4u8; 32];
const SYSTEM: [u8; 32] = [0u8; 32];

fn record(admin: [u8; 32], amount_donated: u64) -> CampaignRecord {
    CampaignRecord {
        admin,
        name: String::from("Well"),
        description: String::from("Dig a well"),
        image_link: String::from("https://x/y.png"),
        amount_donated,
    }
}

fn campaign_account(lamports: u64, data: Vec<u8>) -> Account {
    Account { key: CAMPAIGN, owner: PROGRAM, is_signer: false, lamports, data }
}

fn signer(key: [u8; 32], lamports: u64) -> Account {
    Account { key, owner: SYSTEM, is_signer: true, lamports, data: Vec::new() }
}

fn fresh(lamports: u64) -> Vec<Account> {
    let len = record(ADMIN, 0).encode().unwrap().len();
    vec![campaign_account(lamports, vec![0xee; len]), signer(ADMIN, 5)]
}

fn funded(lamports: u64) -> Vec<Account> {
    vec![
        campaign_account(lamports, record(ADMIN, 0).encode().unwrap()),
        signer(ADMIN, 5),
    ]
}

fn total(accounts: &[Account]) -> u128 {
    accounts.iter().map(|a| a.lamports as u128).sum()
}

fn amount(amount: u64) -> Vec<u8> {
    WithdrawRequest { amount }.encode()
}

#[test]
fn keys_compare_byte_for_byte() {
    let mut other = ADMIN;
    assert!(same_key(&ADMIN, &other));
    other[31] = 0;
    assert!(!same_key(&ADMIN, &other));
    other = ADMIN;
    other[0] = 0;
    assert!(!same_key(&ADMIN, &other));
}

#[test]
fn validator_names_each_failure() {
    let accounts = funded(10);
    assert_eq!(require_accounts(&accounts, 2), Ok(()));
    assert_eq!(require_accounts(&accounts, 3), Err(LedgerError::MissingAccount));
    assert_eq!(require_accounts(&Vec::new(), 0), Ok(()));
    assert_eq!(require_signer(&accounts[1]), Ok(()));
    assert_eq!(require_signer(&accounts[0]), Err(LedgerError::MissingSigner));
    assert_eq!(require_owner(&accounts[0], &PROGRAM), Ok(()));
    assert_eq!(require_owner(&accounts[1], &PROGRAM), Err(LedgerError::WrongAccountOwner));
    assert_eq!(require_admin(&accounts[1], &ADMIN), Ok(()));
    assert_eq!(require_admin(&accounts[1], &STRANGER), Err(LedgerError::Unauthorized));
}

#[test]
fn create_writes_the_record_with_a_zero_counter() {
    let mut accounts = fresh(900_000);
    let payload = record(ADMIN, 77).encode().unwrap();
    assert_eq!(create_campaign(&PROGRAM, &mut accounts, &payload, Some(900_000)), Ok(()));
    assert_eq!(accounts[0].data, record(ADMIN, 0).encode().unwrap());
    assert_eq!(CampaignRecord::decode(&accounts[0].data).unwrap().amount_donated, 0);
    assert_eq!(CampaignRecord::decode(&accounts[0].data).unwrap().admin, ADMIN);
    assert_eq!(accounts[0].lamports, 900_000);
    assert_eq!(accounts[0].key, CAMPAIGN);
    assert_eq!(accounts[0].owner, PROGRAM);
    assert_eq!(accounts[1], signer(ADMIN, 5));
}

#[test]
fn create_keeps_what_lies_behind_the_record() {
    let stored = record(ADMIN, 0).encode().unwrap();
    let mut accounts = vec![
        campaign_account(10, vec![0xee; stored.len() + 3]),
        signer(ADMIN, 5),
        signer(STRANGER, 9),
    ];
    let payload = record(ADMIN, u64::MAX).encode().unwrap();
    assert_eq!(create_campaign(&PROGRAM, &mut accounts, &payload, Some(10)), Ok(()));
    assert_eq!(&accounts[0].data[..stored.len()], &stored[..]);
    assert_eq!(&accounts[0].data[stored.len()..], &[0xee, 0xee, 0xee]);
    assert_eq!(accounts[2], signer(STRANGER, 9));
}

#[test]
fn create_needs_two_accounts() {
    let payload = record(ADMIN, 0).encode().unwrap();
    let mut none: Vec<Account> = Vec::new();
    assert_eq!(
        create_campaign(&PROGRAM, &mut none, &payload, Some(0)),
        Err(LedgerError::MissingAccount)
    );
    let mut one = vec![campaign_account(10, vec![0; 100])];
    assert_eq!(
        create_campaign(&PROGRAM, &mut one, &payload, Some(0)),
        Err(LedgerError::MissingAccount)
    );
    assert_eq!(one, vec![campaign_account(10, vec![0; 100])]);
}

#[test]
fn create_needs_the_creator_to_sign() {
    let mut accounts = fresh(900_000);
    accounts[1].is_signer = false;
    let before = accounts.clone();
    let payload = record(ADMIN, 0).encode().unwrap();
    assert_eq!(
        create_campaign(&PROGRAM, &mut accounts, &payload, Some(900_000)),
        Err(LedgerError::MissingSigner)
    );
    assert_eq!(accounts, before);
}

#[test]
fn create_needs_the_program_to_own_the_record_holder() {
    let mut accounts = fresh(900_000);
    accounts[0].owner = SYSTEM;
    let before = accounts.clone();
    let payload = record(ADMIN, 0).encode().unwrap();
    assert_eq!(
        create_campaign(&PROGRAM, &mut accounts, &payload, Some(900_000)),
        Err(LedgerError::WrongAccountOwner)
    );
    assert_eq!(accounts, before);
}

#[test]
fn create_checks_the_signer_before_the_owner() {
    let mut accounts = fresh(900_000);
    accounts[0].owner = SYSTEM;
    accounts[1].is_signer = false;
    assert_eq!(
        create_campaign(&PROGRAM, &mut accounts, &[], None),
        Err(LedgerError::MissingSigner)
    );
}

#[test]
fn create_rejects_a_payload_that_is_no_record() {
    let mut accounts = fresh(900_000);
    let before = accounts.clone();
    let mut payload = record(ADMIN, 0).encode().unwrap();
    payload.pop();
    assert_eq!(
        create_campaign(&PROGRAM, &mut accounts, &payload, Some(900_000)),
        Err(LedgerError::MalformedRecord)
    );
    assert_eq!(
        create_campaign(&PROGRAM, &mut accounts, &[], Some(900_000)),
        Err(LedgerError::MalformedRecord)
    );
    assert_eq!(accounts, before);
}

#[test]
fn create_for_another_admin_is_unauthorized_and_writes_nothing() {
    let mut accounts = fresh(900_000);
    let before = accounts.clone();
    let payload = record(STRANGER, 0).encode().unwrap();
    assert_eq!(
        create_campaign(&PROGRAM, &mut accounts, &payload, Some(900_000)),
        Err(LedgerError::Unauthorized)
    );
    assert_eq!(accounts, before);
    assert_eq!(accounts[0].data, vec![0xee; before[0].data.len()]);
}

#[test]
fn create_needs_a_floor() {
    let mut accounts = fresh(900_000);
    let before = accounts.clone();
    let payload = record(ADMIN, 0).encode().unwrap();
    assert_eq!(
        create_campaign(&PROGRAM, &mut accounts, &payload, None),
        Err(LedgerError::FloorUnavailable)
    );
    assert_eq!(accounts, before);
}

#[test]
fn create_needs_the_balance_to_reach_the_floor() {
    let mut accounts = fresh(899_999);
    let before = accounts.clone();
    let payload = record(ADMIN, 0).encode().unwrap();
    assert_eq!(
        create_campaign(&PROGRAM, &mut accounts, &payload, Some(900_000)),
        Err(LedgerError::InsufficientFunds)
    );
    assert_eq!(accounts, before);
    assert_eq!(create_campaign(&PROGRAM, &mut accounts, &payload, Some(899_999)), Ok(()));
}

#[test]
fn create_rejects_a_record_longer_than_the_buffer() {
    let mut accounts = fresh(900_000);
    accounts[0].data.pop();
    let before = accounts.clone();
    let payload = record(ADMIN, 0).encode().unwrap();
    assert_eq!(
        create_campaign(&PROGRAM, &mut accounts, &payload, Some(900_000)),
        Err(LedgerError::RecordTooLarge)
    );
    assert_eq!(
        create_campaign(&PROGRAM, &mut accounts, &payload, Some(900_001)),
        Err(LedgerError::InsufficientFunds)
    );
    assert_eq!(accounts, before);
}

#[test]
fn withdraw_moves_the_amount_to_the_admin() {
    let mut accounts = funded(1_000_000);
    let before = accounts.clone();
    assert_eq!(withdraw(&PROGRAM, &mut accounts, &amount(50_000), Some(900_000)), Ok(()));
    assert_eq!(accounts[0].lamports, 950_000);
    assert_eq!(accounts[1].lamports, 50_005);
    assert_eq!(total(&accounts), total(&before));
    assert_eq!(accounts[0].data, before[0].data);
    assert_eq!(accounts[0].key, before[0].key);
    assert_eq!(accounts[0].owner, before[0].owner);
    assert_eq!(accounts[1].data, before[1].data);
    assert_eq!(CampaignRecord::decode(&accounts[0].data), Ok(record(ADMIN, 0)));
}

#[test]
fn withdraw_beyond_the_floor_is_rejected() {
    let mut accounts = funded(1_000_000);
    let before = accounts.clone();
    assert_eq!(
        withdraw(&PROGRAM, &mut accounts, &amount(150_000), Some(900_000)),
        Err(LedgerError::InsufficientFunds)
    );
    assert_eq!(accounts, before);
}

#[test]
fn withdraw_stops_exactly_at_the_floor() {
    let mut accounts = funded(1_000_000);
    assert_eq!(
        withdraw(&PROGRAM, &mut accounts, &amount(100_001), Some(900_000)),
        Err(LedgerError::InsufficientFunds)
    );
    assert_eq!(accounts[0].lamports, 1_000_000);
    assert_eq!(withdraw(&PROGRAM, &mut accounts, &amount(100_000), Some(900_000)), Ok(()));
    assert_eq!(accounts[0].lamports, 900_000);
    assert_eq!(accounts[1].lamports, 100_005);
    assert_eq!(
        withdraw(&PROGRAM, &mut accounts, &amount(1), Some(900_000)),
        Err(LedgerError::InsufficientFunds)
    );
    assert_eq!(withdraw(&PROGRAM, &mut accounts, &amount(0), Some(900_000)), Ok(()));
    assert_eq!(accounts[0].lamports, 900_000);
}

#[test]
fn withdraw_replayed_is_judged_against_the_new_balance() {
    let mut accounts = funded(1_000_000);
    let payload = amount(50_000);
    assert_eq!(withdraw(&PROGRAM, &mut accounts, &payload, Some(900_000)), Ok(()));
    assert_eq!(accounts[0].lamports, 950_000);
    assert_eq!(withdraw(&PROGRAM, &mut accounts, &payload, Some(900_000)), Ok(()));
    assert_eq!(accounts[0].lamports, 900_000);
    assert_eq!(accounts[1].lamports, 100_005);
    assert_eq!(
        withdraw(&PROGRAM, &mut accounts, &payload, Some(900_000)),
        Err(LedgerError::InsufficientFunds)
    );
    assert_eq!(accounts[0].lamports, 900_000);
    assert_eq!(accounts[1].lamports, 100_005);
}

#[test]
fn withdraw_from_an_account_under_its_floor_is_rejected() {
    let mut accounts = funded(10);
    assert_eq!(
        withdraw(&PROGRAM, &mut accounts, &amount(0), Some(20)),
        Err(LedgerError::InsufficientFunds)
    );
    assert_eq!(
        withdraw(&PROGRAM, &mut accounts, &amount(u64::MAX), Some(u64::MAX)),
        Err(LedgerError::InsufficientFunds)
    );
    assert_eq!(accounts, funded(10));
}

#[test]
fn withdraw_needs_two_accounts() {
    let mut one = funded(1_000_000);
    one.pop();
    assert_eq!(
        withdraw(&PROGRAM, &mut one, &amount(1), Some(0)),
        Err(LedgerError::MissingAccount)
    );
    let mut none: Vec<Account> = Vec::new();
    assert_eq!(
        withdraw(&PROGRAM, &mut none, &amount(1), Some(0)),
        Err(LedgerError::MissingAccount)
    );
}

#[test]
fn withdraw_checks_the_owner_before_the_signer() {
    let mut accounts = funded(1_000_000);
    accounts[0].owner = SYSTEM;
    accounts[1].is_signer = false;
    assert_eq!(
        withdraw(&PROGRAM, &mut accounts, &amount(1), Some(0)),
        Err(LedgerError::WrongAccountOwner)
    );
    accounts[0].owner = PROGRAM;
    assert_eq!(
        withdraw(&PROGRAM, &mut accounts, &amount(1), Some(0)),
        Err(LedgerError::MissingSigner)
    );
    assert_eq!(accounts[0].lamports, 1_000_000);
}

#[test]
fn withdraw_checks_accounts_before_it_decodes() {
    let mut accounts = funded(1_000_000);
    accounts[0].data = vec![0xff; 7];
    accounts[1].is_signer = false;
    assert_eq!(
        withdraw(&PROGRAM, &mut accounts, &[], None),
        Err(LedgerError::MissingSigner)
    );
    accounts[1].is_signer = true;
    assert_eq!(
        withdraw(&PROGRAM, &mut accounts, &[], None),
        Err(LedgerError::MalformedRecord)
    );
}

#[test]
fn withdraw_rejects_a_buffer_that_is_no_record() {
    let mut accounts = funded(1_000_000);
    accounts[0].data.push(0);
    let before = accounts.clone();
    assert_eq!(
        withdraw(&PROGRAM, &mut accounts, &amount(1), Some(0)),
        Err(LedgerError::MalformedRecord)
    );
    assert_eq!(accounts, before);
}

#[test]
fn withdraw_is_for_the_admin_alone() {
    let mut accounts = funded(1_000_000);
    accounts[1] = signer(STRANGER, 5);
    let before = accounts.clone();
    assert_eq!(
        withdraw(&PROGRAM, &mut accounts, &amount(1), Some(0)),
        Err(LedgerError::Unauthorized)
    );
    assert_eq!(accounts, before);
}

#[test]
fn withdraw_rejects_a_payload_that_is_no_amount() {
    let mut accounts = funded(1_000_000);
    assert_eq!(
        withdraw(&PROGRAM, &mut accounts, &[1, 2, 3], Some(0)),
        Err(LedgerError::MalformedRecord)
    );
    assert_eq!(
        withdraw(&PROGRAM, &mut accounts, &[0; 9], Some(0)),
        Err(LedgerError::MalformedRecord)
    );
    assert_eq!(accounts, funded(1_000_000));
}

#[test]
fn withdraw_needs_a_floor() {
    let mut accounts = funded(1_000_000);
    assert_eq!(
        withdraw(&PROGRAM, &mut accounts, &amount(1), None),
        Err(LedgerError::FloorUnavailable)
    );
    assert_eq!(accounts, funded(1_000_000));
}

#[test]
fn withdraw_does_not_debit_what_it_cannot_credit() {
    let mut accounts = funded(1_000_000);
    accounts[1].lamports = u64::MAX - 9;
    let before = accounts.clone();
    assert_eq!(
        withdraw(&PROGRAM, &mut accounts, &amount(10), Some(0)),
        Err(LedgerError::Overflow)
    );
    assert_eq!(accounts, before);
    assert_eq!(withdraw(&PROGRAM, &mut accounts, &amount(9), Some(0)), Ok(()));
    assert_eq!(accounts[1].lamports, u64::MAX);
    assert_eq!(accounts[0].lamports, 999_991);
}

#[test]
fn withdraw_leaves_the_counter_alone() {
    let mut accounts = vec![
        campaign_account(1_000_000, record(ADMIN, 123).encode().unwrap()),
        signer(ADMIN, 0),
    ];
    assert_eq!(withdraw(&PROGRAM, &mut accounts, &amount(500), Some(0)), Ok(()));
    assert_eq!(CampaignRecord::decode(&accounts[0].data), Ok(record(ADMIN, 123)));
}

#[test]
fn created_campaign_can_be_withdrawn_from() {
    let mut accounts = fresh(1_000_000);
    let payload = record(ADMIN, 1).encode().unwrap();
    assert_eq!(create_campaign(&PROGRAM, &mut accounts, &payload, Some(900_000)), Ok(()));
    assert_eq!(withdraw(&PROGRAM, &mut accounts, &amount(50_000), Some(900_000)), Ok(()));
    assert_eq!(accounts[0].lamports, 950_000);
    assert_eq!(accounts[1].lamports, 50_005);
}

#[test]
fn donate_accepts_and_changes_nothing() {
    let mut accounts = funded(1_000_000);
    let payload = DonationRequest { amount: 10 }.encode();
    assert_eq!(donate(&PROGRAM, &mut accounts, &payload), Ok(()));
    assert_eq!(accounts, funded(1_000_000));
    let mut none: Vec<Account> = Vec::new();
    assert_eq!(donate(&STRANGER, &mut none, &[9, 9]), Ok(()));
    assert_eq!(none, Vec::new());
}

#[test]
fn donation_moves_the_amount_and_counts_it() {
    let mut accounts = vec![
        campaign_account(1_000, record(ADMIN, 40).encode().unwrap()),
        signer(STRANGER, 500),
        signer(ADMIN, 1),
    ];
    let before = accounts.clone();
    let payload = DonationRequest { amount: 200 }.encode();
    assert_eq!(apply_donation(&PROGRAM, &mut accounts, &payload), Ok(()));
    assert_eq!(accounts[0].lamports, 1_200);
    assert_eq!(accounts[1].lamports, 300);
    assert_eq!(CampaignRecord::decode(&accounts[0].data), Ok(record(ADMIN, 240)));
    assert_eq!(accounts[0].data.len(), before[0].data.len());
    assert_eq!(total(&accounts), total(&before));
    assert_eq!(accounts[2], before[2]);
}

#[test]
fn donation_needs_the_donor_to_cover_it() {
    let mut accounts = vec![
        campaign_account(1_000, record(ADMIN, 0).encode().unwrap()),
        signer(STRANGER, 199),
    ];
    let before = accounts.clone();
    let payload = DonationRequest { amount: 200 }.encode();
    assert_eq!(
        apply_donation(&PROGRAM, &mut accounts, &payload),
        Err(LedgerError::InsufficientFunds)
    );
    assert_eq!(accounts, before);
}

#[test]
fn donation_rejects_a_counter_that_would_wrap() {
    let mut accounts = vec![
        campaign_account(1_000, record(ADMIN, u64::MAX - 1).encode().unwrap()),
        signer(STRANGER, 500),
    ];
    let before = accounts.clone();
    assert_eq!(
        apply_donation(&PROGRAM, &mut accounts, &DonationRequest { amount: 2 }.encode()),
        Err(LedgerError::Overflow)
    );
    assert_eq!(accounts, before);
    assert_eq!(
        apply_donation(&PROGRAM, &mut accounts, &DonationRequest { amount: 1 }.encode()),
        Ok(())
    );
    assert_eq!(CampaignRecord::decode(&accounts[0].data), Ok(record(ADMIN, u64::MAX)));
}

#[test]
fn donation_rejects_a_balance_that_would_wrap() {
    let mut accounts = vec![
        campaign_account(u64::MAX, record(ADMIN, 0).encode().unwrap()),
        signer(STRANGER, 500),
    ];
    let before = accounts.clone();
    assert_eq!(
        apply_donation(&PROGRAM, &mut accounts, &DonationRequest { amount: 1 }.encode()),
        Err(LedgerError::Overflow)
    );
    assert_eq!(accounts, before);
}

#[test]
fn donation_checks_accounts_and_buffers() {
    let payload = DonationRequest { amount: 1 }.encode();
    let mut one = vec![campaign_account(1, record(ADMIN, 0).encode().unwrap())];
    assert_eq!(apply_donation(&PROGRAM, &mut one, &payload), Err(LedgerError::MissingAccount));
    let mut accounts = vec![
        campaign_account(1, record(ADMIN, 0).encode().unwrap()),
        signer(STRANGER, 500),
    ];
    assert_eq!(
        apply_donation(&STRANGER, &mut accounts, &payload),
        Err(LedgerError::WrongAccountOwner)
    );
    accounts[1].is_signer = false;
    assert_eq!(
        apply_donation(&PROGRAM, &mut accounts, &payload),
        Err(LedgerError::MissingSigner)
    );
    accounts[1].is_signer = true;
    assert_eq!(
        apply_donation(&PROGRAM, &mut accounts, &[1, 2]),
        Err(LedgerError::MalformedRecord)
    );
    accounts[0].data.pop();
    assert_eq!(
        apply_donation(&PROGRAM, &mut accounts, &payload),
        Err(LedgerError::MalformedRecord)
    );
}

#[test]
fn donation_is_open_to_any_signer() {
    let mut accounts = vec![
        campaign_account(0, record(ADMIN, 0).encode().unwrap()),
        signer(ADMIN, 10),
    ];
    assert_eq!(
        apply_donation(&PROGRAM, &mut accounts, &DonationRequest { amount: 10 }.encode()),
        Ok(())
    );
    accounts[1] = signer(STRANGER, 10);
    assert_eq!(
        apply_donation(&PROGRAM, &mut accounts, &DonationRequest { amount: 10 }.encode()),
        Ok(())
    );
    assert_eq!(accounts[0].lamports, 20);
    assert_eq!(CampaignRecord::decode(&accounts[0].data), Ok(record(ADMIN, 20)));
}
