//! A crowdfunding ledger: the state transitions of a campaign account,
//! stated as contracts and proved.
//!
//! An instruction is a tag byte and a payload. [`processor`] reads the tag
//! and routes the payload to a handler of [`handlers`], which checks the
//! accounts it was given ([`account`]), decodes records ([`codec`]),
//! enforces the solvency floor ([`solvency`]) and then changes balances and
//! buffers, or rejects the instruction and changes nothing. What holds of
//! the handlers together is proved in [`laws`].

pub mod account;
pub mod codec;
pub mod error;
pub mod handlers;
pub mod laws;
pub mod processor;
pub mod solvency;

pub use account::{Account, Pubkey};
pub use codec::{CampaignRecord, DonationRequest, WithdrawRequest};
pub use error::LedgerError;
pub use handlers::{apply_donation, create_campaign, donate, withdraw};
pub use processor::{process_instruction, process_with_rent, Opcode};
pub use solvency::RentParams;
