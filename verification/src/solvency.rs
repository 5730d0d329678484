//! The solvency floor: the least balance that an account must keep for the
//! length of its data, and the two places where it is enforced.

use vstd::prelude::*;
use solana_program::program_error::ProgramError;
use solana_program::rent::Rent;
use solana_program::sysvar::Sysvar;
use crate::error::LedgerError;

verus! {

/// The error type of the `solana_program` crate, carried through unread.
#[verifier::external_type_specification]
#[verifier::external_body]
pub struct ExProgramError(solana_program::program_error::ProgramError);

/// Bytes that the network charges for on top of an account's data.
pub const ACCOUNT_STORAGE_OVERHEAD: u64 = 128;

/// The longest data buffer for which a floor is computed.
pub const MAX_DATA_LENGTH: usize = 10485760;

/// The highest rate for which a floor is computed at the single threshold.
pub const MAX_RATE_SINGLE: u64 = 1759197129867;

/// The highest rate for which a floor is computed at the double threshold.
pub const MAX_RATE_DOUBLE: u64 = 879598564933;

/// The network's rent configuration, field for field as its sysvar holds it.
#[derive(Clone, Copy, Debug, PartialEq, Eq)]
pub struct RentParams {
    /// The rate, in lamports for each byte.
    pub lamports_per_byte: u64,
    /// The factor applied to the rate, as the little-endian bytes of a
    /// 64-bit binary floating-point number.
    pub exemption_threshold: [u8; 8],
    /// Kept for the sysvar's layout; no floor depends on it.
    pub burn_percent: u8,
}

/// The whole factor that a threshold stands for: one for the bytes of 1.0,
/// two for the bytes of 2.0. Any other threshold stands for none.
pub open spec fn threshold_factor(threshold: Seq<u8>) -> Option<nat> {
    if threshold == seq![0u8, 0u8, 0u8, 0u8, 0u8, 0u8, 240u8, 63u8] {
        Some(1nat)
    } else if threshold == seq![0u8, 0u8, 0u8, 0u8, 0u8, 0u8, 0u8, 64u8] {
        Some(2nat)
    } else {
        None
    }
}

/// The highest rate that is accepted with a factor.
pub open spec fn rate_limit(factor: nat) -> nat {
    if factor == 1 {
        MAX_RATE_SINGLE as nat
    } else {
        MAX_RATE_DOUBLE as nat
    }
}

impl RentParams {
    /// The solvency floor of an account with `data_len` bytes of data: the
    /// factor times the rate times the bytes charged for. There is none
    /// where the buffer is too long, the rate too high, or the threshold not
    /// a whole factor.
    pub open spec fn floor(&self, data_len: nat) -> Option<u64> {
        match threshold_factor(self.exemption_threshold@) {
            Some(factor) => {
                if data_len <= MAX_DATA_LENGTH && self.lamports_per_byte <= rate_limit(factor) {
                    Some(
                        (factor * (ACCOUNT_STORAGE_OVERHEAD + data_len)
                            * self.lamports_per_byte) as u64,
                    )
                } else {
                    None
                }
            },
            None => None,
        }
    }

    /// The whole factor of this configuration's threshold, if it has one.
    pub fn factor(&self) -> (r: Option<u64>)
        ensures
            match r {
                Some(factor) => threshold_factor(self.exemption_threshold@) == Some(factor as nat),
                None => threshold_factor(self.exemption_threshold@) is None,
            },
    {
        let t = &self.exemption_threshold;
        let ghost single = seq![0u8, 0u8, 0u8, 0u8, 0u8, 0u8, 240u8, 63u8];
        let ghost double = seq![0u8, 0u8, 0u8, 0u8, 0u8, 0u8, 0u8, 64u8];
        let zeros = t[0] == 0 && t[1] == 0 && t[2] == 0 && t[3] == 0 && t[4] == 0 && t[5] == 0;
        if zeros && t[6] == 240 && t[7] == 63 {
            assert(t@ =~= single);
            Some(1)
        } else if zeros && t[6] == 0 && t[7] == 64 {
            assert(t@ =~= double);
            assert(t@[6] != single[6]);
            Some(2)
        } else {
            assert(t@ == single ==> forall|i: int| 0 <= i < 8 ==> t@[i] == single[i]);
            assert(t@ == double ==> forall|i: int| 0 <= i < 8 ==> t@[i] == double[i]);
            None
        }
    }

    /// Computes the solvency floor of an account with `data_len` bytes of
    /// data, where this configuration has one.
    pub fn solvency_floor(&self, data_len: usize) -> (r: Option<u64>)
        ensures
            r == self.floor(data_len as nat),
    {
        match self.factor() {
            Some(factor) => {
                let limit: u64 = if factor == 1 {
                    MAX_RATE_SINGLE
                } else {
                    MAX_RATE_DOUBLE
                };
                if data_len <= MAX_DATA_LENGTH && self.lamports_per_byte <= limit {
                    assert(factor * (ACCOUNT_STORAGE_OVERHEAD + data_len) * self.lamports_per_byte
                        <= u64::MAX) by (nonlinear_arith)
                        requires
                            1 <= factor <= 2,
                            data_len <= 10485760,
                            factor == 1 ==> self.lamports_per_byte <= 1759197129867,
                            factor == 2 ==> self.lamports_per_byte <= 879598564933,
                            ACCOUNT_STORAGE_OVERHEAD == 128,
                    ;
                    Some(minimum_balance(self, data_len))
                } else {
                    None
                }
            },
            None => None,
        }
    }
}

/// Calls `Rent::minimum_balance` of `solana_program` on a configuration with
/// the given fields. For the two whole thresholds that call multiplies the
/// rate by the account's data length plus the storage overhead, and doubles
/// the product at the double threshold. It panics on a buffer over the
/// permitted length and on a rate over the limit of the threshold; both are
/// left out here, with every threshold that would need floating point.
#[allow(deprecated)]
#[verifier::external_body]
fn minimum_balance(rent: &RentParams, data_len: usize) -> (floor: u64)
    requires
        data_len <= MAX_DATA_LENGTH,
        threshold_factor(rent.exemption_threshold@) is Some,
        rent.lamports_per_byte <= rate_limit(threshold_factor(rent.exemption_threshold@).unwrap()),
    ensures
        floor == threshold_factor(rent.exemption_threshold@).unwrap() * (ACCOUNT_STORAGE_OVERHEAD
            + data_len) * rent.lamports_per_byte,
{
    let outside = Rent {
        lamports_per_byte: rent.lamports_per_byte,
        exemption_threshold: rent.exemption_threshold,
        burn_percent: rent.burn_percent,
    };
    outside.minimum_balance(data_len)
}

/// Calls `Rent::get` of `solana_program`, which asks the runtime for the rent
/// sysvar, and hands its fields over. Nothing is claimed of the answer: it
/// is the runtime's, and outside a runtime the call fails.
#[allow(deprecated)]
#[verifier::external_body]
fn rent_sysvar() -> (r: Result<RentParams, ProgramError>) {
    let outside = Rent::get()?;
    Ok(
        RentParams {
            lamports_per_byte: outside.lamports_per_byte,
            exemption_threshold: outside.exemption_threshold,
            burn_percent: outside.burn_percent,
        },
    )
}

/// Asks the runtime for the rent configuration in force. `None` where the
/// runtime gives none.
pub(crate) fn current_rent() -> (r: Option<RentParams>) {
    match rent_sysvar() {
        Ok(rent) => Some(rent),
        Err(_) => None,
    }
}

/// Whether an account may hold a new campaign: its balance reaches the floor.
pub open spec fn creation_solvent(balance: nat, floor: nat) -> bool {
    balance >= floor
}

/// Whether `amount` may leave an account: what the balance holds above the
/// floor covers it. An account under its floor covers nothing, not even zero.
pub open spec fn withdrawal_solvent(balance: nat, floor: nat, amount: nat) -> bool {
    balance - floor >= amount
}

/// Enforces the solvency floor on an account that is to hold a campaign.
pub fn check_creation(balance: u64, floor: u64) -> (r: Result<(), LedgerError>)
    ensures
        r == (if creation_solvent(balance as nat, floor as nat) {
            Ok::<(), LedgerError>(())
        } else {
            Err(LedgerError::InsufficientFunds)
        }),
{
    if balance < floor {
        Err(LedgerError::InsufficientFunds)
    } else {
        Ok(())
    }
}

/// Enforces the solvency floor on a withdrawal of `amount`.
pub fn check_withdrawal(balance: u64, floor: u64, amount: u64) -> (r: Result<(), LedgerError>)
    ensures
        r == (if withdrawal_solvent(balance as nat, floor as nat, amount as nat) {
            Ok::<(), LedgerError>(())
        } else {
            Err(LedgerError::InsufficientFunds)
        }),
{
    if balance < floor {
        return Err(LedgerError::InsufficientFunds);
    }
    if balance - floor < amount {
        Err(LedgerError::InsufficientFunds)
    } else {
        Ok(())
    }
}

} // verus!
