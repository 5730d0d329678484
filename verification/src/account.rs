//! Accounts as the runtime supplies them, and the checks on who signed, who
//! owns and who is named.

use vstd::prelude::*;
use crate::error::LedgerError;

verus! {

/// The identity of an account or of a program: thirty-two bytes, compared
/// byte for byte.
pub type Pubkey = [u8; 32];

/// One account as the runtime supplies it for an instruction. Its place in
/// the list of accounts decides its role.
#[derive(Clone, Debug, PartialEq, Eq)]
pub struct Account {
    /// The account's own identity.
    pub key: Pubkey,
    /// The program that owns the account.
    pub owner: Pubkey,
    /// Whether this account co-signed the transaction.
    pub is_signer: bool,
    /// The account's spendable balance.
    pub lamports: u64,
    /// The account's data buffer. Its length is fixed when the account is
    /// allocated and no handler changes it.
    pub data: Vec<u8>,
}

/// What an [`Account`] is, as mathematics.
pub struct AccountView {
    pub key: Seq<u8>,
    pub owner: Seq<u8>,
    pub is_signer: bool,
    pub lamports: nat,
    pub data: Seq<u8>,
}

impl View for Account {
    type V = AccountView;

    open spec fn view(&self) -> AccountView {
        AccountView {
            key: self.key@,
            owner: self.owner@,
            is_signer: self.is_signer,
            lamports: self.lamports as nat,
            data: self.data@,
        }
    }
}

/// The views of a list of accounts, position by position.
pub open spec fn views(accounts: Seq<Account>) -> Seq<AccountView> {
    Seq::new(accounts.len(), |i: int| accounts[i]@)
}

/// The sum of the balances of a list of accounts.
pub open spec fn total_lamports(accounts: Seq<AccountView>) -> nat
    decreases accounts.len(),
{
    if accounts.len() == 0 {
        0
    } else {
        total_lamports(accounts.drop_last()) + accounts.last().lamports
    }
}

/// Whether two identities are the same.
pub fn same_key(a: &Pubkey, b: &Pubkey) -> (same: bool)
    ensures
        same == (a@ == b@),
{
    let mut i: usize = 0;
    while i < 32
        invariant
            i <= 32,
            forall|j: int| 0 <= j < i ==> a@[j] == b@[j],
        decreases 32 - i,
    {
        if a[i] != b[i] {
            return false;
        }
        i += 1;
    }
    assert(a@ =~= b@);
    true
}

/// Rejects a list that holds fewer accounts than a handler consumes.
pub fn require_accounts(accounts: &Vec<Account>, needed: usize) -> (r: Result<(), LedgerError>)
    ensures
        r == (if accounts.len() < needed {
            Err::<(), LedgerError>(LedgerError::MissingAccount)
        } else {
            Ok(())
        }),
{
    if accounts.len() < needed {
        Err(LedgerError::MissingAccount)
    } else {
        Ok(())
    }
}

/// Rejects an account that did not co-sign the transaction.
pub fn require_signer(account: &Account) -> (r: Result<(), LedgerError>)
    ensures
        r == (if account.is_signer {
            Ok::<(), LedgerError>(())
        } else {
            Err(LedgerError::MissingSigner)
        }),
{
    if account.is_signer {
        Ok(())
    } else {
        Err(LedgerError::MissingSigner)
    }
}

/// Rejects an account that the given program does not own.
pub fn require_owner(account: &Account, program_id: &Pubkey) -> (r: Result<(), LedgerError>)
    ensures
        r == (if account.owner@ == program_id@ {
            Ok::<(), LedgerError>(())
        } else {
            Err(LedgerError::WrongAccountOwner)
        }),
{
    if same_key(&account.owner, program_id) {
        Ok(())
    } else {
        Err(LedgerError::WrongAccountOwner)
    }
}

/// Rejects an account whose identity is not the recorded admin.
pub fn require_admin(account: &Account, admin: &Pubkey) -> (r: Result<(), LedgerError>)
    ensures
        r == (if account.key@ == admin@ {
            Ok::<(), LedgerError>(())
        } else {
            Err(LedgerError::Unauthorized)
        }),
{
    if same_key(&account.key, admin) {
        Ok(())
    } else {
        Err(LedgerError::Unauthorized)
    }
}

} // verus!
