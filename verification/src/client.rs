//! Client accounts: the balances of one client and the five operations on them.

use std::collections::HashMap;
use vstd::prelude::*;
use crate::cents::Cents;
use crate::error::{reported, LedgerError};

verus! {

/// Identifies a client.
pub type ClientId = u16;

/// What an account holds, as mathematical integers: the model that the contracts of
/// [`ClientData`] speak of.
pub struct Account {
    /// Funds free to withdraw or to dispute.
    pub available: int,
    /// Funds under dispute.
    pub held: int,
    /// Whether the account is locked: no operation changes a locked account.
    pub locked: bool,
}

impl Account {
    /// The account that every client starts with: no funds, not locked.
    pub open spec fn empty() -> Account {
        Account { available: 0, held: 0, locked: false }
    }

    /// Available and held funds together.
    pub open spec fn total(self) -> int {
        self.available + self.held
    }

    /// Whether the available funds, the held funds and their total each fit an amount.
    pub open spec fn representable(self) -> bool {
        &&& i64::MIN <= self.available <= i64::MAX
        &&& i64::MIN <= self.held <= i64::MAX
        &&& i64::MIN <= self.total() <= i64::MAX
    }

    /// The error that refuses every operation with this amount on this account, if
    /// there is one: a negative amount first, then a locked account.
    pub open spec fn refusal(self, amount: int) -> Option<LedgerError> {
        if amount < 0 {
            Some(LedgerError::NegativeAmount)
        } else if self.locked {
            Some(LedgerError::LockedAccount)
        } else {
            None
        }
    }

    /// A deposit adds the amount to the available funds.
    pub open spec fn deposit(self, amount: int) -> Result<Account, LedgerError> {
        match self.refusal(amount) {
            Some(e) => Err(e),
            None => Ok(Account { available: self.available + amount, ..self }),
        }
    }

    /// A withdrawal takes the amount from the available funds, which must cover it.
    pub open spec fn withdrawal(self, amount: int) -> Result<Account, LedgerError> {
        match self.refusal(amount) {
            Some(e) => Err(e),
            None => if self.available < amount {
                Err(LedgerError::InsufficientFunds)
            } else {
                Ok(Account { available: self.available - amount, ..self })
            },
        }
    }

    /// A dispute moves the amount from the available funds to the held funds; the
    /// available funds may become negative.
    pub open spec fn dispute(self, amount: int) -> Result<Account, LedgerError> {
        match self.refusal(amount) {
            Some(e) => Err(e),
            None => Ok(
                Account {
                    available: self.available - amount,
                    held: self.held + amount,
                    ..self
                },
            ),
        }
    }

    /// A resolve moves the amount from the held funds back to the available funds.
    pub open spec fn resolve(self, amount: int) -> Result<Account, LedgerError> {
        match self.refusal(amount) {
            Some(e) => Err(e),
            None => Ok(
                Account {
                    available: self.available + amount,
                    held: self.held - amount,
                    ..self
                },
            ),
        }
    }

    /// A chargeback takes the amount from the held funds and locks the account.
    pub open spec fn chargeback(self, amount: int) -> Result<Account, LedgerError> {
        match self.refusal(amount) {
            Some(e) => Err(e),
            None => Ok(Account { held: self.held - amount, locked: true, ..self }),
        }
    }
}

/// Whether the outcome of an operation can be stored: a refusal always can, a new
/// account only where its funds are representable.
pub open spec fn storable(outcome: Result<Account, LedgerError>) -> bool {
    outcome matches Ok(account) ==> account.representable()
}

/// The account after an operation with the given outcome: the new one on success,
/// the one before on a refusal.
pub open spec fn account_after(outcome: Result<Account, LedgerError>, before: Account) -> Account {
    match outcome {
        Ok(account) => account,
        Err(_) => before,
    }
}

/// What has to hold after an operation with the given outcome: the account is the
/// one after it, and a refusal is reported with its error.
pub open spec fn settled(
    outcome: Result<Account, LedgerError>,
    before: Account,
    after: Account,
    result: Result<(), LedgerError>,
) -> bool {
    &&& after == account_after(outcome, before)
    &&& result == reported(outcome)
}

/// A deposit followed by a withdrawal of the same amount leaves the available and the
/// held funds as they were, where the available funds were not negative or the
/// deposit is refused.
pub proof fn lemma_deposit_then_withdrawal(account: Account, amount: int)
    requires
        account.available >= 0 || account.refusal(amount) is Some,
    ensures
        ({
            let deposited = account_after(account.deposit(amount), account);
            let withdrawn = account_after(deposited.withdrawal(amount), deposited);
            &&& withdrawn.available == account.available
            &&& withdrawn.held == account.held
            &&& deposited.held == account.held
        }),
{
}

/// A chargeback that succeeds locks the account.
pub proof fn lemma_chargeback_locks(account: Account, amount: int)
    requires
        account.chargeback(amount) is Ok,
    ensures
        account.chargeback(amount)->Ok_0.locked,
{
}

/// A locked account refuses every operation, so it stays as it is, locked.
pub proof fn lemma_locked_refuses(account: Account, amount: int)
    requires
        account.locked,
    ensures
        account.deposit(amount) is Err,
        account.withdrawal(amount) is Err,
        account.dispute(amount) is Err,
        account.resolve(amount) is Err,
        account.chargeback(amount) is Err,
        account_after(account.deposit(amount), account) == account,
        account_after(account.withdrawal(amount), account) == account,
        account_after(account.dispute(amount), account) == account,
        account_after(account.resolve(amount), account) == account,
        account_after(account.chargeback(amount), account) == account,
{
}

fn fits_amount(value: i128) -> (fits: bool)
    ensures
        fits == (i64::MIN <= value <= i64::MAX),
{
    -9_223_372_036_854_775_808 <= value && value <= 9_223_372_036_854_775_807
}

/// The account of one client.
#[derive(Clone, Copy, Debug)]
pub struct ClientData {
    available: Cents,
    held: Cents,
    locked: bool,
}

impl View for ClientData {
    type V = Account;

    closed spec fn view(&self) -> Account {
        Account { available: self.available as int, held: self.held as int, locked: self.locked }
    }
}

impl ClientData {
    /// Every account has funds whose total fits an amount.
    #[verifier::type_invariant]
    pub open spec fn well_formed(self) -> bool {
        self@.representable()
    }

    /// Makes an account with no funds that is not locked.
    pub fn new() -> (client: Self)
        ensures
            client@ == Account::empty(),
    {
        Self { available: 0, held: 0, locked: false }
    }

    /// The funds free to withdraw or to dispute.
    pub fn get_available(&self) -> (cents: Cents)
        ensures
            cents == self@.available,
    {
        self.available
    }

    /// The funds under dispute.
    pub fn get_held(&self) -> (cents: Cents)
        ensures
            cents == self@.held,
    {
        self.held
    }

    /// Available and held funds together.
    pub fn get_total(&self) -> (cents: Cents)
        ensures
            cents == self@.total(),
    {
        proof {
            use_type_invariant(self);
        }
        self.available + self.held
    }

    /// Whether the account is locked.
    pub fn is_locked(&self) -> (locked: bool)
        ensures
            locked == self@.locked,
    {
        self.locked
    }

    /// Adds `cents` to the available funds, unless the amount is negative or the
    /// account is locked.
    pub fn deposit(&mut self, cents: Cents) -> (result: Result<(), LedgerError>)
        requires
            storable(old(self)@.deposit(cents as int)),
        ensures
            settled(old(self)@.deposit(cents as int), old(self)@, final(self)@, result),
    {
        Self::check_positive(cents)?;
        self.check_locked()?;

        self.available += cents;

        Ok(())
    }

    /// Takes `cents` from the available funds, unless the amount is negative, the
    /// account is locked, or the available funds do not cover it.
    pub fn withdrawal(&mut self, cents: Cents) -> (result: Result<(), LedgerError>)
        ensures
            settled(old(self)@.withdrawal(cents as int), old(self)@, final(self)@, result),
    {
        Self::check_positive(cents)?;
        self.check_locked()?;

        if self.available >= cents {
            proof {
                use_type_invariant(&*self);
            }
            self.available -= cents;

            Ok(())
        } else {
            Err(LedgerError::InsufficientFunds)
        }
    }

    /// Moves `cents` from the available funds to the held funds, unless the amount is
    /// negative or the account is locked.
    pub fn dispute(&mut self, cents: Cents) -> (result: Result<(), LedgerError>)
        requires
            storable(old(self)@.dispute(cents as int)),
        ensures
            settled(old(self)@.dispute(cents as int), old(self)@, final(self)@, result),
    {
        Self::check_positive(cents)?;
        self.check_locked()?;

        *self = Self {
            available: self.available - cents,
            held: self.held + cents,
            locked: self.locked,
        };

        Ok(())
    }

    /// Moves `cents` from the held funds back to the available funds, unless the
    /// amount is negative or the account is locked.
    pub fn resolve(&mut self, cents: Cents) -> (result: Result<(), LedgerError>)
        requires
            storable(old(self)@.resolve(cents as int)),
        ensures
            settled(old(self)@.resolve(cents as int), old(self)@, final(self)@, result),
    {
        Self::check_positive(cents)?;
        self.check_locked()?;

        *self = Self {
            available: self.available + cents,
            held: self.held - cents,
            locked: self.locked,
        };

        Ok(())
    }

    /// Takes `cents` from the held funds and locks the account, unless the amount is
    /// negative or the account is locked already.
    pub fn chargeback(&mut self, cents: Cents) -> (result: Result<(), LedgerError>)
        requires
            storable(old(self)@.chargeback(cents as int)),
        ensures
            settled(old(self)@.chargeback(cents as int), old(self)@, final(self)@, result),
    {
        Self::check_positive(cents)?;
        self.check_locked()?;

        *self = Self { available: self.available, held: self.held - cents, locked: true };

        Ok(())
    }

    /// Whether a deposit of `cents` leaves funds that can be stored; a deposit that is
    /// refused does.
    pub fn deposit_fits(&self, cents: Cents) -> (fits: bool)
        ensures
            fits == storable(self@.deposit(cents as int)),
    {
        if cents < 0 || self.locked {
            return true;
        }
        proof {
            use_type_invariant(self);
        }
        let available = self.available as i128 + cents as i128;
        fits_amount(available) && fits_amount(available + self.held as i128)
    }

    /// Whether a withdrawal of `cents` leaves funds that can be stored: it always does.
    pub fn withdrawal_fits(&self, cents: Cents) -> (fits: bool)
        ensures
            fits,
            storable(self@.withdrawal(cents as int)),
    {
        proof {
            use_type_invariant(self);
        }
        true
    }

    /// Whether a dispute of `cents` leaves funds that can be stored; a dispute that is
    /// refused does.
    pub fn dispute_fits(&self, cents: Cents) -> (fits: bool)
        ensures
            fits == storable(self@.dispute(cents as int)),
    {
        if cents < 0 || self.locked {
            return true;
        }
        proof {
            use_type_invariant(self);
        }
        fits_amount(self.available as i128 - cents as i128) && fits_amount(
            self.held as i128 + cents as i128,
        )
    }

    /// Whether a resolve of `cents` leaves funds that can be stored; a resolve that is
    /// refused does.
    pub fn resolve_fits(&self, cents: Cents) -> (fits: bool)
        ensures
            fits == storable(self@.resolve(cents as int)),
    {
        if cents < 0 || self.locked {
            return true;
        }
        proof {
            use_type_invariant(self);
        }
        fits_amount(self.available as i128 + cents as i128) && fits_amount(
            self.held as i128 - cents as i128,
        )
    }

    /// Whether a chargeback of `cents` leaves funds that can be stored; a chargeback
    /// that is refused does.
    pub fn chargeback_fits(&self, cents: Cents) -> (fits: bool)
        ensures
            fits == storable(self@.chargeback(cents as int)),
    {
        if cents < 0 || self.locked {
            return true;
        }
        proof {
            use_type_invariant(self);
        }
        let held = self.held as i128 - cents as i128;
        fits_amount(held) && fits_amount(self.available as i128 + held)
    }

    fn check_locked(&self) -> (result: Result<(), LedgerError>)
        ensures
            result == (if self@.locked {
                Err::<(), LedgerError>(LedgerError::LockedAccount)
            } else {
                Ok(())
            }),
    {
        if !self.locked {
            Ok(())
        } else {
            Err(LedgerError::LockedAccount)
        }
    }

    fn check_positive(cents: Cents) -> (result: Result<(), LedgerError>)
        ensures
            result == (if cents < 0 {
                Err::<(), LedgerError>(LedgerError::NegativeAmount)
            } else {
                Ok(())
            }),
    {
        if cents >= 0 {
            Ok(())
        } else {
            Err(LedgerError::NegativeAmount)
        }
    }
}

/// The accounts, by client.
pub type ClientsMap = HashMap<ClientId, ClientData>;

/// The accounts that a map of clients holds.
pub open spec fn accounts_of(clients: Map<ClientId, ClientData>) -> Map<ClientId, Account> {
    clients.map_values(|client: ClientData| client@)
}

} // verus!
