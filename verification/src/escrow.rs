//! The escrow vault model: pooled funds and the token rail they move on.
//!
//! A `TokenAccount` is an externally owned balance; anyone may fund one.
//! A `Vault` is a pooled escrow balance whose debit path is private to
//! this crate: outside callers can create an empty vault and read its
//! balance, but only the settlement operations can move funds out, which
//! stands in for the vault signing with its own derived authority. Every
//! movement conserves the sum of the two balances it touches.

use vstd::prelude::*;

verus! {

/// An externally owned token balance, the source of deposits and the
/// destination of payouts.
#[derive(Clone, Copy, Debug, PartialEq, Eq, Structural)]
pub struct TokenAccount {
    pub balance: u64,
}

/// A pooled escrow balance. The field is private: funds leave a vault
/// only through this crate's settlement paths.
#[derive(Clone, Copy, Debug, PartialEq, Eq, Structural)]
pub struct Vault {
    funds: u64,
}

impl Vault {
    /// The pooled balance, as contracts see it.
    pub closed spec fn spec_funds(self) -> u64 {
        self.funds
    }

    /// A fresh, empty vault.
    pub fn new() -> (v: Vault)
        ensures
            v.spec_funds() == 0,
    {
        Vault { funds: 0 }
    }

    /// The pooled balance, readably.
    pub fn balance(&self) -> (r: u64)
        ensures
            r == self.spec_funds(),
    {
        self.funds
    }

    /// Whether a deposit of `amount` fits without overflowing the
    /// balance.
    pub fn can_deposit(&self, amount: u64) -> (r: bool)
        ensures
            r == (self.spec_funds() + amount <= u64::MAX),
    {
        amount <= u64::MAX - self.funds
    }

    /// Moves `amount` from `payer` into the vault. Conserves the sum of
    /// the two balances.
    pub(crate) fn deposit(&mut self, payer: &mut TokenAccount, amount: u64)
        requires
            old(payer).balance >= amount,
            old(self).spec_funds() + amount <= u64::MAX,
        ensures
            final(self).spec_funds() == old(self).spec_funds() + amount,
            final(payer).balance == old(payer).balance - amount,
            final(self).spec_funds() + final(payer).balance == old(self).spec_funds() + old(
                payer,
            ).balance,
    {
        payer.balance = payer.balance - amount;
        self.funds = self.funds + amount;
    }

    /// Moves `amount` out of the vault into `payee`. Only settlement code
    /// can reach this; the vault's own authority, not any caller, signs
    /// the debit. Conserves the sum of the two balances.
    pub(crate) fn pay_out(&mut self, payee: &mut TokenAccount, amount: u64)
        requires
            old(self).spec_funds() >= amount,
            old(payee).balance + amount <= u64::MAX,
        ensures
            final(self).spec_funds() == old(self).spec_funds() - amount,
            final(payee).balance == old(payee).balance + amount,
            final(self).spec_funds() + final(payee).balance == old(self).spec_funds() + old(
                payee,
            ).balance,
    {
        self.funds = self.funds - amount;
        payee.balance = payee.balance + amount;
    }
}

} // verus!
