//! The balances one settlement touches, and the transfer steps over them.
//!
//! On chain these balances live in separate accounts and move by host
//! transfers; here they form one explicit ledger so that every movement, and
//! the all-or-nothing failure contract over them, is stated and checked.

use vstd::prelude::*;
use crate::errors::QantaraError;
use crate::state::PayToken;

verus! {

/// Every balance a settlement can read or move: the payer's holdings, the
/// engine's custody holdings, the fee recipient, the merchant's payout wallet,
/// and the running total of buyback tokens destroyed.
#[derive(Clone, Copy, Debug, PartialEq, Eq, Structural)]
pub struct Ledger {
    /// The payer's native-currency balance.
    pub payer_sol: u64,
    /// The payer's stable-coin balance.
    pub payer_usdc: u64,
    /// Custody holding for the native currency.
    pub vault_sol: u64,
    /// Custody holding for the stable coin.
    pub vault_usdc: u64,
    /// Custody holding for the buyback token.
    pub vault_buyback: u64,
    /// The protocol fee recipient's native-currency balance.
    pub protocol_wallet_sol: u64,
    /// The protocol fee recipient's stable-coin balance.
    pub protocol_wallet_usdc: u64,
    /// The merchant payout wallet's native-currency balance.
    pub merchant_payout_sol: u64,
    /// The merchant payout wallet's stable-coin balance.
    pub merchant_payout_usdc: u64,
    /// Total buyback tokens destroyed so far.
    pub burned: u64,
}

impl Ledger {
    /// The payer's balance in the given currency.
    pub open spec fn payer_balance(self, t: PayToken) -> u64 {
        match t {
            PayToken::Sol => self.payer_sol,
            PayToken::Usdc => self.payer_usdc,
        }
    }

    /// The custody holding for the given currency.
    pub open spec fn vault_balance(self, t: PayToken) -> u64 {
        match t {
            PayToken::Sol => self.vault_sol,
            PayToken::Usdc => self.vault_usdc,
        }
    }

    /// The fee recipient's balance in the given currency.
    pub open spec fn protocol_balance(self, t: PayToken) -> u64 {
        match t {
            PayToken::Sol => self.protocol_wallet_sol,
            PayToken::Usdc => self.protocol_wallet_usdc,
        }
    }

    /// The merchant payout wallet's balance in the given currency.
    pub open spec fn merchant_balance(self, t: PayToken) -> u64 {
        match t {
            PayToken::Sol => self.merchant_payout_sol,
            PayToken::Usdc => self.merchant_payout_usdc,
        }
    }

    /// This ledger with the payer's balance in `t` replaced by `v`.
    pub open spec fn with_payer_balance(self, t: PayToken, v: u64) -> Ledger {
        match t {
            PayToken::Sol => Ledger { payer_sol: v, ..self },
            PayToken::Usdc => Ledger { payer_usdc: v, ..self },
        }
    }

    /// This ledger with the custody holding for `t` replaced by `v`.
    pub open spec fn with_vault_balance(self, t: PayToken, v: u64) -> Ledger {
        match t {
            PayToken::Sol => Ledger { vault_sol: v, ..self },
            PayToken::Usdc => Ledger { vault_usdc: v, ..self },
        }
    }

    /// This ledger with the fee recipient's balance in `t` replaced by `v`.
    pub open spec fn with_protocol_balance(self, t: PayToken, v: u64) -> Ledger {
        match t {
            PayToken::Sol => Ledger { protocol_wallet_sol: v, ..self },
            PayToken::Usdc => Ledger { protocol_wallet_usdc: v, ..self },
        }
    }

    /// This ledger with the merchant wallet's balance in `t` replaced by `v`.
    pub open spec fn with_merchant_balance(self, t: PayToken, v: u64) -> Ledger {
        match t {
            PayToken::Sol => Ledger { merchant_payout_sol: v, ..self },
            PayToken::Usdc => Ledger { merchant_payout_usdc: v, ..self },
        }
    }
}

/// Move `amount` of `pay_token` from the payer into custody: the first
/// execution step of a settlement.
///
/// Fails, leaving every balance unchanged, when the payer cannot cover the
/// amount or the custody holding cannot represent the credit.
pub fn receive_payment(ledger: &mut Ledger, amount: u64, pay_token: PayToken) -> (r: Result<
    (),
    QantaraError,
>)
    ensures
        r is Err ==> *final(ledger) == *old(ledger),
        old(ledger).payer_balance(pay_token) < amount ==> r == Err::<(), QantaraError>(
            QantaraError::InsufficientFunds,
        ),
        old(ledger).payer_balance(pay_token) >= amount && old(ledger).vault_balance(pay_token)
            + amount > u64::MAX ==> r == Err::<(), QantaraError>(QantaraError::BalanceOverflow),
        old(ledger).payer_balance(pay_token) >= amount && old(ledger).vault_balance(pay_token)
            + amount <= u64::MAX ==> r is Ok && *final(ledger) == old(ledger).with_payer_balance(
            pay_token,
            (old(ledger).payer_balance(pay_token) - amount) as u64,
        ).with_vault_balance(
            pay_token,
            (old(ledger).vault_balance(pay_token) + amount) as u64,
        ),
{
    match pay_token {
        PayToken::Sol => {
            if ledger.payer_sol < amount {
                return Err(QantaraError::InsufficientFunds);
            }
            if ledger.vault_sol > u64::MAX - amount {
                return Err(QantaraError::BalanceOverflow);
            }
            ledger.payer_sol = ledger.payer_sol - amount;
            ledger.vault_sol = ledger.vault_sol + amount;
            Ok(())
        },
        PayToken::Usdc => {
            if ledger.payer_usdc < amount {
                return Err(QantaraError::InsufficientFunds);
            }
            if ledger.vault_usdc > u64::MAX - amount {
                return Err(QantaraError::BalanceOverflow);
            }
            ledger.payer_usdc = ledger.payer_usdc - amount;
            ledger.vault_usdc = ledger.vault_usdc + amount;
            Ok(())
        },
    }
}

/// Move the protocol fee from custody to the fee recipient: runs before any
/// merchant-directed split and cannot be bypassed.
///
/// Fails, leaving every balance unchanged, when custody cannot cover the fee
/// or the recipient's balance cannot represent the credit.
pub fn transfer_protocol_fee(ledger: &mut Ledger, fee: u64, pay_token: PayToken) -> (r: Result<
    (),
    QantaraError,
>)
    ensures
        r is Err ==> *final(ledger) == *old(ledger),
        old(ledger).vault_balance(pay_token) < fee ==> r == Err::<(), QantaraError>(
            QantaraError::InsufficientFunds,
        ),
        old(ledger).vault_balance(pay_token) >= fee && old(ledger).protocol_balance(pay_token) + fee
            > u64::MAX ==> r == Err::<(), QantaraError>(QantaraError::BalanceOverflow),
        old(ledger).vault_balance(pay_token) >= fee && old(ledger).protocol_balance(pay_token) + fee
            <= u64::MAX ==> r is Ok && *final(ledger) == old(ledger).with_vault_balance(
            pay_token,
            (old(ledger).vault_balance(pay_token) - fee) as u64,
        ).with_protocol_balance(
            pay_token,
            (old(ledger).protocol_balance(pay_token) + fee) as u64,
        ),
{
    match pay_token {
        PayToken::Sol => {
            if ledger.vault_sol < fee {
                return Err(QantaraError::InsufficientFunds);
            }
            if ledger.protocol_wallet_sol > u64::MAX - fee {
                return Err(QantaraError::BalanceOverflow);
            }
            ledger.vault_sol = ledger.vault_sol - fee;
            ledger.protocol_wallet_sol = ledger.protocol_wallet_sol + fee;
            Ok(())
        },
        PayToken::Usdc => {
            if ledger.vault_usdc < fee {
                return Err(QantaraError::InsufficientFunds);
            }
            if ledger.protocol_wallet_usdc > u64::MAX - fee {
                return Err(QantaraError::BalanceOverflow);
            }
            ledger.vault_usdc = ledger.vault_usdc - fee;
            ledger.protocol_wallet_usdc = ledger.protocol_wallet_usdc + fee;
            Ok(())
        },
    }
}

/// Move the merchant payout from custody to the merchant's payout wallet: the
/// last fund movement of a settlement.
///
/// Fails, leaving every balance unchanged, when custody cannot cover the
/// payout or the wallet's balance cannot represent the credit.
pub fn transfer_merchant_payout(ledger: &mut Ledger, amount: u64, pay_token: PayToken) -> (r:
    Result<(), QantaraError>)
    ensures
        r is Err ==> *final(ledger) == *old(ledger),
        old(ledger).vault_balance(pay_token) < amount ==> r == Err::<(), QantaraError>(
            QantaraError::InsufficientFunds,
        ),
        old(ledger).vault_balance(pay_token) >= amount && old(ledger).merchant_balance(pay_token)
            + amount > u64::MAX ==> r == Err::<(), QantaraError>(QantaraError::BalanceOverflow),
        old(ledger).vault_balance(pay_token) >= amount && old(ledger).merchant_balance(pay_token)
            + amount <= u64::MAX ==> r is Ok && *final(ledger) == old(ledger).with_vault_balance(
            pay_token,
            (old(ledger).vault_balance(pay_token) - amount) as u64,
        ).with_merchant_balance(
            pay_token,
            (old(ledger).merchant_balance(pay_token) + amount) as u64,
        ),
{
    match pay_token {
        PayToken::Sol => {
            if ledger.vault_sol < amount {
                return Err(QantaraError::InsufficientFunds);
            }
            if ledger.merchant_payout_sol > u64::MAX - amount {
                return Err(QantaraError::BalanceOverflow);
            }
            ledger.vault_sol = ledger.vault_sol - amount;
            ledger.merchant_payout_sol = ledger.merchant_payout_sol + amount;
            Ok(())
        },
        PayToken::Usdc => {
            if ledger.vault_usdc < amount {
                return Err(QantaraError::InsufficientFunds);
            }
            if ledger.merchant_payout_usdc > u64::MAX - amount {
                return Err(QantaraError::BalanceOverflow);
            }
            ledger.vault_usdc = ledger.vault_usdc - amount;
            ledger.merchant_payout_usdc = ledger.merchant_payout_usdc + amount;
            Ok(())
        },
    }
}

} // verus!
