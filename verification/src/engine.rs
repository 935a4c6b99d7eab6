//! The settlement engine: the ordered validation checks, the split
//! arithmetic, the swap-and-verify sequence, the burn step, and the
//! all-or-nothing contract that binds them.

use vstd::prelude::*;
use crate::errors::QantaraError;
use crate::ledger::Ledger;
use crate::ledger::receive_payment;
use crate::ledger::transfer_merchant_payout;
use crate::ledger::transfer_protocol_fee;
use crate::math::bps_share;
use crate::math::bps_share_spec;
use crate::math::lemma_bps_share_strict;
use crate::math::lemma_bps_shares_within;
use crate::state::Address;
use crate::state::BPS_DENOMINATOR;
use crate::state::MerchantConfig;
use crate::state::MerchantRegistry;
use crate::state::PayToken;
use crate::state::PaymentSettled;
use crate::state::ProtocolConfig;
use crate::state::SettlementRequest;

verus! {

/// What the external router reported for the buyback swap of one settlement:
/// either the net increase of the custody buyback holding caused by the call,
/// or that the call failed.
#[derive(Clone, Copy, Debug, PartialEq, Eq, Structural)]
pub enum SwapOutcome {
    /// The router delivered this many buyback tokens into custody.
    Filled(u64),
    /// The router reverted, errored or was unreachable.
    Failed,
}

/// The amounts one settlement will move, computed before anything moves: the
/// action a caller needs to build the swap route and invoke the router.
#[derive(Clone, Copy, Debug, PartialEq, Eq, Structural)]
pub struct SettlementPlan {
    /// The protocol fee taken off the top.
    pub fee: u64,
    /// What remains of the amount after the fee.
    pub remaining: u64,
    /// The merchant's share of the remainder.
    pub payout: u64,
    /// The currency put into the buyback swap; the router's exact input.
    pub buyback_in: u64,
    /// The minimum swap output the settlement will accept.
    pub min_out: u64,
}

/// The first precondition a request breaks, in the fixed order the engine
/// checks them before anything moves; `None` when the request passes them all.
pub open spec fn validation_error(
    config: ProtocolConfig,
    merchant: MerchantRegistry,
    req: SettlementRequest,
) -> Option<QantaraError> {
    if config.paused {
        Some(QantaraError::ProtocolPaused)
    } else if merchant.merchant_id != req.merchant_id {
        Some(QantaraError::InvalidMerchantId)
    } else if merchant.frozen {
        Some(QantaraError::MerchantFrozen)
    } else if req.payout_wallet != merchant.payout_wallet {
        Some(QantaraError::InvalidPayoutWallet)
    } else if req.buyback_mint != merchant.buyback_mint {
        Some(QantaraError::InvalidBuybackMint)
    } else if req.payout_bps + req.buyback_bps > BPS_DENOMINATOR {
        Some(QantaraError::InvalidBasisPoints)
    } else if req.burn_bps > BPS_DENOMINATOR {
        Some(QantaraError::InvalidBasisPoints)
    } else if req.router != config.jupiter_router {
        Some(QantaraError::InvalidRouterProgram)
    } else if req.buyback_bps > 0 && req.min_out == 0 {
        Some(QantaraError::InvalidMinOut)
    } else {
        None
    }
}

/// The protocol fee of a settlement: `floor(amount * protocol_fee_bps / 10000)`.
pub open spec fn settlement_fee(config: ProtocolConfig, req: SettlementRequest) -> int {
    bps_share_spec(req.amount as int, config.protocol_fee_bps as int)
}

/// What remains of the amount once the protocol fee is off the top.
pub open spec fn settlement_remaining(config: ProtocolConfig, req: SettlementRequest) -> int {
    req.amount - settlement_fee(config, req)
}

/// The merchant payout: `floor(remaining * payout_bps / 10000)`.
pub open spec fn settlement_payout(config: ProtocolConfig, req: SettlementRequest) -> int {
    bps_share_spec(settlement_remaining(config, req), req.payout_bps as int)
}

/// The buyback allocation: `floor(remaining * buyback_bps / 10000)`.
pub open spec fn settlement_buyback_in(config: ProtocolConfig, req: SettlementRequest) -> int {
    bps_share_spec(settlement_remaining(config, req), req.buyback_bps as int)
}

/// The buyback tokens a settlement acquires: what the router delivered, or
/// zero when the swap is skipped because nothing is allocated to it.
pub open spec fn settlement_acquired(
    config: ProtocolConfig,
    req: SettlementRequest,
    swap: SwapOutcome,
) -> int {
    if settlement_buyback_in(config, req) == 0 {
        0
    } else {
        match swap {
            SwapOutcome::Filled(a) => a as int,
            SwapOutcome::Failed => 0,
        }
    }
}

/// The burned fraction of the acquired tokens: `floor(acquired * burn_bps / 10000)`.
pub open spec fn settlement_burn(
    config: ProtocolConfig,
    req: SettlementRequest,
    swap: SwapOutcome,
) -> int {
    bps_share_spec(settlement_acquired(config, req, swap), req.burn_bps as int)
}

/// The first failure of the execution sequence of a request that passed
/// validation, in execution order: receive, fee transfer, swap, slippage
/// check, burn, payout; `None` when every step goes through.
pub open spec fn execution_error(
    config: ProtocolConfig,
    req: SettlementRequest,
    swap: SwapOutcome,
    l: Ledger,
) -> Option<QantaraError> {
    let t = req.pay_token;
    let fee = settlement_fee(config, req);
    let payout = settlement_payout(config, req);
    let buyback_in = settlement_buyback_in(config, req);
    let acquired = settlement_acquired(config, req, swap);
    let burn = settlement_burn(config, req, swap);
    if l.payer_balance(t) < req.amount {
        Some(QantaraError::InsufficientFunds)
    } else if l.vault_balance(t) + req.amount > u64::MAX {
        Some(QantaraError::BalanceOverflow)
    } else if l.protocol_balance(t) + fee > u64::MAX {
        Some(QantaraError::BalanceOverflow)
    } else if buyback_in > 0 && swap is Failed {
        Some(QantaraError::RouterCallFailed)
    } else if buyback_in > 0 && l.vault_buyback + acquired > u64::MAX {
        Some(QantaraError::BalanceOverflow)
    } else if buyback_in > 0 && acquired < req.min_out {
        Some(QantaraError::SlippageExceeded)
    } else if l.burned + burn > u64::MAX {
        Some(QantaraError::BalanceOverflow)
    } else if l.merchant_balance(t) + payout > u64::MAX {
        Some(QantaraError::BalanceOverflow)
    } else {
        None
    }
}

/// The error one `settle` call reports, if any: the first broken validation
/// precondition, else the first execution failure.
pub open spec fn settle_error(
    config: ProtocolConfig,
    merchant: MerchantRegistry,
    req: SettlementRequest,
    swap: SwapOutcome,
    l: Ledger,
) -> Option<QantaraError> {
    if validation_error(config, merchant, req) is Some {
        validation_error(config, merchant, req)
    } else {
        execution_error(config, req, swap, l)
    }
}

/// The ledger a successful settlement leaves behind: the payer is down by the
/// amount; the fee, payout and buyback allocation have left custody for the
/// fee recipient, the merchant wallet and the router; the acquired tokens sit
/// in custody less the burned fraction.
pub open spec fn settle_ledger(
    config: ProtocolConfig,
    req: SettlementRequest,
    swap: SwapOutcome,
    l: Ledger,
) -> Ledger {
    let t = req.pay_token;
    let fee = settlement_fee(config, req);
    let payout = settlement_payout(config, req);
    let buyback_in = settlement_buyback_in(config, req);
    let acquired = settlement_acquired(config, req, swap);
    let burn = settlement_burn(config, req, swap);
    let moved = l.with_payer_balance(t, (l.payer_balance(t) - req.amount) as u64)
        .with_vault_balance(t, (l.vault_balance(t) + req.amount - fee - buyback_in - payout) as u64)
        .with_protocol_balance(t, (l.protocol_balance(t) + fee) as u64)
        .with_merchant_balance(t, (l.merchant_balance(t) + payout) as u64);
    Ledger {
        vault_buyback: (l.vault_buyback + acquired - burn) as u64,
        burned: (l.burned + burn) as u64,
        ..moved
    }
}

/// The receipt a successful settlement produces: the full numeric breakdown.
pub open spec fn settle_receipt(
    config: ProtocolConfig,
    req: SettlementRequest,
    swap: SwapOutcome,
    timestamp: i64,
) -> PaymentSettled {
    PaymentSettled {
        merchant_id: req.merchant_id,
        payer: req.payer,
        amount: req.amount,
        pay_token: req.pay_token,
        protocol_fee: settlement_fee(config, req) as u64,
        payout_amount: settlement_payout(config, req) as u64,
        buyback_amount: settlement_acquired(config, req, swap) as u64,
        burn_amount: settlement_burn(config, req, swap) as u64,
        timestamp,
    }
}

/// Validate a request and compute the amounts it would move, before anything
/// moves: callers build the swap route from the returned plan.
pub fn plan_settlement(
    config: &ProtocolConfig,
    merchant: &MerchantRegistry,
    req: &SettlementRequest,
) -> (r: Result<SettlementPlan, QantaraError>)
    requires
        config.wf(),
        req.wf(),
    ensures
        match validation_error(*config, *merchant, *req) {
            Some(e) => r == Err::<SettlementPlan, QantaraError>(e),
            None => r matches Ok(plan) && plan.fee == settlement_fee(*config, *req)
                && plan.remaining == settlement_remaining(*config, *req) && plan.payout
                == settlement_payout(*config, *req) && plan.buyback_in == settlement_buyback_in(
                *config,
                *req,
            ) && plan.min_out == req.min_out,
        },
{
    if config.paused {
        return Err(QantaraError::ProtocolPaused);
    }
    if merchant.merchant_id != req.merchant_id {
        return Err(QantaraError::InvalidMerchantId);
    }
    if merchant.frozen {
        return Err(QantaraError::MerchantFrozen);
    }
    if req.payout_wallet != merchant.payout_wallet {
        return Err(QantaraError::InvalidPayoutWallet);
    }
    if req.buyback_mint != merchant.buyback_mint {
        return Err(QantaraError::InvalidBuybackMint);
    }
    if (req.payout_bps as u32) + (req.buyback_bps as u32) > (BPS_DENOMINATOR as u32) {
        return Err(QantaraError::InvalidBasisPoints);
    }
    if req.burn_bps > BPS_DENOMINATOR {
        return Err(QantaraError::InvalidBasisPoints);
    }
    if req.router != config.jupiter_router {
        return Err(QantaraError::InvalidRouterProgram);
    }
    if req.buyback_bps > 0 && req.min_out == 0 {
        return Err(QantaraError::InvalidMinOut);
    }
    let fee = bps_share(req.amount, config.protocol_fee_bps);
    let remaining = req.amount - fee;
    let payout = bps_share(remaining, req.payout_bps);
    let buyback_in = bps_share(remaining, req.buyback_bps);
    Ok(SettlementPlan { fee, remaining, payout, buyback_in, min_out: req.min_out })
}

/// Execute one settlement against the stores, the router's reported swap
/// outcome, and the ledger.
///
/// Either every movement of the settlement is applied and the exact receipt
/// comes back, or the reported error's condition held and not one balance
/// changed: there is no partially-applied outcome.
pub fn settle(
    config: &ProtocolConfig,
    merchant: &MerchantRegistry,
    req: &SettlementRequest,
    swap: SwapOutcome,
    timestamp: i64,
    ledger: &mut Ledger,
) -> (r: Result<PaymentSettled, QantaraError>)
    requires
        config.wf(),
        req.wf(),
    ensures
        r is Err ==> *final(ledger) == *old(ledger),
        match settle_error(*config, *merchant, *req, swap, *old(ledger)) {
            Some(e) => r == Err::<PaymentSettled, QantaraError>(e),
            None => r == Ok::<PaymentSettled, QantaraError>(
                settle_receipt(*config, *req, swap, timestamp),
            ) && *final(ledger) == settle_ledger(*config, *req, swap, *old(ledger)),
        },
{
    // Preconditions, in their fixed order: the first failure aborts with no
    // side effect.
    if config.paused {
        return Err(QantaraError::ProtocolPaused);
    }
    if merchant.merchant_id != req.merchant_id {
        return Err(QantaraError::InvalidMerchantId);
    }
    if merchant.frozen {
        return Err(QantaraError::MerchantFrozen);
    }
    if req.payout_wallet != merchant.payout_wallet {
        return Err(QantaraError::InvalidPayoutWallet);
    }
    if req.buyback_mint != merchant.buyback_mint {
        return Err(QantaraError::InvalidBuybackMint);
    }
    if (req.payout_bps as u32) + (req.buyback_bps as u32) > (BPS_DENOMINATOR as u32) {
        return Err(QantaraError::InvalidBasisPoints);
    }
    if req.burn_bps > BPS_DENOMINATOR {
        return Err(QantaraError::InvalidBasisPoints);
    }
    if req.router != config.jupiter_router {
        return Err(QantaraError::InvalidRouterProgram);
    }
    if req.buyback_bps > 0 && req.min_out == 0 {
        return Err(QantaraError::InvalidMinOut);
    }
    // The splits, in widened arithmetic. The fee leaves strictly less than the
    // amount behind, and payout and buyback together fit in the remainder.
    let fee = bps_share(req.amount, config.protocol_fee_bps);
    proof {
        lemma_bps_share_strict(req.amount as int, config.protocol_fee_bps as int);
    }
    let remaining = req.amount - fee;
    let payout = bps_share(remaining, req.payout_bps);
    let buyback_in = bps_share(remaining, req.buyback_bps);
    proof {
        lemma_bps_shares_within(remaining as int, req.payout_bps as int, req.buyback_bps as int);
    }
    // Work on a copy: the caller's ledger changes only when everything did.
    let mut l = *ledger;
    match receive_payment(&mut l, req.amount, req.pay_token) {
        Ok(()) => (),
        Err(e) => {
            return Err(e);
        },
    }
    match transfer_protocol_fee(&mut l, fee, req.pay_token) {
        Ok(()) => (),
        Err(e) => {
            return Err(e);
        },
    }
    // The swap, at most once, only for a positive allocation: the router takes
    // the allocation out of custody and its reported net output comes in.
    let acquired: u64;
    if buyback_in > 0 {
        match swap {
            SwapOutcome::Failed => {
                return Err(QantaraError::RouterCallFailed);
            },
            SwapOutcome::Filled(a) => {
                if l.vault_buyback > u64::MAX - a {
                    return Err(QantaraError::BalanceOverflow);
                }
                if a < req.min_out {
                    return Err(QantaraError::SlippageExceeded);
                }
                match req.pay_token {
                    PayToken::Sol => {
                        l.vault_sol = l.vault_sol - buyback_in;
                    },
                    PayToken::Usdc => {
                        l.vault_usdc = l.vault_usdc - buyback_in;
                    },
                }
                l.vault_buyback = l.vault_buyback + a;
                acquired = a;
            },
        }
    } else {
        acquired = 0;
    }
    // Burn the configured fraction of what was acquired.
    let burn_amount = bps_share(acquired, req.burn_bps);
    if l.burned > u64::MAX - burn_amount {
        return Err(QantaraError::BalanceOverflow);
    }
    l.vault_buyback = l.vault_buyback - burn_amount;
    l.burned = l.burned + burn_amount;
    match transfer_merchant_payout(&mut l, payout, req.pay_token) {
        Ok(()) => (),
        Err(e) => {
            return Err(e);
        },
    }
    *ledger = l;
    Ok(
        PaymentSettled {
            merchant_id: req.merchant_id,
            payer: req.payer,
            amount: req.amount,
            pay_token: req.pay_token,
            protocol_fee: fee,
            payout_amount: payout,
            buyback_amount: acquired,
            burn_amount,
            timestamp,
        },
    )
}

impl MerchantConfig {
    /// Whether this merchant accepts payments in `t`.
    pub open spec fn accepts(self, t: PayToken) -> bool {
        match t {
            PayToken::Sol => self.allow_sol,
            PayToken::Usdc => self.allow_usdc,
        }
    }

    /// The registry entry this stored configuration stands for: the engine
    /// validates a configuration-sourced settlement against exactly this view.
    pub open spec fn registry_view(self, merchant_id: u64) -> MerchantRegistry {
        MerchantRegistry {
            merchant_id,
            owner: self.owner,
            payout_wallet: self.payout_wallet,
            buyback_mint: self.buyback_mint,
            frozen: self.frozen,
        }
    }

    /// The settlement request a configuration-sourced call amounts to: split
    /// fractions come from the stored configuration, everything else from the
    /// caller.
    pub open spec fn request_for(
        self,
        merchant_id: u64,
        payer: Address,
        amount: u64,
        pay_token: PayToken,
        min_out: u64,
        payout_wallet: Address,
        router: Address,
    ) -> SettlementRequest {
        SettlementRequest {
            merchant_id,
            payer,
            amount,
            pay_token,
            min_out,
            payout_bps: self.payout_bps,
            buyback_bps: self.buyback_bps,
            burn_bps: self.burn_of_buyback_bps,
            payout_wallet,
            buyback_mint: self.buyback_mint,
            router,
        }
    }
}

/// Execute one settlement whose split fractions come from the merchant's
/// stored configuration instead of the request: the second
/// configuration-sourcing strategy over the same engine.
///
/// The merchant must accept the offered currency; past that the call behaves
/// exactly as `settle` does on the stored parameters, with the same
/// all-or-nothing contract.
pub fn settle_with_config(
    protocol: &ProtocolConfig,
    config: &MerchantConfig,
    merchant_id: u64,
    payer: Address,
    amount: u64,
    pay_token: PayToken,
    min_out: u64,
    payout_wallet: Address,
    router: Address,
    swap: SwapOutcome,
    timestamp: i64,
    ledger: &mut Ledger,
) -> (r: Result<PaymentSettled, QantaraError>)
    requires
        protocol.wf(),
        config.wf(),
        amount >= 1,
    ensures
        r is Err ==> *final(ledger) == *old(ledger),
        !config.accepts(pay_token) ==> r == Err::<PaymentSettled, QantaraError>(
            QantaraError::PayTokenNotAllowed,
        ),
        config.accepts(pay_token) ==> (match settle_error(
            *protocol,
            config.registry_view(merchant_id),
            config.request_for(merchant_id, payer, amount, pay_token, min_out, payout_wallet, router),
            swap,
            *old(ledger),
        ) {
            Some(e) => r == Err::<PaymentSettled, QantaraError>(e),
            None => r == Ok::<PaymentSettled, QantaraError>(
                settle_receipt(
                    *protocol,
                    config.request_for(
                        merchant_id,
                        payer,
                        amount,
                        pay_token,
                        min_out,
                        payout_wallet,
                        router,
                    ),
                    swap,
                    timestamp,
                ),
            ) && *final(ledger) == settle_ledger(
                *protocol,
                config.request_for(
                    merchant_id,
                    payer,
                    amount,
                    pay_token,
                    min_out,
                    payout_wallet,
                    router,
                ),
                swap,
                *old(ledger),
            ),
        }),
{
    let allowed = match pay_token {
        PayToken::Sol => config.allow_sol,
        PayToken::Usdc => config.allow_usdc,
    };
    if !allowed {
        return Err(QantaraError::PayTokenNotAllowed);
    }
    let merchant = MerchantRegistry {
        merchant_id,
        owner: config.owner,
        payout_wallet: config.payout_wallet,
        buyback_mint: config.buyback_mint,
        frozen: config.frozen,
    };
    let req = SettlementRequest {
        merchant_id,
        payer,
        amount,
        pay_token,
        min_out,
        payout_bps: config.payout_bps,
        buyback_bps: config.buyback_bps,
        burn_bps: config.burn_of_buyback_bps,
        payout_wallet,
        buyback_mint: config.buyback_mint,
        router,
    };
    settle(protocol, &merchant, &req, swap, timestamp, ledger)
}

} // verus!
