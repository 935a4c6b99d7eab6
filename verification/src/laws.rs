//! The laws of the settlement engine, each proved from the contracts in
//! `engine` and the arithmetic facts in `math`.
//!
//! Together with `settle`'s own contract — a reported error always leaves the
//! caller's ledger untouched — these pin down conservation, the rerouting and
//! freeze guards, the slippage precondition, and swap-failure rollback.

use vstd::prelude::*;
use crate::engine::settle_error;
use crate::engine::settle_ledger;
use crate::engine::settlement_acquired;
use crate::engine::settlement_burn;
use crate::engine::settlement_buyback_in;
use crate::engine::settlement_fee;
use crate::engine::settlement_payout;
use crate::engine::settlement_remaining;
use crate::engine::validation_error;
use crate::engine::SwapOutcome;
use crate::errors::QantaraError;
use crate::ledger::Ledger;
use crate::math::lemma_bps_share_bounds;
use crate::math::lemma_bps_share_strict;
use crate::math::lemma_bps_shares_within;
use crate::state::BPS_DENOMINATOR;
use crate::state::MerchantRegistry;
use crate::state::PayToken;
use crate::state::ProtocolConfig;
use crate::state::SettlementRequest;

verus! {

/// Law: a settlement never allocates more than the payment. For every request
/// that passes validation, `fee + payout + buyback_in <= amount`.
pub proof fn lemma_settlement_conservation(
    config: ProtocolConfig,
    merchant: MerchantRegistry,
    req: SettlementRequest,
)
    requires
        config.wf(),
        req.wf(),
        validation_error(config, merchant, req) is None,
    ensures
        settlement_fee(config, req) + settlement_payout(config, req) + settlement_buyback_in(
            config,
            req,
        ) <= req.amount,
{
    lemma_bps_share_bounds(req.amount as int, config.protocol_fee_bps as int);
    lemma_bps_shares_within(
        settlement_remaining(config, req),
        req.payout_bps as int,
        req.buyback_bps as int,
    );
}

/// Law: the whole amount is allocated only when the split fractions claim the
/// whole remainder. If `fee + payout + buyback_in == amount`, then
/// `payout_bps + buyback_bps == 10000`.
pub proof fn lemma_settlement_exact_split(
    config: ProtocolConfig,
    merchant: MerchantRegistry,
    req: SettlementRequest,
)
    requires
        config.wf(),
        req.wf(),
        validation_error(config, merchant, req) is None,
        settlement_fee(config, req) + settlement_payout(config, req) + settlement_buyback_in(
            config,
            req,
        ) == req.amount,
    ensures
        req.payout_bps + req.buyback_bps == BPS_DENOMINATOR,
{
    lemma_bps_share_strict(req.amount as int, config.protocol_fee_bps as int);
    lemma_bps_shares_within(
        settlement_remaining(config, req),
        req.payout_bps as int,
        req.buyback_bps as int,
    );
}

/// Law, fee-free form: with no protocol fee, the whole amount is allocated
/// only when `payout_bps + buyback_bps == 10000 - protocol_fee_bps` exactly.
///
/// The restriction to a zero fee is necessary: with a positive fee rate the
/// fee can round to zero (say `amount == 10`, `protocol_fee_bps == 100`,
/// `payout_bps == buyback_bps == 5000`), the full amount is then allocated,
/// and the fractions sum to 10000 rather than `10000 - protocol_fee_bps`.
pub proof fn lemma_settlement_exact_split_no_fee(
    config: ProtocolConfig,
    merchant: MerchantRegistry,
    req: SettlementRequest,
)
    requires
        config.wf(),
        req.wf(),
        config.protocol_fee_bps == 0,
        validation_error(config, merchant, req) is None,
        settlement_fee(config, req) + settlement_payout(config, req) + settlement_buyback_in(
            config,
            req,
        ) == req.amount,
    ensures
        req.payout_bps + req.buyback_bps == BPS_DENOMINATOR - config.protocol_fee_bps,
{
    lemma_settlement_exact_split(config, merchant, req);
}

/// Law: a rerouting attempt always fails. A request whose proposed payout
/// wallet differs from the wallet on file never settles, and once the checks
/// ahead of the wallet comparison pass it fails with the rerouting-mismatch
/// error. By `settle`'s contract the failure leaves every balance unchanged.
pub proof fn lemma_rerouting_always_fails(
    config: ProtocolConfig,
    merchant: MerchantRegistry,
    req: SettlementRequest,
    swap: SwapOutcome,
    l: Ledger,
)
    requires
        req.payout_wallet != merchant.payout_wallet,
    ensures
        settle_error(config, merchant, req, swap, l) is Some,
        !config.paused && merchant.merchant_id == req.merchant_id && !merchant.frozen
            ==> settle_error(config, merchant, req, swap, l) == Some(
            QantaraError::InvalidPayoutWallet,
        ),
{
}

/// Law: a settlement against a frozen merchant always fails, and once the
/// pause and identity checks pass it fails with the freeze error — before any
/// transfer, since a failed `settle` changes no balance.
pub proof fn lemma_frozen_always_fails(
    config: ProtocolConfig,
    merchant: MerchantRegistry,
    req: SettlementRequest,
    swap: SwapOutcome,
    l: Ledger,
)
    requires
        merchant.frozen,
    ensures
        settle_error(config, merchant, req, swap, l) is Some,
        !config.paused && merchant.merchant_id == req.merchant_id ==> settle_error(
            config,
            merchant,
            req,
            swap,
            l,
        ) == Some(QantaraError::MerchantFrozen),
{
}

/// Law: a buyback without slippage protection always fails. A request with
/// `buyback_bps > 0` and `min_out == 0` never settles, and once the checks
/// ahead of the slippage precondition pass it fails with the missing-minimum
/// error.
pub proof fn lemma_missing_min_out_always_fails(
    config: ProtocolConfig,
    merchant: MerchantRegistry,
    req: SettlementRequest,
    swap: SwapOutcome,
    l: Ledger,
)
    requires
        req.buyback_bps > 0,
        req.min_out == 0,
    ensures
        settle_error(config, merchant, req, swap, l) is Some,
        !config.paused && merchant.merchant_id == req.merchant_id && !merchant.frozen
            && req.payout_wallet == merchant.payout_wallet && req.buyback_mint
            == merchant.buyback_mint && req.payout_bps + req.buyback_bps <= BPS_DENOMINATOR
            && req.burn_bps <= BPS_DENOMINATOR && req.router == config.jupiter_router
            ==> settle_error(config, merchant, req, swap, l) == Some(QantaraError::InvalidMinOut),
{
}

/// Law: the accounting of a committed settlement. Exactly `amount` leaves the
/// payer; the fee reaches the fee recipient, the payout the merchant wallet,
/// the buyback allocation the router, and the rounding residue stays in
/// custody; the acquired tokens land in custody except the burned fraction;
/// and no balance in the other currency moves at all.
pub proof fn lemma_settled_ledger_accounting(
    config: ProtocolConfig,
    merchant: MerchantRegistry,
    req: SettlementRequest,
    swap: SwapOutcome,
    l: Ledger,
)
    requires
        config.wf(),
        req.wf(),
        settle_error(config, merchant, req, swap, l) is None,
    ensures
        settle_ledger(config, req, swap, l).payer_balance(req.pay_token) == l.payer_balance(
            req.pay_token,
        ) - req.amount,
        settle_ledger(config, req, swap, l).protocol_balance(req.pay_token) == l.protocol_balance(
            req.pay_token,
        ) + settlement_fee(config, req),
        settle_ledger(config, req, swap, l).merchant_balance(req.pay_token) == l.merchant_balance(
            req.pay_token,
        ) + settlement_payout(config, req),
        settle_ledger(config, req, swap, l).vault_balance(req.pay_token) == l.vault_balance(
            req.pay_token,
        ) + req.amount - settlement_fee(config, req) - settlement_buyback_in(config, req)
            - settlement_payout(config, req),
        settle_ledger(config, req, swap, l).vault_buyback == l.vault_buyback + settlement_acquired(
            config,
            req,
            swap,
        ) - settlement_burn(config, req, swap),
        settle_ledger(config, req, swap, l).burned == l.burned + settlement_burn(config, req, swap),
        forall|u: PayToken|
            u != req.pay_token ==> #[trigger] settle_ledger(config, req, swap, l).payer_balance(u)
                == l.payer_balance(u),
        forall|u: PayToken|
            u != req.pay_token ==> #[trigger] settle_ledger(config, req, swap, l).vault_balance(u)
                == l.vault_balance(u),
        forall|u: PayToken|
            u != req.pay_token ==> #[trigger] settle_ledger(config, req, swap, l).protocol_balance(
                u,
            ) == l.protocol_balance(u),
        forall|u: PayToken|
            u != req.pay_token ==> #[trigger] settle_ledger(config, req, swap, l).merchant_balance(
                u,
            ) == l.merchant_balance(u),
{
    lemma_bps_share_bounds(req.amount as int, config.protocol_fee_bps as int);
    lemma_bps_shares_within(
        settlement_remaining(config, req),
        req.payout_bps as int,
        req.buyback_bps as int,
    );
    lemma_bps_share_bounds(settlement_acquired(config, req, swap), req.burn_bps as int);
}

/// Law: if the swap step fails, the settlement fails. A request that puts a
/// positive allocation into a failed router call never settles, so by
/// `settle`'s contract no balance change persists anywhere — the receipt and
/// the fee transfer roll back together with the swap.
pub proof fn lemma_swap_failure_rolls_back(
    config: ProtocolConfig,
    merchant: MerchantRegistry,
    req: SettlementRequest,
    swap: SwapOutcome,
    l: Ledger,
)
    requires
        swap is Failed,
        settlement_buyback_in(config, req) > 0,
    ensures
        settle_error(config, merchant, req, swap, l) is Some,
{
}

} // verus!
