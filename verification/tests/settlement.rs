use qantara::engine::settle;
use qantara::engine::plan_settlement;
use qantara::engine::SwapOutcome;
use qantara::errors::QantaraError;
use qantara::ledger::Ledger;
use qantara::state::Address;
use qantara::state::MerchantRegistry;
use qantara::state::PayToken;
use qantara::state::ProtocolConfig;
use qantara::state::SettlementRequest;

fn test_config() -> ProtocolConfig {
    ProtocolConfig {
        authority: Address(0, 0, 0, 1),
        protocol_fee_bps: 100,
        protocol_wallet: Address(0, 0, 0, 2),
        jupiter_router: Address(0, 0, 0, 3),
        paused: false,
    }
}

fn test_merchant() -> MerchantRegistry {
    MerchantRegistry {
        merchant_id: 7,
        owner: Address(0, 0, 0, 4),
        payout_wallet: Address(0, 0, 0, 5),
        buyback_mint: Address(0, 0, 0, 6),
        frozen: false,
    }
}

fn test_request() -> SettlementRequest {
    SettlementRequest {
        merchant_id: 7,
        payer: Address(0, 0, 0, 9),
        amount: 1_000_000,
        pay_token: PayToken::Sol,
        min_out: 190_000,
        payout_bps: 8000,
        buyback_bps: 2000,
        burn_bps: 5000,
        payout_wallet: Address(0, 0, 0, 5),
        buyback_mint: Address(0, 0, 0, 6),
        router: Address(0, 0, 0, 3),
    }
}

fn test_ledger() -> Ledger {
    Ledger {
        payer_sol: 2_000_000,
        payer_usdc: 3_000_000,
        vault_sol: 50,
        vault_usdc: 60,
        vault_buyback: 70,
        protocol_wallet_sol: 80,
        protocol_wallet_usdc: 90,
        merchant_payout_sol: 100,
        merchant_payout_usdc: 110,
        burned: 120,
    }
}

#[test]
fn scenario_full_breakdown() {
    // amount 1,000,000 at 100 bps fee -> fee 10,000, remaining 990,000;
    // 8000/2000 bps splits -> payout 792,000, buyback_in 198,000; a 1:1 swap
    // fills 198,000 over a 190,000 floor; 5000 bps burn -> 99,000.
    let config = test_config();
    let merchant = test_merchant();
    let req = test_request();
    let mut ledger = test_ledger();
    let r = settle(&config, &merchant, &req, SwapOutcome::Filled(198_000), 11, &mut ledger);
    let receipt = r.expect("the scenario settles");
    assert_eq!(receipt.merchant_id, 7);
    assert_eq!(receipt.payer, Address(0, 0, 0, 9));
    assert_eq!(receipt.amount, 1_000_000);
    assert_eq!(receipt.protocol_fee, 10_000);
    assert_eq!(receipt.payout_amount, 792_000);
    assert_eq!(receipt.buyback_amount, 198_000);
    assert_eq!(receipt.burn_amount, 99_000);
    assert_eq!(receipt.timestamp, 11);
    // The payer is down by exactly the amount; every split landed.
    assert_eq!(ledger.payer_sol, 1_000_000);
    assert_eq!(ledger.protocol_wallet_sol, 80 + 10_000);
    assert_eq!(ledger.merchant_payout_sol, 100 + 792_000);
    assert_eq!(ledger.vault_sol, 50 + 1_000_000 - 10_000 - 198_000 - 792_000);
    assert_eq!(ledger.vault_buyback, 70 + 198_000 - 99_000);
    assert_eq!(ledger.burned, 120 + 99_000);
    // Untouched balances stay.
    assert_eq!(ledger.payer_usdc, 3_000_000);
    assert_eq!(ledger.vault_usdc, 60);
}

#[test]
fn scenario_plan_matches_breakdown() {
    let r = plan_settlement(&test_config(), &test_merchant(), &test_request());
    let plan = r.expect("the scenario validates");
    assert_eq!(plan.fee, 10_000);
    assert_eq!(plan.remaining, 990_000);
    assert_eq!(plan.payout, 792_000);
    assert_eq!(plan.buyback_in, 198_000);
    assert_eq!(plan.min_out, 190_000);
}

#[test]
fn usdc_settlement_moves_usdc_balances() {
    let config = test_config();
    let merchant = test_merchant();
    let mut req = test_request();
    req.pay_token = PayToken::Usdc;
    let mut ledger = test_ledger();
    let r = settle(&config, &merchant, &req, SwapOutcome::Filled(198_000), 0, &mut ledger);
    assert!(r.is_ok());
    assert_eq!(ledger.payer_usdc, 2_000_000);
    assert_eq!(ledger.protocol_wallet_usdc, 90 + 10_000);
    assert_eq!(ledger.merchant_payout_usdc, 110 + 792_000);
    assert_eq!(ledger.payer_sol, 2_000_000);
    assert_eq!(ledger.merchant_payout_sol, 100);
}

#[test]
fn paused_protocol_rejects_settlement() {
    let mut config = test_config();
    config.paused = true;
    let mut ledger = test_ledger();
    let r = settle(
        &config,
        &test_merchant(),
        &test_request(),
        SwapOutcome::Filled(198_000),
        0,
        &mut ledger,
    );
    assert_eq!(r, Err(QantaraError::ProtocolPaused));
    assert_eq!(ledger, test_ledger());
}

#[test]
fn unknown_merchant_rejected() {
    let mut req = test_request();
    req.merchant_id = 8;
    let mut ledger = test_ledger();
    let r = settle(
        &test_config(),
        &test_merchant(),
        &req,
        SwapOutcome::Filled(198_000),
        0,
        &mut ledger,
    );
    assert_eq!(r, Err(QantaraError::InvalidMerchantId));
    assert_eq!(ledger, test_ledger());
}

#[test]
fn frozen_merchant_fails_before_any_transfer() {
    let mut merchant = test_merchant();
    merchant.frozen = true;
    let mut ledger = test_ledger();
    let r = settle(
        &test_config(),
        &merchant,
        &test_request(),
        SwapOutcome::Filled(198_000),
        0,
        &mut ledger,
    );
    assert_eq!(r, Err(QantaraError::MerchantFrozen));
    assert_eq!(ledger, test_ledger());
}

#[test]
fn rerouted_payout_wallet_rejected_with_zero_balance_change() {
    let mut req = test_request();
    req.payout_wallet = Address(9, 9, 9, 9);
    let mut ledger = test_ledger();
    let r = settle(
        &test_config(),
        &test_merchant(),
        &req,
        SwapOutcome::Filled(198_000),
        0,
        &mut ledger,
    );
    assert_eq!(r, Err(QantaraError::InvalidPayoutWallet));
    assert_eq!(ledger, test_ledger());
}

#[test]
fn mismatched_buyback_mint_rejected() {
    let mut req = test_request();
    req.buyback_mint = Address(9, 9, 9, 9);
    let mut ledger = test_ledger();
    let r = settle(
        &test_config(),
        &test_merchant(),
        &req,
        SwapOutcome::Filled(198_000),
        0,
        &mut ledger,
    );
    assert_eq!(r, Err(QantaraError::InvalidBuybackMint));
    assert_eq!(ledger, test_ledger());
}

#[test]
fn split_fractions_over_the_whole_rejected() {
    let mut req = test_request();
    req.payout_bps = 9000;
    req.buyback_bps = 1001;
    let mut ledger = test_ledger();
    let r = settle(
        &test_config(),
        &test_merchant(),
        &req,
        SwapOutcome::Filled(198_000),
        0,
        &mut ledger,
    );
    assert_eq!(r, Err(QantaraError::InvalidBasisPoints));
    assert_eq!(ledger, test_ledger());
}

#[test]
fn burn_fraction_over_the_whole_rejected() {
    let mut req = test_request();
    req.burn_bps = 10_001;
    let mut ledger = test_ledger();
    let r = settle(
        &test_config(),
        &test_merchant(),
        &req,
        SwapOutcome::Filled(198_000),
        0,
        &mut ledger,
    );
    assert_eq!(r, Err(QantaraError::InvalidBasisPoints));
    assert_eq!(ledger, test_ledger());
}

#[test]
fn unlisted_router_rejected() {
    let mut req = test_request();
    req.router = Address(9, 9, 9, 9);
    let mut ledger = test_ledger();
    let r = settle(
        &test_config(),
        &test_merchant(),
        &req,
        SwapOutcome::Filled(198_000),
        0,
        &mut ledger,
    );
    assert_eq!(r, Err(QantaraError::InvalidRouterProgram));
    assert_eq!(ledger, test_ledger());
}

#[test]
fn buyback_without_min_out_rejected() {
    let mut req = test_request();
    req.min_out = 0;
    let mut ledger = test_ledger();
    let r = settle(
        &test_config(),
        &test_merchant(),
        &req,
        SwapOutcome::Filled(198_000),
        0,
        &mut ledger,
    );
    assert_eq!(r, Err(QantaraError::InvalidMinOut));
    assert_eq!(ledger, test_ledger());
}

#[test]
fn swap_failure_rolls_everything_back() {
    let mut ledger = test_ledger();
    let r = settle(
        &test_config(),
        &test_merchant(),
        &test_request(),
        SwapOutcome::Failed,
        0,
        &mut ledger,
    );
    assert_eq!(r, Err(QantaraError::RouterCallFailed));
    // Receipt and fee transfer are rolled back together with the swap: the
    // whole ledger equals its pre-call state.
    assert_eq!(ledger, test_ledger());
}

#[test]
fn swap_below_min_out_rolls_everything_back() {
    let mut ledger = test_ledger();
    let r = settle(
        &test_config(),
        &test_merchant(),
        &test_request(),
        SwapOutcome::Filled(189_999),
        0,
        &mut ledger,
    );
    assert_eq!(r, Err(QantaraError::SlippageExceeded));
    assert_eq!(ledger, test_ledger());
}

#[test]
fn zero_buyback_skips_the_swap_entirely() {
    // With no buyback allocation the router outcome is never consulted: a
    // failed router cannot fail the settlement, and nothing is acquired.
    let mut req = test_request();
    req.payout_bps = 10_000;
    req.buyback_bps = 0;
    req.min_out = 0;
    let mut ledger = test_ledger();
    let r = settle(&test_config(), &test_merchant(), &req, SwapOutcome::Failed, 0, &mut ledger);
    let receipt = r.expect("settles without a swap");
    assert_eq!(receipt.buyback_amount, 0);
    assert_eq!(receipt.burn_amount, 0);
    assert_eq!(receipt.payout_amount, 990_000);
    assert_eq!(ledger.vault_buyback, 70);
    assert_eq!(ledger.burned, 120);
}

#[test]
fn poor_payer_rejected_without_change() {
    let mut ledger = test_ledger();
    ledger.payer_sol = 999_999;
    let before = ledger;
    let r = settle(
        &test_config(),
        &test_merchant(),
        &test_request(),
        SwapOutcome::Filled(198_000),
        0,
        &mut ledger,
    );
    assert_eq!(r, Err(QantaraError::InsufficientFunds));
    assert_eq!(ledger, before);
}

#[test]
fn custody_credit_overflow_rejected_without_change() {
    let mut ledger = test_ledger();
    ledger.vault_sol = u64::MAX - 999_999;
    let before = ledger;
    let r = settle(
        &test_config(),
        &test_merchant(),
        &test_request(),
        SwapOutcome::Filled(198_000),
        0,
        &mut ledger,
    );
    assert_eq!(r, Err(QantaraError::BalanceOverflow));
    assert_eq!(ledger, before);
}

#[test]
fn full_split_consumes_the_exact_amount() {
    // 0 bps fee and fractions summing to 10000 over a divisible amount: the
    // conservation bound is met with equality and custody keeps nothing.
    let mut config = test_config();
    config.protocol_fee_bps = 0;
    let mut req = test_request();
    req.amount = 1_000_000;
    req.payout_bps = 7500;
    req.buyback_bps = 2500;
    req.min_out = 1;
    let mut ledger = test_ledger();
    let r = settle(&config, &test_merchant(), &req, SwapOutcome::Filled(250_000), 0, &mut ledger);
    let receipt = r.expect("settles");
    assert_eq!(receipt.protocol_fee, 0);
    assert_eq!(receipt.payout_amount, 750_000);
    assert_eq!(ledger.vault_sol, 50);
    assert_eq!(ledger.payer_sol, 1_000_000);
}

#[test]
fn rounding_residue_stays_in_custody() {
    // 333 + 333 bps of a remainder of 999 each round down; what the splits do
    // not claim stays in custody rather than vanishing.
    let mut config = test_config();
    config.protocol_fee_bps = 10;
    let mut req = test_request();
    req.amount = 1000;
    req.payout_bps = 333;
    req.buyback_bps = 0;
    req.min_out = 0;
    let mut ledger = test_ledger();
    let r = settle(&config, &test_merchant(), &req, SwapOutcome::Failed, 0, &mut ledger);
    let receipt = r.expect("settles");
    // fee = floor(1000 * 10 / 10000) = 1, remaining = 999,
    // payout = floor(999 * 333 / 10000) = 33.
    assert_eq!(receipt.protocol_fee, 1);
    assert_eq!(receipt.payout_amount, 33);
    assert_eq!(ledger.vault_sol, 50 + 1000 - 1 - 33);
}
