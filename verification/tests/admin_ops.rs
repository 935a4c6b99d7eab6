use qantara::admin::init_merchant;
use qantara::admin::init_protocol;
use qantara::admin::register_merchant;
use qantara::admin::update_merchant;
use qantara::admin::update_protocol;
use qantara::errors::QantaraError;
use qantara::state::Address;
use qantara::state::InitMerchantArgs;
use qantara::state::MerchantRegistry;
use qantara::state::UpdateMerchantArgs;

fn merchant_args() -> InitMerchantArgs {
    InitMerchantArgs {
        payout_wallet: Address(1, 1, 1, 1),
        allow_sol: true,
        allow_usdc: false,
        buyback_mint: Address(2, 2, 2, 2),
        payout_bps: 8000,
        buyback_bps: 2000,
        burn_of_buyback_bps: 5000,
        slippage_bps_max: 100,
        router_program: Address(3, 3, 3, 3),
    }
}

fn no_update() -> UpdateMerchantArgs {
    UpdateMerchantArgs {
        payout_bps: None,
        buyback_bps: None,
        burn_of_buyback_bps: None,
        slippage_bps_max: None,
        frozen: None,
    }
}

#[test]
fn init_protocol_within_cap() {
    let r = init_protocol(Address(0, 0, 0, 1), 500, Address(0, 0, 0, 2), Address(0, 0, 0, 3));
    let (config, event) = r.expect("500 bps is the cap itself");
    assert_eq!(config.protocol_fee_bps, 500);
    assert!(!config.paused);
    assert_eq!(event.authority, Address(0, 0, 0, 1));
    assert_eq!(event.protocol_wallet, Address(0, 0, 0, 2));
}

#[test]
fn init_protocol_fee_over_cap_rejected() {
    let r = init_protocol(Address(0, 0, 0, 1), 501, Address(0, 0, 0, 2), Address(0, 0, 0, 3));
    assert_eq!(r.unwrap_err(), QantaraError::ProtocolFeeTooHigh);
}

#[test]
fn update_protocol_needs_the_authority() {
    let (mut config, _) = init_protocol(
        Address(0, 0, 0, 1),
        100,
        Address(0, 0, 0, 2),
        Address(0, 0, 0, 3),
    ).unwrap();
    let before = config;
    let r = update_protocol(&mut config, Address(7, 7, 7, 7), Some(0), None, None, None);
    assert_eq!(r, Err(QantaraError::Unauthorized));
    assert_eq!(config, before);
}

#[test]
fn update_protocol_applies_partial_updates() {
    let (mut config, _) = init_protocol(
        Address(0, 0, 0, 1),
        100,
        Address(0, 0, 0, 2),
        Address(0, 0, 0, 3),
    ).unwrap();
    let r = update_protocol(
        &mut config,
        Address(0, 0, 0, 1),
        Some(250),
        None,
        Some(Address(4, 4, 4, 4)),
        Some(true),
    );
    let event = r.expect("the authority may update").expect("the pause flag was touched");
    assert!(event.paused);
    assert_eq!(config.protocol_fee_bps, 250);
    assert_eq!(config.protocol_wallet, Address(0, 0, 0, 2));
    assert_eq!(config.jupiter_router, Address(4, 4, 4, 4));
    assert!(config.paused);
}

#[test]
fn update_protocol_fee_over_cap_rejected() {
    let (mut config, _) = init_protocol(
        Address(0, 0, 0, 1),
        100,
        Address(0, 0, 0, 2),
        Address(0, 0, 0, 3),
    ).unwrap();
    let before = config;
    let r = update_protocol(&mut config, Address(0, 0, 0, 1), Some(501), None, None, Some(true));
    assert_eq!(r, Err(QantaraError::ProtocolFeeTooHigh));
    assert_eq!(config, before);
}

#[test]
fn register_merchant_claims_a_fresh_entry() {
    let mut entry = MerchantRegistry {
        merchant_id: 0,
        owner: Address(0, 0, 0, 0),
        payout_wallet: Address(0, 0, 0, 0),
        buyback_mint: Address(0, 0, 0, 0),
        frozen: true,
    };
    let r = register_merchant(&mut entry, Address(0, 0, 0, 4), 7, Address(1, 1, 1, 1), Address(2, 2, 2, 2));
    let event = r.expect("a fresh entry can be claimed");
    assert_eq!(event.merchant_id, 7);
    assert_eq!(entry.merchant_id, 7);
    assert_eq!(entry.owner, Address(0, 0, 0, 4));
    assert_eq!(entry.payout_wallet, Address(1, 1, 1, 1));
    assert_eq!(entry.buyback_mint, Address(2, 2, 2, 2));
    assert!(!entry.frozen);
}

#[test]
fn register_merchant_reasserts_the_same_id() {
    let mut entry = MerchantRegistry {
        merchant_id: 7,
        owner: Address(0, 0, 0, 4),
        payout_wallet: Address(1, 1, 1, 1),
        buyback_mint: Address(2, 2, 2, 2),
        frozen: false,
    };
    let r = register_merchant(&mut entry, Address(0, 0, 0, 8), 7, Address(5, 5, 5, 5), Address(2, 2, 2, 2));
    assert!(r.is_ok());
    assert_eq!(entry.owner, Address(0, 0, 0, 8));
    assert_eq!(entry.payout_wallet, Address(5, 5, 5, 5));
}

#[test]
fn register_merchant_rejects_a_colliding_id() {
    let mut entry = MerchantRegistry {
        merchant_id: 7,
        owner: Address(0, 0, 0, 4),
        payout_wallet: Address(1, 1, 1, 1),
        buyback_mint: Address(2, 2, 2, 2),
        frozen: false,
    };
    let before = entry;
    let r = register_merchant(&mut entry, Address(0, 0, 0, 4), 8, Address(1, 1, 1, 1), Address(2, 2, 2, 2));
    assert_eq!(r.unwrap_err(), QantaraError::InvalidMerchantId);
    assert_eq!(entry, before);
}

#[test]
fn update_merchant_needs_the_owner() {
    let mut entry = MerchantRegistry {
        merchant_id: 7,
        owner: Address(0, 0, 0, 4),
        payout_wallet: Address(1, 1, 1, 1),
        buyback_mint: Address(2, 2, 2, 2),
        frozen: false,
    };
    let before = entry;
    let r = update_merchant(&mut entry, Address(9, 9, 9, 9), None, None, Some(true));
    assert_eq!(r, Err(QantaraError::Unauthorized));
    assert_eq!(entry, before);
}

#[test]
fn update_merchant_freeze_reports_the_freeze() {
    let mut entry = MerchantRegistry {
        merchant_id: 7,
        owner: Address(0, 0, 0, 4),
        payout_wallet: Address(1, 1, 1, 1),
        buyback_mint: Address(2, 2, 2, 2),
        frozen: false,
    };
    let r = update_merchant(
        &mut entry,
        Address(0, 0, 0, 4),
        Some(Address(5, 5, 5, 5)),
        None,
        Some(true),
    );
    let event = r.expect("the owner may update").expect("the freeze flag was touched");
    assert_eq!(event.merchant_id, 7);
    assert!(event.frozen);
    assert!(entry.frozen);
    assert_eq!(entry.payout_wallet, Address(5, 5, 5, 5));
    assert_eq!(entry.buyback_mint, Address(2, 2, 2, 2));
    assert_eq!(entry.merchant_id, 7);
}

#[test]
fn init_merchant_within_bounds() {
    let r = init_merchant(Address(0, 0, 0, 4), merchant_args());
    let (config, event) = r.expect("the arguments are within bounds");
    assert_eq!(config.owner, Address(0, 0, 0, 4));
    assert_eq!(config.payout_bps, 8000);
    assert!(!config.frozen);
    assert_eq!(event.buyback_mint, Address(2, 2, 2, 2));
}

#[test]
fn init_merchant_rejects_oversized_splits() {
    let mut args = merchant_args();
    args.payout_bps = 9000;
    args.buyback_bps = 1001;
    let r = init_merchant(Address(0, 0, 0, 4), args);
    assert_eq!(r.unwrap_err(), QantaraError::InvalidBasisPoints);
}

#[test]
fn init_merchant_rejects_oversized_burn() {
    let mut args = merchant_args();
    args.burn_of_buyback_bps = 10_001;
    let r = init_merchant(Address(0, 0, 0, 4), args);
    assert_eq!(r.unwrap_err(), QantaraError::InvalidBasisPoints);
}

#[test]
fn init_merchant_rejects_oversized_slippage() {
    let mut args = merchant_args();
    args.slippage_bps_max = 1001;
    let r = init_merchant(Address(0, 0, 0, 4), args);
    assert_eq!(r.unwrap_err(), QantaraError::SlippageTooHigh);
}

#[test]
fn update_merchant_config_checks_joint_split() {
    let (mut config, _) = init_merchant(Address(0, 0, 0, 4), merchant_args()).unwrap();
    let before = config;
    let mut args = no_update();
    args.payout_bps = Some(8001);
    let r = config.update_merchant(Address(0, 0, 0, 4), args);
    assert_eq!(r, Err(QantaraError::InvalidBasisPoints));
    assert_eq!(config, before);
}

#[test]
fn update_merchant_config_applies_joint_split() {
    // The new payout fraction is checked against the buyback fraction still
    // standing next to it, so it may only grow into room that already exists.
    let (mut config, _) = init_merchant(Address(0, 0, 0, 4), merchant_args()).unwrap();
    let mut args = no_update();
    args.payout_bps = Some(7000);
    args.buyback_bps = Some(3000);
    args.frozen = Some(true);
    let r = config.update_merchant(Address(0, 0, 0, 4), args);
    assert!(r.is_ok());
    assert_eq!(config.payout_bps, 7000);
    assert_eq!(config.buyback_bps, 3000);
    assert!(config.frozen);
}

#[test]
fn update_merchant_config_needs_the_owner() {
    let (mut config, _) = init_merchant(Address(0, 0, 0, 4), merchant_args()).unwrap();
    let before = config;
    let r = config.update_merchant(Address(9, 9, 9, 9), no_update());
    assert_eq!(r, Err(QantaraError::Unauthorized));
    assert_eq!(config, before);
}
