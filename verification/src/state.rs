//! The data model: identities, stored configuration, the merchant registry,
//! settlement requests, and the records the protocol emits.

use vstd::prelude::*;

verus! {

/// Largest permitted protocol fee, in basis points (5%).
pub const MAX_PROTOCOL_FEE_BPS: u16 = 500;

/// Largest permitted slippage tolerance, in basis points (10%).
pub const MAX_SLIPPAGE_BPS: u16 = 1000;

/// The basis-point denominator: 10000 bps = 100%.
pub const BPS_DENOMINATOR: u16 = 10000;

/// A 256-bit account identity, held as four 64-bit limbs.
///
/// The engine never computes with an identity; it only compares them, so the
/// limbs are opaque. Wallets, token identifiers, program identities and
/// signers all use this one type.
#[derive(Clone, Copy, Debug, PartialEq, Eq, Structural)]
pub struct Address(pub u64, pub u64, pub u64, pub u64);

/// The currency a buyer pays in.
#[derive(Clone, Copy, Debug, PartialEq, Eq, Structural)]
pub enum PayToken {
    /// The native currency.
    Sol,
    /// The accepted stable coin.
    Usdc,
}

/// Global protocol configuration: a singleton created once by the protocol
/// authority and mutated only by it.
#[derive(Clone, Copy, Debug, PartialEq, Eq, Structural)]
pub struct ProtocolConfig {
    /// The identity with update rights over this configuration.
    pub authority: Address,
    /// Protocol fee in basis points; at most 500 (5%) at all times.
    pub protocol_fee_bps: u16,
    /// Recipient of the protocol fee.
    pub protocol_wallet: Address,
    /// The single allow-listed external liquidity router.
    pub jupiter_router: Address,
    /// Emergency pause: while set, no settlement runs.
    pub paused: bool,
}

impl ProtocolConfig {
    /// The configuration invariant: the fee never exceeds its cap.
    pub open spec fn wf(self) -> bool {
        self.protocol_fee_bps <= MAX_PROTOCOL_FEE_BPS
    }
}

/// One merchant's registry entry: the tamper-resistant record a settlement is
/// validated against before any value moves.
///
/// `payout_wallet` and `buyback_mint` are the sole sources of truth for an
/// in-flight settlement; a request may propose a destination, but it is
/// accepted only if it equals the stored value.
#[derive(Clone, Copy, Debug, PartialEq, Eq, Structural)]
pub struct MerchantRegistry {
    /// Stable external merchant identifier; zero marks an unclaimed entry.
    pub merchant_id: u64,
    /// The identity with update rights over this entry.
    pub owner: Address,
    /// The only destination a settlement may pay the merchant at.
    pub payout_wallet: Address,
    /// The only token a settlement may buy back for this merchant.
    pub buyback_mint: Address,
    /// Emergency freeze: while set, no settlement runs for this merchant.
    pub frozen: bool,
}

/// A merchant's stored settlement parameters: the configuration-sourcing
/// strategy in which the split fractions are on file rather than supplied per
/// call.
#[derive(Clone, Copy, Debug, PartialEq, Eq, Structural)]
pub struct MerchantConfig {
    /// The identity with update rights over this configuration.
    pub owner: Address,
    /// The only destination a settlement may pay the merchant at.
    pub payout_wallet: Address,
    /// Whether the merchant accepts the native currency.
    pub allow_sol: bool,
    /// Whether the merchant accepts the stable coin.
    pub allow_usdc: bool,
    /// The token bought back and partially burned.
    pub buyback_mint: Address,
    /// Merchant payout share of the post-fee remainder, in basis points.
    pub payout_bps: u16,
    /// Buyback share of the post-fee remainder, in basis points.
    pub buyback_bps: u16,
    /// Fraction of the acquired token to destroy, in basis points.
    pub burn_of_buyback_bps: u16,
    /// Largest slippage tolerance this merchant accepts, in basis points.
    pub slippage_bps_max: u16,
    /// The router this merchant's buybacks must go through.
    pub router_program: Address,
    /// Emergency freeze: while set, no settlement runs for this merchant.
    pub frozen: bool,
}

impl MerchantConfig {
    /// The stored-configuration invariant: splits fit in the whole, the burn
    /// fraction is a fraction, and the slippage tolerance is capped.
    pub open spec fn wf(self) -> bool {
        &&& self.payout_bps + self.buyback_bps <= BPS_DENOMINATOR
        &&& self.burn_of_buyback_bps <= BPS_DENOMINATOR
        &&& self.slippage_bps_max <= MAX_SLIPPAGE_BPS
    }
}

/// One settlement request: ephemeral, self-contained, supplied per call.
///
/// The wallet, token and router fields are what the caller's transaction
/// proposes; the engine accepts them only if they match the stored
/// configuration.
#[derive(Clone, Copy, Debug, PartialEq, Eq, Structural)]
pub struct SettlementRequest {
    /// The merchant this payment settles for.
    pub merchant_id: u64,
    /// The buyer the payment is drawn from.
    pub payer: Address,
    /// Payment amount in the smallest currency unit; always positive.
    pub amount: u64,
    /// The currency the buyer pays in.
    pub pay_token: PayToken,
    /// Minimum acceptable swap output; the slippage guard.
    pub min_out: u64,
    /// Merchant payout share of the post-fee remainder, in basis points.
    pub payout_bps: u16,
    /// Buyback share of the post-fee remainder, in basis points.
    pub buyback_bps: u16,
    /// Fraction of the acquired token to destroy, in basis points.
    pub burn_bps: u16,
    /// The payout destination the caller proposes.
    pub payout_wallet: Address,
    /// The buyback token the caller proposes.
    pub buyback_mint: Address,
    /// The router the caller's transaction targets.
    pub router: Address,
}

impl SettlementRequest {
    /// A request is meaningful only for a positive amount.
    pub open spec fn wf(self) -> bool {
        self.amount >= 1
    }
}

/// Arguments for creating the protocol configuration.
#[derive(Clone, Copy, Debug, PartialEq, Eq, Structural)]
pub struct InitProtocolArgs {
    pub protocol_fee_bps: u16,
    pub protocol_wallet: Address,
    pub jupiter_router: Address,
}

/// Arguments for registering a merchant.
#[derive(Clone, Copy, Debug, PartialEq, Eq, Structural)]
pub struct RegisterMerchantArgs {
    pub merchant_id: u64,
    pub payout_wallet: Address,
    pub buyback_mint: Address,
}

/// Arguments for creating a merchant's stored settlement parameters.
#[derive(Clone, Copy, Debug, PartialEq, Eq, Structural)]
pub struct InitMerchantArgs {
    pub payout_wallet: Address,
    pub allow_sol: bool,
    pub allow_usdc: bool,
    pub buyback_mint: Address,
    pub payout_bps: u16,
    pub buyback_bps: u16,
    pub burn_of_buyback_bps: u16,
    pub slippage_bps_max: u16,
    pub router_program: Address,
}

/// A partial update to a merchant's stored settlement parameters.
#[derive(Clone, Copy, Debug, PartialEq, Eq, Structural)]
pub struct UpdateMerchantArgs {
    pub payout_bps: Option<u16>,
    pub buyback_bps: Option<u16>,
    pub burn_of_buyback_bps: Option<u16>,
    pub slippage_bps_max: Option<u16>,
    pub frozen: Option<bool>,
}

/// Record of the protocol configuration having been created.
#[derive(Clone, Copy, Debug, PartialEq, Eq, Structural)]
pub struct ProtocolInitialized {
    pub authority: Address,
    pub protocol_fee_bps: u16,
    pub protocol_wallet: Address,
}

/// Record of the protocol having been paused or unpaused.
#[derive(Clone, Copy, Debug, PartialEq, Eq, Structural)]
pub struct ProtocolPaused {
    pub paused: bool,
}

/// Record of a merchant having been registered.
#[derive(Clone, Copy, Debug, PartialEq, Eq, Structural)]
pub struct MerchantRegistered {
    pub merchant_id: u64,
    pub owner: Address,
    pub payout_wallet: Address,
    pub buyback_mint: Address,
}

/// Record of a merchant having been frozen or unfrozen.
#[derive(Clone, Copy, Debug, PartialEq, Eq, Structural)]
pub struct MerchantFrozen {
    pub merchant_id: u64,
    pub frozen: bool,
}

/// Record of a merchant's stored settlement parameters having been created.
#[derive(Clone, Copy, Debug, PartialEq, Eq, Structural)]
pub struct MerchantInitialized {
    pub owner: Address,
    pub buyback_mint: Address,
}

/// The immutable receipt of one committed settlement: the full numeric
/// breakdown of where the payment went.
#[derive(Clone, Copy, Debug, PartialEq, Eq, Structural)]
pub struct PaymentSettled {
    pub merchant_id: u64,
    pub payer: Address,
    pub amount: u64,
    pub pay_token: PayToken,
    pub protocol_fee: u64,
    pub payout_amount: u64,
    pub buyback_amount: u64,
    pub burn_amount: u64,
    pub timestamp: i64,
}

} // verus!
