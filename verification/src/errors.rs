//! The error taxonomy of the settlement protocol.

use vstd::prelude::*;

verus! {

/// Every way a protocol operation can be refused.
///
/// All of these cause a full, atomic rollback of the operation that raised
/// them: no partial effect is ever observable.
#[derive(Clone, Copy, Debug, PartialEq, Eq, Structural)]
pub enum QantaraError {
    /// Configuration: the requested protocol fee exceeds the 500 bps cap.
    ProtocolFeeTooHigh,
    /// Configuration: the protocol is paused.
    ProtocolPaused,
    /// Registry mismatch: no registry entry carries the requested merchant id.
    InvalidMerchantId,
    /// Registry mismatch: the merchant's registry entry is frozen.
    MerchantFrozen,
    /// Registry mismatch: the supplied payout wallet differs from the one on
    /// file (a rerouting attempt).
    InvalidPayoutWallet,
    /// Registry mismatch: the supplied buyback token differs from the one on
    /// file.
    InvalidBuybackMint,
    /// Arithmetic: a basis-point argument or sum exceeds 10000.
    InvalidBasisPoints,
    /// Configuration: the requested slippage tolerance exceeds the 1000 bps cap.
    SlippageTooHigh,
    /// The merchant does not accept the offered payment token.
    PayTokenNotAllowed,
    /// Routing: the router the transaction targets is not the allow-listed one.
    InvalidRouterProgram,
    /// Slippage: the swap produced less than the requested minimum output.
    SlippageExceeded,
    /// A buyback was requested with a zero minimum output, which would disable
    /// slippage protection.
    InvalidMinOut,
    /// Authorization: the signer is not the owner or authority on file.
    Unauthorized,
    /// The payer's balance does not cover the payment amount.
    InsufficientFunds,
    /// Arithmetic: crediting a balance would overflow its representation.
    BalanceOverflow,
    /// Routing: the router call itself failed, so the settlement rolls back.
    RouterCallFailed,
}

} // verus!
