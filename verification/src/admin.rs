//! The administrative operations: creating and updating the protocol
//! configuration, the merchant registry, and merchants' stored settlement
//! parameters. Pure reads and field updates guarded by authorization and
//! bounds checks; a failed update changes nothing.

use vstd::prelude::*;
use crate::errors::QantaraError;
use crate::state::Address;
use crate::state::BPS_DENOMINATOR;
use crate::state::InitMerchantArgs;
use crate::state::MAX_PROTOCOL_FEE_BPS;
use crate::state::MAX_SLIPPAGE_BPS;
use crate::state::MerchantConfig;
use crate::state::MerchantFrozen;
use crate::state::MerchantInitialized;
use crate::state::MerchantRegistered;
use crate::state::MerchantRegistry;
use crate::state::ProtocolConfig;
use crate::state::ProtocolInitialized;
use crate::state::ProtocolPaused;
use crate::state::UpdateMerchantArgs;

verus! {

/// Create the protocol configuration (one-time, by the protocol authority).
///
/// Fails only when the requested fee exceeds the 500 bps cap, so the
/// configuration invariant holds from birth.
pub fn init_protocol(
    authority: Address,
    protocol_fee_bps: u16,
    protocol_wallet: Address,
    jupiter_router: Address,
) -> (r: Result<(ProtocolConfig, ProtocolInitialized), QantaraError>)
    ensures
        protocol_fee_bps > MAX_PROTOCOL_FEE_BPS ==> r == Err::<
            (ProtocolConfig, ProtocolInitialized),
            QantaraError,
        >(QantaraError::ProtocolFeeTooHigh),
        protocol_fee_bps <= MAX_PROTOCOL_FEE_BPS ==> r == Ok::<
            (ProtocolConfig, ProtocolInitialized),
            QantaraError,
        >(
            (
                ProtocolConfig {
                    authority,
                    protocol_fee_bps,
                    protocol_wallet,
                    jupiter_router,
                    paused: false,
                },
                ProtocolInitialized { authority, protocol_fee_bps, protocol_wallet },
            ),
        ),
        r matches Ok(c) ==> c.0.wf(),
{
    if protocol_fee_bps > MAX_PROTOCOL_FEE_BPS {
        return Err(QantaraError::ProtocolFeeTooHigh);
    }
    let config = ProtocolConfig {
        authority,
        protocol_fee_bps,
        protocol_wallet,
        jupiter_router,
        paused: false,
    };
    Ok((config, ProtocolInitialized { authority, protocol_fee_bps, protocol_wallet }))
}

/// Partially update the protocol configuration (authority only). Returns the
/// pause record when the pause flag was touched.
///
/// A failed update — wrong authority, or a fee over the cap — changes nothing,
/// and a successful one preserves the configuration invariant.
pub fn update_protocol(
    config: &mut ProtocolConfig,
    authority: Address,
    protocol_fee_bps: Option<u16>,
    protocol_wallet: Option<Address>,
    jupiter_router: Option<Address>,
    paused: Option<bool>,
) -> (r: Result<Option<ProtocolPaused>, QantaraError>)
    ensures
        r is Err ==> *final(config) == *old(config),
        authority != old(config).authority ==> r == Err::<Option<ProtocolPaused>, QantaraError>(
            QantaraError::Unauthorized,
        ),
        authority == old(config).authority && (protocol_fee_bps matches Some(f) && f
            > MAX_PROTOCOL_FEE_BPS) ==> r == Err::<Option<ProtocolPaused>, QantaraError>(
            QantaraError::ProtocolFeeTooHigh,
        ),
        authority == old(config).authority && (match protocol_fee_bps {
            Some(f) => f <= MAX_PROTOCOL_FEE_BPS,
            None => true,
        }) ==> {
            &&& final(config).authority == old(config).authority
            &&& final(config).protocol_fee_bps == (match protocol_fee_bps {
                Some(f) => f,
                None => old(config).protocol_fee_bps,
            })
            &&& final(config).protocol_wallet == (match protocol_wallet {
                Some(w) => w,
                None => old(config).protocol_wallet,
            })
            &&& final(config).jupiter_router == (match jupiter_router {
                Some(j) => j,
                None => old(config).jupiter_router,
            })
            &&& final(config).paused == (match paused {
                Some(p) => p,
                None => old(config).paused,
            })
            &&& r == Ok::<Option<ProtocolPaused>, QantaraError>(
                match paused {
                    Some(p) => Some(ProtocolPaused { paused: p }),
                    None => None,
                },
            )
        },
        old(config).wf() && r is Ok ==> final(config).wf(),
{
    if authority != config.authority {
        return Err(QantaraError::Unauthorized);
    }
    if let Some(fee_bps) = protocol_fee_bps {
        if fee_bps > MAX_PROTOCOL_FEE_BPS {
            return Err(QantaraError::ProtocolFeeTooHigh);
        }
        config.protocol_fee_bps = fee_bps;
    }
    if let Some(wallet) = protocol_wallet {
        config.protocol_wallet = wallet;
    }
    if let Some(router) = jupiter_router {
        config.jupiter_router = router;
    }
    match paused {
        Some(pause) => {
            config.paused = pause;
            Ok(Some(ProtocolPaused { paused: pause }))
        },
        None => Ok(None),
    }
}

/// Register a merchant, or re-assert an entry already bound to the same
/// identifier: the step that puts the payout wallet and buyback token on file,
/// defeating later rerouting attempts.
///
/// An entry already claimed by a different identifier is refused and left
/// unchanged.
pub fn register_merchant(
    entry: &mut MerchantRegistry,
    owner: Address,
    merchant_id: u64,
    payout_wallet: Address,
    buyback_mint: Address,
) -> (r: Result<MerchantRegistered, QantaraError>)
    ensures
        r is Err ==> *final(entry) == *old(entry),
        old(entry).merchant_id != merchant_id && old(entry).merchant_id != 0 ==> r == Err::<
            MerchantRegistered,
            QantaraError,
        >(QantaraError::InvalidMerchantId),
        old(entry).merchant_id == merchant_id || old(entry).merchant_id == 0 ==> *final(entry) == (
        MerchantRegistry { merchant_id, owner, payout_wallet, buyback_mint, frozen: false }) && r
            == Ok::<MerchantRegistered, QantaraError>(
            MerchantRegistered { merchant_id, owner, payout_wallet, buyback_mint },
        ),
{
    if entry.merchant_id != merchant_id && entry.merchant_id != 0 {
        return Err(QantaraError::InvalidMerchantId);
    }
    entry.merchant_id = merchant_id;
    entry.owner = owner;
    entry.payout_wallet = payout_wallet;
    entry.buyback_mint = buyback_mint;
    entry.frozen = false;
    Ok(MerchantRegistered { merchant_id, owner, payout_wallet, buyback_mint })
}

/// Partially update a merchant's registry entry (owner only). Returns the
/// freeze record when the freeze flag was touched.
///
/// The merchant identifier is immutable; a failed update changes nothing.
pub fn update_merchant(
    merchant: &mut MerchantRegistry,
    owner: Address,
    payout_wallet: Option<Address>,
    buyback_mint: Option<Address>,
    frozen: Option<bool>,
) -> (r: Result<Option<MerchantFrozen>, QantaraError>)
    ensures
        r is Err ==> *final(merchant) == *old(merchant),
        owner != old(merchant).owner ==> r == Err::<Option<MerchantFrozen>, QantaraError>(
            QantaraError::Unauthorized,
        ),
        owner == old(merchant).owner ==> {
            &&& final(merchant).merchant_id == old(merchant).merchant_id
            &&& final(merchant).owner == old(merchant).owner
            &&& final(merchant).payout_wallet == (match payout_wallet {
                Some(w) => w,
                None => old(merchant).payout_wallet,
            })
            &&& final(merchant).buyback_mint == (match buyback_mint {
                Some(m) => m,
                None => old(merchant).buyback_mint,
            })
            &&& final(merchant).frozen == (match frozen {
                Some(f) => f,
                None => old(merchant).frozen,
            })
            &&& r == Ok::<Option<MerchantFrozen>, QantaraError>(
                match frozen {
                    Some(f) => Some(
                        MerchantFrozen { merchant_id: old(merchant).merchant_id, frozen: f },
                    ),
                    None => None,
                },
            )
        },
{
    if owner != merchant.owner {
        return Err(QantaraError::Unauthorized);
    }
    if let Some(wallet) = payout_wallet {
        merchant.payout_wallet = wallet;
    }
    if let Some(mint) = buyback_mint {
        merchant.buyback_mint = mint;
    }
    match frozen {
        Some(freeze) => {
            merchant.frozen = freeze;
            Ok(Some(MerchantFrozen { merchant_id: merchant.merchant_id, frozen: freeze }))
        },
        None => Ok(None),
    }
}

/// Create a merchant's stored settlement parameters (by the merchant owner):
/// the configuration-sourcing strategy in which split fractions live on file.
///
/// The split, burn and slippage bounds are checked in that order, so the
/// stored-configuration invariant holds from birth.
pub fn init_merchant(owner: Address, args: InitMerchantArgs) -> (r: Result<
    (MerchantConfig, MerchantInitialized),
    QantaraError,
>)
    ensures
        args.payout_bps + args.buyback_bps > BPS_DENOMINATOR ==> r == Err::<
            (MerchantConfig, MerchantInitialized),
            QantaraError,
        >(QantaraError::InvalidBasisPoints),
        args.payout_bps + args.buyback_bps <= BPS_DENOMINATOR && args.burn_of_buyback_bps
            > BPS_DENOMINATOR ==> r == Err::<(MerchantConfig, MerchantInitialized), QantaraError>(
            QantaraError::InvalidBasisPoints,
        ),
        args.payout_bps + args.buyback_bps <= BPS_DENOMINATOR && args.burn_of_buyback_bps
            <= BPS_DENOMINATOR && args.slippage_bps_max > MAX_SLIPPAGE_BPS ==> r == Err::<
            (MerchantConfig, MerchantInitialized),
            QantaraError,
        >(QantaraError::SlippageTooHigh),
        args.payout_bps + args.buyback_bps <= BPS_DENOMINATOR && args.burn_of_buyback_bps
            <= BPS_DENOMINATOR && args.slippage_bps_max <= MAX_SLIPPAGE_BPS ==> r == Ok::<
            (MerchantConfig, MerchantInitialized),
            QantaraError,
        >(
            (
                MerchantConfig {
                    owner,
                    payout_wallet: args.payout_wallet,
                    allow_sol: args.allow_sol,
                    allow_usdc: args.allow_usdc,
                    buyback_mint: args.buyback_mint,
                    payout_bps: args.payout_bps,
                    buyback_bps: args.buyback_bps,
                    burn_of_buyback_bps: args.burn_of_buyback_bps,
                    slippage_bps_max: args.slippage_bps_max,
                    router_program: args.router_program,
                    frozen: false,
                },
                MerchantInitialized { owner, buyback_mint: args.buyback_mint },
            ),
        ),
        r matches Ok(c) ==> c.0.wf(),
{
    if (args.payout_bps as u32) + (args.buyback_bps as u32) > (BPS_DENOMINATOR as u32) {
        return Err(QantaraError::InvalidBasisPoints);
    }
    if args.burn_of_buyback_bps > BPS_DENOMINATOR {
        return Err(QantaraError::InvalidBasisPoints);
    }
    if args.slippage_bps_max > MAX_SLIPPAGE_BPS {
        return Err(QantaraError::SlippageTooHigh);
    }
    let config = MerchantConfig {
        owner,
        payout_wallet: args.payout_wallet,
        allow_sol: args.allow_sol,
        allow_usdc: args.allow_usdc,
        buyback_mint: args.buyback_mint,
        payout_bps: args.payout_bps,
        buyback_bps: args.buyback_bps,
        burn_of_buyback_bps: args.burn_of_buyback_bps,
        slippage_bps_max: args.slippage_bps_max,
        router_program: args.router_program,
        frozen: false,
    };
    Ok((config, MerchantInitialized { owner, buyback_mint: args.buyback_mint }))
}

impl MerchantConfig {
    /// The new payout fraction an update would leave in place.
    pub open spec fn updated_payout_bps(self, args: UpdateMerchantArgs) -> u16 {
        match args.payout_bps {
            Some(p) => p,
            None => self.payout_bps,
        }
    }

    /// Partially update stored settlement parameters (owner only).
    ///
    /// Each new split fraction is checked against the fraction standing next
    /// to it, in the order the arguments are given; a failed update changes
    /// nothing, and a successful one preserves the stored-configuration
    /// invariant.
    pub fn update_merchant(&mut self, owner: Address, args: UpdateMerchantArgs) -> (r: Result<
        (),
        QantaraError,
    >)
        ensures
            r is Err ==> *final(self) == *old(self),
            owner != old(self).owner ==> r == Err::<(), QantaraError>(QantaraError::Unauthorized),
            owner == old(self).owner && (args.payout_bps matches Some(p) && p + old(
                self,
            ).buyback_bps > BPS_DENOMINATOR) ==> r == Err::<(), QantaraError>(
                QantaraError::InvalidBasisPoints,
            ),
            owner == old(self).owner && (match args.payout_bps {
                Some(p) => p + old(self).buyback_bps <= BPS_DENOMINATOR,
                None => true,
            }) && (args.buyback_bps matches Some(b) && old(self).updated_payout_bps(args) + b
                > BPS_DENOMINATOR) ==> r == Err::<(), QantaraError>(
                QantaraError::InvalidBasisPoints,
            ),
            r is Ok ==> {
                &&& owner == old(self).owner
                &&& final(self).payout_bps == old(self).updated_payout_bps(args)
                &&& final(self).buyback_bps == (match args.buyback_bps {
                    Some(b) => b,
                    None => old(self).buyback_bps,
                })
                &&& final(self).burn_of_buyback_bps == (match args.burn_of_buyback_bps {
                    Some(b) => b,
                    None => old(self).burn_of_buyback_bps,
                })
                &&& final(self).slippage_bps_max == (match args.slippage_bps_max {
                    Some(s) => s,
                    None => old(self).slippage_bps_max,
                })
                &&& final(self).frozen == (match args.frozen {
                    Some(f) => f,
                    None => old(self).frozen,
                })
                &&& final(self).owner == old(self).owner
                &&& final(self).payout_wallet == old(self).payout_wallet
                &&& final(self).buyback_mint == old(self).buyback_mint
                &&& final(self).router_program == old(self).router_program
            },
            owner == old(self).owner && (args.burn_of_buyback_bps matches Some(b) && b
                > BPS_DENOMINATOR) ==> r == Err::<(), QantaraError>(
                QantaraError::InvalidBasisPoints,
            ),
            owner == old(self).owner && (match args.payout_bps {
                Some(p) => p + old(self).buyback_bps <= BPS_DENOMINATOR,
                None => true,
            }) && (match args.buyback_bps {
                Some(b) => old(self).updated_payout_bps(args) + b <= BPS_DENOMINATOR,
                None => true,
            }) && (match args.burn_of_buyback_bps {
                Some(b) => b <= BPS_DENOMINATOR,
                None => true,
            }) && (args.slippage_bps_max matches Some(s) && s > MAX_SLIPPAGE_BPS) ==> r == Err::<
                (),
                QantaraError,
            >(QantaraError::SlippageTooHigh),
            owner == old(self).owner && (match args.payout_bps {
                Some(p) => p + old(self).buyback_bps <= BPS_DENOMINATOR,
                None => true,
            }) && (match args.buyback_bps {
                Some(b) => old(self).updated_payout_bps(args) + b <= BPS_DENOMINATOR,
                None => true,
            }) && (match args.burn_of_buyback_bps {
                Some(b) => b <= BPS_DENOMINATOR,
                None => true,
            }) && (match args.slippage_bps_max {
                Some(s) => s <= MAX_SLIPPAGE_BPS,
                None => true,
            }) ==> r is Ok,
            old(self).wf() && r is Ok ==> final(self).wf(),
    {
        if owner != self.owner {
            return Err(QantaraError::Unauthorized);
        }
        if let Some(payout_bps) = args.payout_bps {
            if (payout_bps as u32) + (self.buyback_bps as u32) > (BPS_DENOMINATOR as u32) {
                return Err(QantaraError::InvalidBasisPoints);
            }
        }
        let new_payout_bps = match args.payout_bps {
            Some(p) => p,
            None => self.payout_bps,
        };
        if let Some(buyback_bps) = args.buyback_bps {
            if (new_payout_bps as u32) + (buyback_bps as u32) > (BPS_DENOMINATOR as u32) {
                return Err(QantaraError::InvalidBasisPoints);
            }
        }
        if let Some(burn_bps) = args.burn_of_buyback_bps {
            if burn_bps > BPS_DENOMINATOR {
                return Err(QantaraError::InvalidBasisPoints);
            }
        }
        if let Some(slippage_bps) = args.slippage_bps_max {
            if slippage_bps > MAX_SLIPPAGE_BPS {
                return Err(QantaraError::SlippageTooHigh);
            }
        }
        self.payout_bps = new_payout_bps;
        if let Some(buyback_bps) = args.buyback_bps {
            self.buyback_bps = buyback_bps;
        }
        if let Some(burn_bps) = args.burn_of_buyback_bps {
            self.burn_of_buyback_bps = burn_bps;
        }
        if let Some(slippage_bps) = args.slippage_bps_max {
            self.slippage_bps_max = slippage_bps;
        }
        if let Some(freeze) = args.frozen {
            self.frozen = freeze;
        }
        Ok(())
    }
}

} // verus!
