use vstd::prelude::*;

pub mod amm;
pub mod arith;
pub mod curve;
pub mod decode;
pub mod engine;
pub mod mint;
pub mod router;
pub mod signal;
pub mod tips;

verus! {

/// Errors surfaced by the swap engine.
///
/// `NotFound`, `DecodeError`, `VenueMigrated`, `NoVenueFound`,
/// `SlippageExceeded`, `TransportError` and `Unavailable` report a
/// failure while routing, pricing or submitting a swap; the remaining
/// variants reject a request at entry or report that an amount cannot
/// be priced in machine integers.
#[derive(Clone, Copy, Debug, PartialEq, Eq, Structural)]
pub enum SwapError {
    /// The pool or curve account is absent on chain.
    NotFound,
    /// The account bytes do not match the expected fixed layout.
    DecodeError,
    /// The bonding curve has completed; trading moved to the pool venue.
    VenueMigrated,
    /// The mint is not tradable on any known venue.
    NoVenueFound,
    /// A freshly computed output falls below the accepted minimum.
    SlippageExceeded,
    /// The network or relay transport failed.
    TransportError,
    /// No tip-percentile message has been received yet.
    Unavailable,
    /// The mint string is not a valid account identifier.
    InvalidMint,
    /// The slippage or percentage setting exceeds its bound.
    InvalidSlippage,
    /// The trade is too small to yield any output.
    AmountTooSmall,
    /// The trade is too large to price without overflow.
    AmountTooLarge,
}

/// The two liquidity venues the engine can route to.
#[derive(Clone, Copy, Debug, PartialEq, Eq, Structural)]
pub enum VenueKind {
    BondingCurve,
    ConstantProductPool,
}

/// Whether the swap spends the quote token to obtain the base token
/// (`Buy`) or spends the base token to obtain the quote token (`Sell`).
#[derive(Clone, Copy, Debug, PartialEq, Eq, Structural)]
pub enum SwapDirection {
    Buy,
    Sell,
}

/// How `amount_in` of a request is denominated: an absolute quantity of
/// the spent token, or a share of the caller's holding in basis points.
#[derive(Clone, Copy, Debug, PartialEq, Eq, Structural)]
pub enum SwapInType {
    Qty,
    Pct,
}

/// A price expressed exactly as a ratio of two integers.
#[derive(Clone, Copy, Debug, PartialEq, Eq, Structural)]
pub struct Ratio {
    pub num: u128,
    pub den: u128,
}

impl Ratio {
    /// A ratio is meaningful only with a nonzero denominator.
    pub open spec fn wf(self) -> bool {
        self.den > 0
    }
}

/// A 32-byte on-chain account identifier (a decoded public key).
#[derive(Clone, Copy, Debug, PartialEq, Eq)]
pub struct AccountId {
    pub bytes: [u8; 32],
}

/// An immutable snapshot of a venue's reserves, read at one point in
/// time and replaced by a fresh read on every quote.
///
/// For a bonding curve the fields hold the effective (virtual + real)
/// reserves; for a constant-product pool they hold the vault balances.
#[derive(Clone, Copy, Debug, PartialEq, Eq, Structural)]
pub struct PoolReserves {
    pub base_reserve: u128,
    pub quote_reserve: u128,
    pub venue: VenueKind,
}

impl PoolReserves {
    /// Reserves the pricing formulas accept: nonzero (a zero reserve
    /// would imply an infinite price move) and small enough that the
    /// constant-product arithmetic stays within 128 bits.
    pub open spec fn wf(self) -> bool {
        &&& 1 <= self.base_reserve <= u64::MAX
        &&& 1 <= self.quote_reserve <= u64::MAX
    }
}

} // verus!
