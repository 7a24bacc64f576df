use vstd::prelude::*;

use crate::{AccountId, SwapError, VenueKind};

verus! {

/// What the bonding-curve registry knows of a mint: the curve's
/// account and whether the curve has completed.
#[derive(Clone, Copy, Debug, PartialEq, Eq)]
pub struct CurveRef {
    pub account: AccountId,
    pub complete: bool,
}

/// What the pool registry knows of a mint: the account of the pool
/// pairing it with the canonical quote token.
#[derive(Clone, Copy, Debug, PartialEq, Eq)]
pub struct PoolRef {
    pub account: AccountId,
}

/// The venue a request was routed to, with the account to read.
#[derive(Clone, Copy, Debug, PartialEq, Eq)]
pub struct RoutedVenue {
    pub venue: VenueKind,
    pub account: AccountId,
}

/// What routing returns, for every pair of registry answers. The
/// curve registry is consulted first: a live curve is authoritative;
/// a completed or absent curve falls through to the pool registry; a
/// mint known to neither is not tradable. This ordering encodes the
/// lifecycle curve -> migrated pool, which never reverses.
pub open spec fn spec_resolve(curve: Option<CurveRef>, pool: Option<PoolRef>) -> Result<
    RoutedVenue,
    SwapError,
> {
    match curve {
        Option::Some(c) => {
            if !c.complete {
                Ok(RoutedVenue { venue: VenueKind::BondingCurve, account: c.account })
            } else {
                match pool {
                    Option::Some(p) => Ok(
                        RoutedVenue { venue: VenueKind::ConstantProductPool, account: p.account },
                    ),
                    Option::None => Err(SwapError::NoVenueFound),
                }
            }
        },
        Option::None => match pool {
            Option::Some(p) => Ok(
                RoutedVenue { venue: VenueKind::ConstantProductPool, account: p.account },
            ),
            Option::None => Err(SwapError::NoVenueFound),
        },
    }
}

/// Decide which venue is authoritative for a mint, from the two
/// registry answers for it. The answers must be fresh for this call:
/// migration can occur between calls, so a routing result is never
/// reused beyond one request.
pub fn resolve(curve: Option<CurveRef>, pool: Option<PoolRef>) -> (r: Result<
    RoutedVenue,
    SwapError,
>)
    ensures
        r == spec_resolve(curve, pool),
{
    match curve {
        Option::Some(c) => {
            if !c.complete {
                Ok(RoutedVenue { venue: VenueKind::BondingCurve, account: c.account })
            } else {
                match pool {
                    Option::Some(p) => Ok(
                        RoutedVenue {
                            venue: VenueKind::ConstantProductPool,
                            account: p.account,
                        },
                    ),
                    Option::None => Err(SwapError::NoVenueFound),
                }
            }
        },
        Option::None => match pool {
            Option::Some(p) => Ok(
                RoutedVenue { venue: VenueKind::ConstantProductPool, account: p.account },
            ),
            Option::None => Err(SwapError::NoVenueFound),
        },
    }
}

/// Law: a completed curve is never routed to, whatever the pool
/// registry answers. Once migration is observed, only the pool venue
/// (or no venue at all) can be the routing result.
pub proof fn lemma_completed_curve_never_routed(c: CurveRef, pool: Option<PoolRef>)
    requires
        c.complete,
    ensures
        forall|r: RoutedVenue|
            spec_resolve(Option::Some(c), pool) == Ok::<RoutedVenue, SwapError>(r) ==> r.venue
                != VenueKind::BondingCurve,
{
}

} // verus!
