use vstd::prelude::*;

use crate::amm::AmmAccount;
use crate::curve::{effective_reserves, CurveAccount};
use crate::{PoolReserves, SwapError, VenueKind};

verus! {

/// The byte length of a bonding-curve account: an 8-byte tag, five
/// 64-bit fields, and the completion flag.
pub const CURVE_ACCOUNT_LEN: usize = 49;

/// The byte length of a pool account: an 8-byte tag and the two vault
/// balances.
pub const AMM_ACCOUNT_LEN: usize = 24;

/// The little-endian value of the 8 bytes of `s` starting at `off`.
pub open spec fn le64_at(s: Seq<u8>, off: int) -> int
    recommends
        0 <= off,
        off + 8 <= s.len(),
{
    s[off] + s[off + 1] * 0x100 + s[off + 2] * 0x1_0000 + s[off + 3] * 0x100_0000 + s[off + 4]
        * 0x1_0000_0000 + s[off + 5] * 0x100_0000_0000 + s[off + 6] * 0x1_0000_0000_0000 + s[off
        + 7] * 0x100_0000_0000_0000
}

/// Read a little-endian 64-bit field out of raw account bytes.
pub fn read_u64_le(data: &Vec<u8>, off: usize) -> (r: u64)
    requires
        off + 8 <= data.len(),
    ensures
        r == le64_at(data@, off as int),
{
    (data[off] as u64) + (data[off + 1] as u64) * 0x100 + (data[off + 2] as u64) * 0x1_0000 + (
    data[off + 3] as u64) * 0x100_0000 + (data[off + 4] as u64) * 0x1_0000_0000 + (data[off
        + 5] as u64) * 0x100_0000_0000 + (data[off + 6] as u64) * 0x1_0000_0000_0000 + (data[off
        + 7] as u64) * 0x100_0000_0000_0000
}

/// Whether the first 8 bytes of a curve account carry the expected
/// account tag.
pub open spec fn curve_tag_ok(s: Seq<u8>) -> bool
    recommends
        s.len() >= 8,
{
    &&& s[0] == 23u8
    &&& s[1] == 183u8
    &&& s[2] == 248u8
    &&& s[3] == 55u8
    &&& s[4] == 96u8
    &&& s[5] == 216u8
    &&& s[6] == 172u8
    &&& s[7] == 96u8
}

/// Whether the first 8 bytes of a pool account carry the expected
/// account tag.
pub open spec fn amm_tag_ok(s: Seq<u8>) -> bool
    recommends
        s.len() >= 8,
{
    &&& s[0] == 65u8
    &&& s[1] == 77u8
    &&& s[2] == 77u8
    &&& s[3] == 95u8
    &&& s[4] == 80u8
    &&& s[5] == 79u8
    &&& s[6] == 79u8
    &&& s[7] == 76u8
}

/// What decoding a bonding-curve account returns, for every byte
/// string: a wrong length, a wrong tag or a malformed flag byte is a
/// decode failure, never a defaulted value.
pub open spec fn spec_decode_curve(s: Seq<u8>) -> Result<CurveAccount, SwapError> {
    if s.len() != CURVE_ACCOUNT_LEN {
        Err(SwapError::DecodeError)
    } else if !curve_tag_ok(s) {
        Err(SwapError::DecodeError)
    } else if s[48] != 0u8 && s[48] != 1u8 {
        Err(SwapError::DecodeError)
    } else {
        Ok(
            CurveAccount {
                virtual_base: le64_at(s, 8) as u64,
                virtual_quote: le64_at(s, 16) as u64,
                real_base: le64_at(s, 24) as u64,
                real_quote: le64_at(s, 32) as u64,
                total_supply: le64_at(s, 40) as u64,
                complete: s[48] == 1u8,
            },
        )
    }
}

/// What decoding a pool account returns, for every byte string: zero
/// vault balances are refused, since a zero reserve would imply an
/// infinite price move and must never be fabricated.
pub open spec fn spec_decode_amm(s: Seq<u8>) -> Result<AmmAccount, SwapError> {
    if s.len() != AMM_ACCOUNT_LEN {
        Err(SwapError::DecodeError)
    } else if !amm_tag_ok(s) {
        Err(SwapError::DecodeError)
    } else if le64_at(s, 8) == 0 || le64_at(s, 16) == 0 {
        Err(SwapError::DecodeError)
    } else {
        Ok(
            AmmAccount {
                base_reserve: le64_at(s, 8) as u64,
                quote_reserve: le64_at(s, 16) as u64,
            },
        )
    }
}

/// Decode a bonding-curve account from its raw bytes.
pub fn decode_curve(data: &Vec<u8>) -> (r: Result<CurveAccount, SwapError>)
    ensures
        r == spec_decode_curve(data@),
{
    if data.len() != CURVE_ACCOUNT_LEN {
        return Err(SwapError::DecodeError);
    }
    if !(data[0] == 23 && data[1] == 183 && data[2] == 248 && data[3] == 55 && data[4] == 96
        && data[5] == 216 && data[6] == 172 && data[7] == 96) {
        return Err(SwapError::DecodeError);
    }
    let flag: u8 = data[48];
    if flag != 0 && flag != 1 {
        return Err(SwapError::DecodeError);
    }
    Ok(
        CurveAccount {
            virtual_base: read_u64_le(data, 8),
            virtual_quote: read_u64_le(data, 16),
            real_base: read_u64_le(data, 24),
            real_quote: read_u64_le(data, 32),
            total_supply: read_u64_le(data, 40),
            complete: flag == 1,
        },
    )
}

/// Decode a pool account from its raw bytes.
pub fn decode_amm(data: &Vec<u8>) -> (r: Result<AmmAccount, SwapError>)
    ensures
        r == spec_decode_amm(data@),
        r matches Ok(p) ==> p.wf(),
{
    if data.len() != AMM_ACCOUNT_LEN {
        return Err(SwapError::DecodeError);
    }
    if !(data[0] == 65 && data[1] == 77 && data[2] == 77 && data[3] == 95 && data[4] == 80
        && data[5] == 79 && data[6] == 79 && data[7] == 76) {
        return Err(SwapError::DecodeError);
    }
    let base: u64 = read_u64_le(data, 8);
    let quote: u64 = read_u64_le(data, 16);
    if base == 0 || quote == 0 {
        return Err(SwapError::DecodeError);
    }
    Ok(AmmAccount { base_reserve: base, quote_reserve: quote })
}

/// What reading a reserve snapshot returns, for every venue and chain
/// answer: an absent account is `NotFound`, malformed bytes are a
/// decode failure, and a well-formed account yields its reserves.
pub open spec fn spec_read_reserves(venue: VenueKind, data: Option<Seq<u8>>) -> Result<
    PoolReserves,
    SwapError,
> {
    match data {
        Option::None => Err(SwapError::NotFound),
        Option::Some(s) => match venue {
            VenueKind::BondingCurve => match spec_decode_curve(s) {
                Err(e) => Err(e),
                Ok(c) => {
                    if !crate::curve::curve_in_range(c) {
                        Err(SwapError::DecodeError)
                    } else {
                        Ok(
                            PoolReserves {
                                base_reserve: crate::curve::eff_base(c) as u128,
                                quote_reserve: crate::curve::eff_quote(c) as u128,
                                venue: VenueKind::BondingCurve,
                            },
                        )
                    }
                },
            },
            VenueKind::ConstantProductPool => match spec_decode_amm(s) {
                Err(e) => Err(e),
                Ok(p) => Ok(
                    PoolReserves {
                        base_reserve: p.base_reserve as u128,
                        quote_reserve: p.quote_reserve as u128,
                        venue: VenueKind::ConstantProductPool,
                    },
                ),
            },
        },
    }
}

/// Fetching and decoding a venue account into a typed reserve
/// snapshot. The caller supplies the chain's answer for the account:
/// `None` when the account does not exist.
pub fn read_reserves(venue: VenueKind, data: Option<&Vec<u8>>) -> (r: Result<
    PoolReserves,
    SwapError,
>)
    ensures
        r == spec_read_reserves(
            venue,
            match data {
                Option::None => Option::None::<Seq<u8>>,
                Option::Some(d) => Option::Some(d@),
            },
        ),
        r matches Ok(p) ==> p.wf() && p.venue == venue,
{
    let bytes = match data {
        Option::None => {
            return Err(SwapError::NotFound);
        },
        Option::Some(d) => d,
    };
    match venue {
        VenueKind::BondingCurve => {
            let c = match decode_curve(bytes) {
                Ok(c) => c,
                Err(e) => {
                    return Err(e);
                },
            };
            effective_reserves(&c)
        },
        VenueKind::ConstantProductPool => {
            let p = match decode_amm(bytes) {
                Ok(p) => p,
                Err(e) => {
                    return Err(e);
                },
            };
            Ok(
                PoolReserves {
                    base_reserve: p.base_reserve as u128,
                    quote_reserve: p.quote_reserve as u128,
                    venue: VenueKind::ConstantProductPool,
                },
            )
        },
    }
}

} // verus!
