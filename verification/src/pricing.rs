//! Store pricing summaries: the exact buy/sell rule for one item at one
//! store, with the specialist/non-specialist sellability distinction.
//!
//! All arithmetic is exact: the per-store multiplier is in thousandths, the
//! sell value is the multiplied base price truncated toward zero, and the buy
//! value is three tenths of the untruncated sell value, truncated toward
//! zero. Results are clamped into the 32-bit price range.

use vstd::prelude::*;

use crate::items::{Price, PriceModifier, StoreIdentifier};

verus! {

/// One item's pricing at one store: what the store sells it for (absent when
/// the store does not sell it at all), and what it pays when buying it (the
/// buy price is always quoted).
#[derive(Debug, Clone, PartialEq)]
pub struct StoreSummary {
    pub sell: Option<i32>,
    pub buy: i32,
}

/// Specialist stores sell an item only when a modifier explicitly says so;
/// every other store falls back to the item's own default sellability.
pub open spec fn spec_is_specialist(store: StoreIdentifier) -> bool {
    match store {
        StoreIdentifier::MerchantMedical => true,
        StoreIdentifier::MerchantEngineering => true,
        StoreIdentifier::MerchantArmory => true,
        StoreIdentifier::MerchantClown => true,
        StoreIdentifier::MerchantHusk => true,
        _ => false,
    }
}

/// The first modifier listed for a store, if any.
pub open spec fn modifier_for(
    mods: Seq<(StoreIdentifier, PriceModifier)>,
    store: StoreIdentifier,
) -> Option<PriceModifier>
    decreases mods.len(),
{
    if mods.len() == 0 {
        None
    } else if mods[0].0 == store {
        Some(mods[0].1)
    } else {
        modifier_for(mods.drop_first(), store)
    }
}

/// Whether the store sells the item: at a specialist store, only a modifier
/// saying so explicitly; elsewhere, the modifier's word when it gives one,
/// the item's own default otherwise.
pub open spec fn spec_sold(price: Price, store: StoreIdentifier) -> bool {
    if spec_is_specialist(store) {
        match modifier_for(price.modifiers@, store) {
            Some(m) => m.sold == Some(true),
            None => false,
        }
    } else {
        match modifier_for(price.modifiers@, store) {
            Some(m) => match m.sold {
                Some(b) => b,
                None => price.sold,
            },
            None => price.sold,
        }
    }
}

/// Division truncated toward zero (for a positive divisor).
pub open spec fn trunc_div(n: int, d: int) -> int
    recommends
        d > 0,
{
    if n >= 0 {
        n / d
    } else {
        -((-n) / d)
    }
}

/// The store's sell value of the item, in thousandths: the base price times
/// the store's multiplier when one is given, the base price otherwise.
pub open spec fn spec_sell_value_num(price: Price, store: StoreIdentifier) -> int {
    match modifier_for(price.modifiers@, store) {
        Some(m) => match m.multiplier {
            Some(mul) => price.baseprice * mul,
            None => price.baseprice * 1000,
        },
        None => price.baseprice * 1000,
    }
}

/// The sell price: the sell value truncated to whole units.
pub open spec fn spec_sell_price(price: Price, store: StoreIdentifier) -> int {
    trunc_div(spec_sell_value_num(price, store), 1000)
}

/// The buy price: three tenths of the untruncated sell value, truncated to
/// whole units.
pub open spec fn spec_buy_price(price: Price, store: StoreIdentifier) -> int {
    trunc_div(3 * spec_sell_value_num(price, store), 10000)
}

/// Clamping into the 32-bit price range.
pub open spec fn clamp_i32(n: int) -> int {
    if n > i32::MAX {
        i32::MAX as int
    } else if n < i32::MIN {
        i32::MIN as int
    } else {
        n
    }
}

/// The first modifier listed for a store, if any.
fn find_modifier<'a>(
    mods: &'a Vec<(StoreIdentifier, PriceModifier)>,
    store: StoreIdentifier,
) -> (r: Option<&'a PriceModifier>)
    ensures
        match r {
            Some(m) => modifier_for(mods@, store) == Some(*m),
            None => modifier_for(mods@, store) is None,
        },
{
    let n = mods.len();
    let mut i: usize = 0;
    proof {
        assert(mods@.skip(0) =~= mods@);
    }
    while i < n
        invariant
            n == mods@.len(),
            i <= n,
            modifier_for(mods@, store) == modifier_for(mods@.skip(i as int), store),
        decreases n - i,
    {
        if mods[i].0 == store {
            proof {
                assert(mods@.skip(i as int)[0] == mods@[i as int]);
            }
            return Some(&mods[i].1);
        }
        proof {
            assert(mods@.skip(i as int).drop_first() =~= mods@.skip(i as int + 1));
        }
        i = i + 1;
    }
    None
}

/// Division truncated toward zero, on machine integers.
fn trunc_div_i128(n: i128, d: i128) -> (r: i128)
    requires
        d > 0,
        i128::MIN < n,
    ensures
        r == trunc_div(n as int, d as int),
{
    if n >= 0 {
        let q = (n as u128) / (d as u128);
        proof {
            assert((n as u128) / (d as u128) <= n as u128) by (nonlinear_arith)
                requires
                    d > 0,
                    n >= 0,
            ;
        }
        q as i128
    } else {
        let m = (-n) as u128;
        let q = m / (d as u128);
        proof {
            assert(m / (d as u128) <= m) by (nonlinear_arith)
                requires
                    d > 0,
            ;
        }
        -(q as i128)
    }
}

/// Clamping into the 32-bit price range, on machine integers.
fn clamp_to_i32(n: i128) -> (r: i32)
    ensures
        r as int == clamp_i32(n as int),
{
    if n > i32::MAX as i128 {
        i32::MAX
    } else if n < i32::MIN as i128 {
        i32::MIN
    } else {
        n as i32
    }
}

impl StoreSummary {
    /// Whether the store uses the opt-in (specialist) sellability rule.
    pub fn is_specialist_merchant(store: StoreIdentifier) -> (r: bool)
        ensures
            r == spec_is_specialist(store),
    {
        match store {
            StoreIdentifier::MerchantMedical => true,
            StoreIdentifier::MerchantEngineering => true,
            StoreIdentifier::MerchantArmory => true,
            StoreIdentifier::MerchantClown => true,
            StoreIdentifier::MerchantHusk => true,
            _ => false,
        }
    }

    /// Summarize an item's pricing at one store: the clamped, truncated sell
    /// price when the store sells it, and always the clamped, truncated buy
    /// price.
    pub fn for_store(price: &Price, store: StoreIdentifier) -> (r: StoreSummary)
        ensures
            r.buy as int == clamp_i32(spec_buy_price(*price, store)),
            spec_sold(*price, store) ==> (match r.sell {
                Some(s) => s as int == clamp_i32(spec_sell_price(*price, store)),
                None => false,
            }),
            !spec_sold(*price, store) ==> r.sell is None,
    {
        let matching_modifier = find_modifier(&price.modifiers, store);
        let sold: bool = if Self::is_specialist_merchant(store) {
            match matching_modifier {
                Some(m) => match m.sold {
                    Some(b) => b,
                    None => false,
                },
                None => false,
            }
        } else {
            match matching_modifier {
                Some(m) => match m.sold {
                    Some(b) => b,
                    None => price.sold,
                },
                None => price.sold,
            }
        };
        let base: i128 = price.baseprice as i128;
        let num: i128 = match matching_modifier {
            Some(m) => match m.multiplier {
                Some(mul) => {
                    proof {
                        assert(base * (mul as i128) < 0x1_0000_0000_0000_0000i128 && base * (
                        mul as i128) > -0x1_0000_0000_0000_0000i128) by (nonlinear_arith)
                            requires
                                -0x8000_0000 <= base <= 0x7fff_ffff,
                                0 <= mul <= 0xffff_ffffu32,
                        ;
                    }
                    base * (mul as i128)
                },
                None => base * 1000,
            },
            None => base * 1000,
        };
        let sell_price = trunc_div_i128(num, 1000);
        let buy_price = trunc_div_i128(3 * num, 10000);
        StoreSummary {
            buy: clamp_to_i32(buy_price),
            sell: if sold {
                Some(clamp_to_i32(sell_price))
            } else {
                None
            },
        }
    }
}

} // verus!
