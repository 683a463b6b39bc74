//! The collateral registry: the set of supported collateral types, keyed by
//! the asset's mint identity. Adding a type rejects duplicate identities, so
//! the registry never holds two entries for one asset.

use vstd::prelude::*;
use crate::errors::ErrorCode;
use crate::events::CollateralTypeAddedEvent;
use crate::state::{AccountId, CollateralType};

verus! {

/// The registry of supported collateral types.
pub struct CollateralRegistry {
    entries: Vec<CollateralType>,
}

impl View for CollateralRegistry {
    type V = Seq<CollateralType>;

    closed spec fn view(&self) -> Seq<CollateralType> {
        self.entries@
    }
}

/// A freshly registered collateral type: the given ratio, the price-feed
/// reference initialized to the asset's own identity, and zeroed
/// threshold and fee fields pending later configuration.
pub open spec fn new_collateral_entry(
    collateral_mint: AccountId,
    collateral_ratio: u64,
) -> CollateralType {
    CollateralType {
        collateral_mint,
        collateral_ratio,
        price_feed: collateral_mint,
        liquidation_threshold: 0,
        stability_fee: 0,
    }
}

impl CollateralRegistry {
    /// No two entries share a mint identity.
    pub open spec fn wf(self) -> bool {
        forall|i: int, j: int|
            0 <= i < j < self@.len() ==> (#[trigger] self@[i]).collateral_mint != (
            #[trigger] self@[j]).collateral_mint
    }

    /// Some entry is registered under the given mint identity.
    pub open spec fn contains_mint(self, collateral_mint: AccountId) -> bool {
        exists|i: int| 0 <= i < self@.len() && (#[trigger] self@[i]).collateral_mint == collateral_mint
    }

    /// An empty registry.
    pub fn new() -> (r: CollateralRegistry)
        ensures
            r@ == Seq::<CollateralType>::empty(),
            r.wf(),
    {
        CollateralRegistry { entries: Vec::new() }
    }

    /// The entry registered under the given mint identity, if any.
    #[verifier::loop_isolation(false)]
    pub fn find_collateral_type(&self, collateral_mint: AccountId) -> (r: Option<CollateralType>)
        ensures
            match r {
                Some(entry) => self.contains_mint(collateral_mint) && entry.collateral_mint
                    == collateral_mint && exists|i: int|
                    0 <= i < self@.len() && self@[i] == entry,
                None => !self.contains_mint(collateral_mint),
            },
    {
        let mut i: usize = 0;
        while i < self.entries.len()
            invariant
                i <= self.entries.len(),
                forall|k: int|
                    0 <= k < i ==> (#[trigger] self@[k]).collateral_mint != collateral_mint,
            decreases self.entries.len() - i,
        {
            if self.entries[i].collateral_mint == collateral_mint {
                proof {
                    assert(self@[i as int].collateral_mint == collateral_mint);
                }
                return Some(self.entries[i]);
            }
            i = i + 1;
        }
        None
    }
}

/// The outcome of `add_collateral_type`: the registry contents with the new
/// entry appended, or the exact error. A ratio not above 100 percent is
/// refused, as is a mint identity that is already registered.
pub open spec fn add_collateral_type_outcome(
    reg: CollateralRegistry,
    collateral_mint: AccountId,
    collateral_ratio: u64,
) -> Result<Seq<CollateralType>, ErrorCode> {
    if collateral_ratio <= 100 {
        Err(ErrorCode::InvalidCollateralRatio)
    } else if reg.contains_mint(collateral_mint) {
        Err(ErrorCode::CollateralTypeAlreadyExists)
    } else {
        Ok(reg@.push(new_collateral_entry(collateral_mint, collateral_ratio)))
    }
}

/// Register a new collateral type.
///
/// The ratio must exceed 100 percent and the mint identity must not be
/// registered yet. On success the new entry is appended, with its price-feed
/// reference set to the asset's identity and zeroed threshold and fee fields;
/// no existing entry is ever overwritten. On any error the registry is
/// unchanged.
#[verifier::loop_isolation(false)]
pub fn add_collateral_type(
    registry: &mut CollateralRegistry,
    collateral_mint: AccountId,
    collateral_ratio: u64,
) -> (r: Result<CollateralTypeAddedEvent, ErrorCode>)
    requires
        old(registry).wf(),
    ensures
        final(registry).wf(),
        match add_collateral_type_outcome(*old(registry), collateral_mint, collateral_ratio) {
            Ok(s) => r == Ok::<_, ErrorCode>(
                (CollateralTypeAddedEvent { collateral_mint, collateral_ratio }),
            ) && final(registry)@ == s,
            Err(e) => r == Err::<CollateralTypeAddedEvent, _>(e) && *final(registry) == *old(
                registry,
            ),
        },
{
    if collateral_ratio <= 100 {
        return Err(ErrorCode::InvalidCollateralRatio);
    }
    let mut i: usize = 0;
    while i < registry.entries.len()
        invariant
            i <= registry.entries.len(),
            *registry == *old(registry),
            forall|k: int|
                0 <= k < i ==> (#[trigger] registry@[k]).collateral_mint != collateral_mint,
        decreases registry.entries.len() - i,
    {
        if registry.entries[i].collateral_mint == collateral_mint {
            proof {
                assert(registry@[i as int].collateral_mint == collateral_mint);
            }
            return Err(ErrorCode::CollateralTypeAlreadyExists);
        }
        i = i + 1;
    }
    let entry = CollateralType {
        collateral_mint,
        collateral_ratio,
        price_feed: collateral_mint,
        liquidation_threshold: 0,
        stability_fee: 0,
    };
    registry.entries.push(entry);
    proof {
        let s2 = registry@;
        assert forall|a: int, b: int|
            0 <= a < b < s2.len() implies (#[trigger] s2[a]).collateral_mint != (
        #[trigger] s2[b]).collateral_mint by {
            if b == s2.len() - 1 {
                assert(!old(registry).contains_mint(collateral_mint));
                assert(s2[a] == old(registry)@[a]);
            }
        }
    }
    Ok(CollateralTypeAddedEvent { collateral_mint, collateral_ratio })
}

} // verus!
