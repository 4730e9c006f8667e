//! The price store: the single persisted value of the priced variant.
//!
//! The price has two states, unset and set. It becomes set on the first
//! authorized update and is then only ever overwritten, never cleared.
//! Reads fail closed while it is unset. The host runtime persists the
//! store between requests and commits a write atomically with the request
//! that made it.

use vstd::prelude::*;

use crate::msgs::DistributionError;
use crate::msgs::UlunaPrice;

verus! {

/// The conversion-price state: `None` until the first successful update.
#[derive(Clone, Debug, PartialEq, Eq)]
pub struct PriceStore {
    pub price: Option<UlunaPrice>,
}

/// What a read of the store returns: the stored price, or `PriceNotSet`
/// while no price has been configured.
pub open spec fn spec_get_price(store: PriceStore) -> Result<u128, DistributionError> {
    match store.price {
        Some(p) => Ok(p.price_in_usd),
        None => Err(DistributionError::PriceNotSet),
    }
}

/// What an update by `caller` does to the store: an authorized caller
/// overwrites the price in place; any other caller changes nothing and is
/// told `Unauthorized`.
pub open spec fn spec_set_price(
    store: PriceStore,
    caller: Seq<char>,
    privileged: Seq<char>,
    price_in_usd: u128,
) -> (Result<(), DistributionError>, PriceStore) {
    if caller == privileged {
        (Ok(()), PriceStore { price: Some(UlunaPrice { price_in_usd }) })
    } else {
        (Err(DistributionError::Unauthorized), store)
    }
}

impl PriceStore {
    /// A fresh store, as it stands before any price update: unset.
    pub fn new() -> (store: Self)
        ensures
            store.price is None,
    {
        PriceStore { price: None }
    }

    /// Read the current price. Fails closed while the price is unset: the
    /// caller must never fall back to a default price.
    pub fn get_price(&self) -> (r: Result<u128, DistributionError>)
        ensures
            r == spec_get_price(*self),
    {
        match &self.price {
            Some(p) => Ok(p.price_in_usd),
            None => Err(DistributionError::PriceNotSet),
        }
    }

    /// Overwrite the price on behalf of `caller`, provided `caller` is the
    /// privileged address; otherwise refuse and leave the store unchanged.
    /// The new price is accepted without range validation.
    pub fn set_price(
        &mut self,
        caller: &String,
        privileged: &String,
        price_in_usd: u128,
    ) -> (r: Result<(), DistributionError>)
        ensures
            r == spec_set_price(*old(self), caller@, privileged@, price_in_usd).0,
            *final(self) == spec_set_price(*old(self), caller@, privileged@, price_in_usd).1,
    {
        if *caller == *privileged {
            self.price = Some(UlunaPrice { price_in_usd });
            Ok(())
        } else {
            Err(DistributionError::Unauthorized)
        }
    }
}

/// Law: reading a store that was never set fails with `PriceNotSet`.
pub proof fn lemma_get_before_set(store: PriceStore)
    requires
        store.price is None,
    ensures
        spec_get_price(store) == Err::<u128, DistributionError>(DistributionError::PriceNotSet),
{
}

/// Law: last write wins. After an authorized update to `p1` a read returns
/// exactly `p1`, and after a further authorized update to `p2` a read
/// returns exactly `p2` — no history is kept.
pub proof fn lemma_set_then_get(
    store: PriceStore,
    caller: Seq<char>,
    privileged: Seq<char>,
    p1: u128,
    p2: u128,
)
    requires
        caller == privileged,
    ensures
        spec_get_price(spec_set_price(store, caller, privileged, p1).1) == Ok::<
            u128,
            DistributionError,
        >(p1),
        spec_get_price(
            spec_set_price(spec_set_price(store, caller, privileged, p1).1, caller, privileged, p2).1,
        ) == Ok::<u128, DistributionError>(p2),
{
}

/// Law: an update from any address other than the privileged one leaves
/// the store exactly as it was and reports `Unauthorized`.
pub proof fn lemma_unauthorized_set_is_noop(
    store: PriceStore,
    caller: Seq<char>,
    privileged: Seq<char>,
    price_in_usd: u128,
)
    requires
        caller != privileged,
    ensures
        spec_set_price(store, caller, privileged, price_in_usd).1 == store,
        spec_set_price(store, caller, privileged, price_in_usd).0 == Err::<
            (),
            DistributionError,
        >(DistributionError::Unauthorized),
{
}

} // verus!
