//! The module's request and response values, its configuration, and its
//! error taxonomy, all over plain values. The host runtime decodes wire
//! messages into these types and turns the returned effects into the
//! runtime's own transfer instructions.

use vstd::prelude::*;

verus! {

/// An amount of one denomination attached to an incoming request.
#[derive(Clone, Debug, PartialEq, Eq)]
pub struct Coin {
    pub denom: String,
    pub amount: u128,
}

/// The instantiation request. It carries no parameters.
#[derive(Clone, Debug, PartialEq, Eq)]
pub struct InstantiateMsg {}

/// An execute request: either a deposit to distribute or a price update.
#[derive(Clone, Debug, PartialEq, Eq)]
pub enum ExecuteMsg {
    /// Distribute the attached native-currency deposit.
    Burn {},
    /// Set the conversion price, scaled by `PRICE_SCALE`. Only the
    /// privileged address may do this.
    SetPrice { price_in_usd: u128 },
}

/// The persisted conversion price record: token base units owed per native
/// unit, scaled by `PRICE_SCALE`.
#[derive(Clone, Copy, Debug, PartialEq, Eq)]
pub struct UlunaPrice {
    pub price_in_usd: u128,
}

/// How the token amount owed to a depositor is determined.
#[derive(Clone, Copy, Debug, PartialEq, Eq)]
pub enum PricingMode {
    /// One token base unit per forwarded native unit.
    Fixed,
    /// The full deposit converted through the stored price.
    Priced,
}

/// Deployment configuration: the fixed addresses, the native denomination
/// and the pricing mode. Set once at instantiation, never mutated.
#[derive(Clone, Debug, PartialEq, Eq)]
pub struct Config {
    /// Denomination of the native currency this module accepts.
    pub denom: String,
    /// Liquidity-incentive recipient; also the privileged address that may
    /// set the conversion price.
    pub lp_provider_address: String,
    /// Destruction address: currency sent here leaves circulation.
    pub burn_address: String,
    /// Address of the token-issuing module the transfer request targets.
    pub token_contract_address: String,
    /// The pricing mode in force for this deployment.
    pub mode: PricingMode,
}

/// One intended effect of a request, executed by the host runtime after
/// the handler returns. The module never executes transfers itself.
#[derive(Clone, Debug, PartialEq, Eq)]
pub enum Effect {
    /// Send `amount` native units from the module's balance to `to`.
    NativeTransfer { to: String, amount: u128 },
    /// Ask the token module to move `amount` token units to `recipient`.
    TokenTransferRequest { recipient: String, amount: u128 },
}

/// What a successful request hands back to the host runtime: the effects,
/// in the order they are to be executed, and the diagnostic method tag.
#[derive(Clone, Debug, PartialEq, Eq)]
pub struct Response {
    pub effects: Vec<Effect>,
    /// Value of the diagnostic `"method"` attribute.
    pub method: String,
}

/// Why a request was rejected. Every error aborts the whole request; the
/// host runtime discards all effects and storage writes on error.
#[derive(Clone, Copy, Debug, PartialEq, Eq)]
pub enum DistributionError {
    /// No funds of the required denomination were attached, or their
    /// amount was zero.
    EmptyDeposit,
    /// The forwarded amount came out non-positive (defensive; unreachable
    /// for a positive deposit at the fixed fee rate).
    InsufficientDeposit,
    /// Priced mode was invoked before any price was configured.
    PriceNotSet,
    /// A price update came from an address other than the privileged one.
    Unauthorized,
}

} // verus!
