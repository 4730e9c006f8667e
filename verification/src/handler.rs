//! The message router and the deposit distributor.
//!
//! `execute` receives one typed request together with the sender's address
//! and the attached funds, dispatches it, and returns either the full list
//! of intended effects or an error. Any error aborts the whole request:
//! the host runtime then discards every effect and storage write, so no
//! partial distribution can ever be committed.

use vstd::prelude::*;

use crate::amounts;
use crate::msgs::Coin;
use crate::msgs::Config;
use crate::msgs::DistributionError;
use crate::msgs::Effect;
use crate::msgs::ExecuteMsg;
use crate::msgs::InstantiateMsg;
use crate::msgs::PricingMode;
use crate::msgs::Response;
use crate::msgs::UlunaPrice;
use crate::price_store::PriceStore;
use crate::price_store::spec_set_price;

verus! {

/// The amount of denomination `denom` attached to a request: the amount of
/// the first matching coin, or zero when none matches. Later coins of the
/// same denomination and coins of other denominations are ignored — they
/// are neither consumed nor refunded.
pub open spec fn spec_first_amount(funds: Seq<Coin>, denom: Seq<char>) -> int
    decreases funds.len(),
{
    if funds.len() == 0 {
        0
    } else if funds[0].denom@ == denom {
        funds[0].amount as int
    } else {
        spec_first_amount(funds.skip(1), denom)
    }
}

/// Extract the attached amount of the designated denomination from the
/// funds of a request.
pub fn attached_amount(funds: &Vec<Coin>, denom: &String) -> (amount: u128)
    ensures
        amount == spec_first_amount(funds@, denom@),
{
    let n = funds.len();
    let mut i: usize = 0;
    proof {
        assert(funds@.skip(0) =~= funds@);
    }
    while i < n
        invariant
            i <= n,
            n == funds@.len(),
            spec_first_amount(funds@, denom@) == spec_first_amount(
                funds@.skip(i as int),
                denom@,
            ),
        decreases n - i,
    {
        assert(funds@.skip(i as int)[0] == funds@[i as int]);
        if funds[i].denom == *denom {
            return funds[i].amount;
        }
        assert(funds@.skip(i as int).skip(1) =~= funds@.skip(i as int + 1));
        i = i + 1;
    }
    0
}

/// The token amount owed for a deposit: the forwarded amount in fixed-rate
/// mode, or the full deposit converted through the stored price in priced
/// mode. The two modes deliberately start from different bases; the
/// asymmetry is part of the observable behaviour and must not be
/// reconciled.
pub open spec fn spec_token_amount(
    mode: PricingMode,
    deposit: int,
    price: Option<UlunaPrice>,
) -> int
    recommends
        mode is Fixed || price is Some,
{
    match mode {
        PricingMode::Fixed => amounts::spec_forward(deposit),
        PricingMode::Priced => amounts::spec_token_priced(
            deposit,
            price->0.price_in_usd as int,
        ),
    }
}

/// The three effects of a successful distribution, in their required
/// order: the half share to the liquidity recipient, the half share to the
/// destruction address, and the token-transfer request back to the sender.
pub open spec fn effects_match(
    effects: Seq<Effect>,
    config: Config,
    sender: Seq<char>,
    deposit: int,
    token: int,
) -> bool {
    &&& effects.len() == 3
    &&& (effects[0] matches Effect::NativeTransfer { to, amount } && to@
        == config.lp_provider_address@ && amount == amounts::spec_half(deposit))
    &&& (effects[1] matches Effect::NativeTransfer { to, amount } && to@ == config.burn_address@
        && amount == amounts::spec_half(deposit))
    &&& (effects[2] matches Effect::TokenTransferRequest { recipient, amount } && recipient@
        == sender && amount == token)
}

/// Law: in fixed-rate mode the token amount owed equals the forwarded
/// amount exactly, for every deposit and whatever the stored price — the
/// price plays no part in that mode.
pub proof fn lemma_fixed_token_is_forward(deposit: int, price: Option<UlunaPrice>)
    ensures
        spec_token_amount(PricingMode::Fixed, deposit, price) == amounts::spec_forward(deposit),
{
}

/// Handle the instantiation request: no parameters, no effects, always
/// succeeds, and reports itself under the diagnostic method tag.
pub fn instantiate(_msg: InstantiateMsg) -> (r: Response)
    ensures
        r.effects@.len() == 0,
        r.method@ == "instantiate"@,
{
    Response { effects: Vec::new(), method: "instantiate".to_owned() }
}

/// Route one execute request and carry it out.
///
/// A deposit request distributes the attached amount: the one-percent fee
/// stays behind, each of the two recipients gets half of the remainder
/// (an odd unit is dropped), and the sender is owed the mode's token
/// amount. A price update is applied only when the sender is the
/// privileged address. Every error leaves the store unchanged and carries
/// no effects.
pub fn execute(
    config: &Config,
    store: &mut PriceStore,
    sender: &String,
    funds: &Vec<Coin>,
    msg: ExecuteMsg,
) -> (r: Result<Response, DistributionError>)
    requires
        msg is Burn && config.mode is Priced && old(store).price is Some
            ==> spec_first_amount(funds@, config.denom@) * (
        old(store).price->0.price_in_usd as int) <= u128::MAX as int,
    ensures
        msg is Burn ==> *final(store) == *old(store),
        msg is Burn && spec_first_amount(funds@, config.denom@) == 0 ==> r == Err::<
            Response,
            DistributionError,
        >(DistributionError::EmptyDeposit),
        msg is Burn && spec_first_amount(funds@, config.denom@) > 0 && config.mode is Priced
            && old(store).price is None ==> r == Err::<Response, DistributionError>(
            DistributionError::PriceNotSet,
        ),
        msg is Burn && spec_first_amount(funds@, config.denom@) > 0 && (config.mode is Fixed
            || old(store).price is Some) ==> (r matches Ok(resp) && resp.method@ == "execute"@
            && effects_match(
            resp.effects@,
            *config,
            sender@,
            spec_first_amount(funds@, config.denom@),
            spec_token_amount(
                config.mode,
                spec_first_amount(funds@, config.denom@),
                old(store).price,
            ),
        )),
        msg matches ExecuteMsg::SetPrice { price_in_usd } ==> {
            &&& (r is Ok <==> sender@ == config.lp_provider_address@)
            &&& *final(store) == spec_set_price(
                *old(store),
                sender@,
                config.lp_provider_address@,
                price_in_usd,
            ).1
            &&& (r matches Ok(resp) ==> resp.effects@.len() == 0 && resp.method@
                == "set_uluna_price"@)
            &&& (r matches Err(e) ==> e is Unauthorized)
        },
{
    match msg {
        ExecuteMsg::Burn {} => {
            let uluna_sent = attached_amount(funds, &config.denom);
            if uluna_sent == 0 {
                return Err(DistributionError::EmptyDeposit);
            }
            let amount_to_forward = amounts::compute_forward(uluna_sent);
            if amount_to_forward == 0 {
                return Err(DistributionError::InsufficientDeposit);
            }
            let half = amounts::compute_half(amount_to_forward);
            let token_amount = match config.mode {
                PricingMode::Fixed => amount_to_forward,
                PricingMode::Priced => {
                    let price = match store.get_price() {
                        Ok(p) => p,
                        Err(e) => {
                            return Err(e);
                        },
                    };
                    amounts::token_amount_priced(uluna_sent, price)
                },
            };
            let mut effects: Vec<Effect> = Vec::new();
            effects.push(
                Effect::NativeTransfer {
                    to: config.lp_provider_address.clone(),
                    amount: half,
                },
            );
            effects.push(
                Effect::NativeTransfer { to: config.burn_address.clone(), amount: half },
            );
            effects.push(
                Effect::TokenTransferRequest { recipient: sender.clone(), amount: token_amount },
            );
            Ok(Response { effects, method: "execute".to_owned() })
        },
        ExecuteMsg::SetPrice { price_in_usd } => {
            match store.set_price(sender, &config.lp_provider_address, price_in_usd) {
                Ok(_) => Ok(
                    Response { effects: Vec::new(), method: "set_uluna_price".to_owned() },
                ),
                Err(e) => Err(e),
            }
        },
    }
}

} // verus!
