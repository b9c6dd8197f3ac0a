//! Purchase: a buyer pays the fixed price for a verified pull.

use vstd::prelude::*;
use crate::address::Address;
use crate::error::GachaError;
use crate::event::PullBought;
use crate::state::{GameConfig, Pull};

verus! {

/// The accounts of a purchase.
#[derive(Debug, Clone, Copy, PartialEq, Eq)]
pub struct BuyPull {
    pub game_config: Address,
    pub pull: Address,
    pub buyer: Address,
    pub buyer_purchase_account: Address,
    pub game_vault: Address,
    pub purchase_mint: Address,
    pub token_program: Address,
}

/// The payment of a purchase: a transfer of purchase asset in the open,
/// signed by the buyer.
#[derive(Debug, Clone, Copy, PartialEq, Eq)]
pub struct PurchaseTransfer {
    pub from: Address,
    pub to: Address,
    pub authority: Address,
    pub amount: u64,
}

impl BuyPull {
    /// The payment of `amount` from the buyer's account to the game's vault.
    pub fn transfer_purchase(&self, amount: u64) -> (transfer: PurchaseTransfer)
        ensures
            transfer == (PurchaseTransfer {
                from: self.buyer_purchase_account,
                to: self.game_vault,
                authority: self.buyer,
                amount,
            }),
    {
        PurchaseTransfer {
            from: self.buyer_purchase_account,
            to: self.game_vault,
            authority: self.buyer,
            amount,
        }
    }
}

/// The pull after its purchase by `buyer`.
pub open spec fn bought_pull(pull: Pull, buyer: Address) -> Pull {
    Pull { buyer: Some(buyer), ..pull }
}

/// What a purchase asks of the ledger, and what it announces.
#[derive(Debug, Clone, Copy, PartialEq, Eq)]
pub struct BuyPullPlan {
    pub transfer: PurchaseTransfer,
    pub event: PullBought,
}

/// Buys a pull. The pull must have no buyer, be verified and be unclaimed;
/// the buyer is then put on record and the fixed price is asked of them.
/// Where it fails, the pull is as it was.
pub fn buy_pull(accounts: &BuyPull, game_config: &GameConfig, pull: &mut Pull) -> (res: Result<
    BuyPullPlan,
    GachaError,
>)
    ensures
        match old(pull).purchase_guard() {
            Ok(()) => {
                &&& res matches Ok(plan)
                &&& plan.transfer == (PurchaseTransfer {
                    from: accounts.buyer_purchase_account,
                    to: accounts.game_vault,
                    authority: accounts.buyer,
                    amount: game_config.pull_price,
                })
                &&& plan.event == (PullBought {
                    id: old(pull).id,
                    pull: accounts.pull,
                    buyer: accounts.buyer,
                })
                &&& *final(pull) == bought_pull(*old(pull), accounts.buyer)
            },
            Err(error) => {
                &&& res == Err::<BuyPullPlan, GachaError>(error)
                &&& *final(pull) == *old(pull)
            },
        },
        old(pull).wf() ==> final(pull).wf(),
{
    match pull.check_purchase() {
        Ok(()) => {},
        Err(error) => return Err(error),
    }
    pull.buyer = Some(accounts.buyer);
    let transfer = accounts.transfer_purchase(game_config.pull_price);
    Ok(
        BuyPullPlan {
            transfer,
            event: PullBought { id: pull.id, pull: accounts.pull, buyer: accounts.buyer },
        },
    )
}

} // verus!
