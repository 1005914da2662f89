//! The purchase coordinator: reservation, the external transfer request, and
//! the resolution that pays out or refunds.
//!
//! `purchase` validates payment and then reserves the listing by removing it
//! from the registry before the transfer request leaves — that single removal
//! is what keeps two purchasers from settling the same listing. The request
//! and its continuation are returned as a plain `TransferRequest` value; the
//! hosting environment issues it and later delivers the settled
//! `TransferResult` to `resolve_purchase`, which runs once and always reaches
//! a terminal settlement: `Paid` on an accepted payout, `Refunded` otherwise.

use crate::payout::{payout_sum, validate_payout, Payout, TransferResult, Validation,
    MAX_PAYOUT_ENTRIES};
use crate::registry::{Contract, MarketError};
use crate::sale::{is_native, listing_key, listing_key_spec, native_currency, Sale, SaleView};
use vstd::prelude::*;

verus! {

/// The ownership-transfer request a purchase issues, with the continuation
/// data that the resolution step receives back: the settlement currency, the
/// buyer, and the already-removed sale.
pub struct TransferRequest {
    pub nft_contract_id: String,
    pub token_id: String,
    pub buyer_id: String,
    pub owner_id: String,
    pub approval_id: u64,
    pub price: u128,
    pub ft_token_id: String,
    pub sale: Sale,
}

/// One transfer the settlement orders: `amount` to `receiver_id`, in the
/// native unit when `ft_token_id` is the native sentinel, else through that
/// fungible-token contract.
pub struct TransferAction {
    pub ft_token_id: String,
    pub receiver_id: String,
    pub amount: u128,
}

/// The terminal state of a settlement.
#[derive(Clone, Copy, Debug, PartialEq, Eq, Structural)]
pub enum SettlementStatus {
    Paid,
    Refunded,
}

/// What a resolved settlement orders: its terminal status, the transfers to
/// issue, and the unconsumed amount reported back to the caller.
pub struct Settlement {
    pub status: SettlementStatus,
    pub transfers: Vec<TransferAction>,
    pub leftover: u128,
}

/// A transfer request carries the listing's names, the buyer, the settlement
/// currency, and the sale's own terms.
pub open spec fn request_ok(
    req: TransferRequest,
    nft_contract_id: Seq<char>,
    token_id: Seq<char>,
    ft_token_id: Seq<char>,
    buyer_id: Seq<char>,
    sale: SaleView,
) -> bool {
    &&& req.nft_contract_id@ == nft_contract_id
    &&& req.token_id@ == token_id
    &&& req.ft_token_id@ == ft_token_id
    &&& req.buyer_id@ == buyer_id
    &&& req.owner_id@ == sale.owner_id
    &&& req.approval_id == sale.approval_id
    &&& req.price == sale.conditions[ft_token_id]
    &&& req.sale@ == sale
}

/// A paid settlement disburses exactly the accepted payout in the settlement
/// currency and reports nothing left to unwind.
pub open spec fn paid_settlement(s: Settlement, ft_token_id: Seq<char>, p: Payout) -> bool {
    &&& s.status == SettlementStatus::Paid
    &&& s.leftover == 0
    &&& s.transfers@.len() == p.entries@.len()
    &&& forall|i: int|
        0 <= i < p.entries@.len() ==> {
            &&& (#[trigger] s.transfers@[i]).ft_token_id@ == ft_token_id
            &&& s.transfers@[i].receiver_id@ == p.entries@[i].0@
            &&& s.transfers@[i].amount == p.entries@[i].1
        }
}

/// A refunded settlement compensates the full price and nothing else: one
/// direct transfer back to the buyer when the currency is native, otherwise
/// no transfer at all, the full price being reported for the caller to
/// unwind.
pub open spec fn refunded_settlement(
    s: Settlement,
    ft_token_id: Seq<char>,
    buyer_id: Seq<char>,
    price: u128,
) -> bool {
    &&& s.status == SettlementStatus::Refunded
    &&& s.leftover == price
    &&& (ft_token_id == native_currency() ==> {
        &&& s.transfers@.len() == 1
        &&& s.transfers@[0].ft_token_id@ == ft_token_id
        &&& s.transfers@[0].receiver_id@ == buyer_id
        &&& s.transfers@[0].amount == price
    })
    &&& (ft_token_id != native_currency() ==> s.transfers@.len() == 0)
}

impl Contract {
    /// A purchase paid in the native unit. The payment must equal the stored
    /// native price exactly; any failure comes before any mutation and
    /// leaves the listing in place. On success the listing is removed — the
    /// reservation — and the transfer request to hand to the custody service
    /// is returned.
    pub fn purchase(
        &mut self,
        nft_contract_id: String,
        token_id: String,
        buyer_id: String,
        deposit: u128,
    ) -> (r: Result<TransferRequest, MarketError>)
        ensures
            final(self).deposit_accounts() == old(self).deposit_accounts(),
            ({
                let k = listing_key_spec(nft_contract_id@, token_id@);
                match r {
                    Ok(req) => {
                        &&& final(self).wf()
                        &&& old(self)@.contains_key(k)
                        &&& old(self)@[k].conditions.contains_key(native_currency())
                        &&& deposit == old(self)@[k].conditions[native_currency()]
                        &&& final(self)@ == old(self)@.remove(k)
                        &&& request_ok(
                            req,
                            nft_contract_id@,
                            token_id@,
                            native_currency(),
                            buyer_id@,
                            old(self)@[k],
                        )
                    },
                    Err(e) => {
                        &&& *final(self) == *old(self)
                        &&& (e == MarketError::NotFound <==> !old(self)@.contains_key(k))
                        &&& (e == MarketError::Precondition <==> old(self)@.contains_key(k) && (
                        !old(self)@[k].conditions.contains_key(native_currency()) || deposit != old(
                            self,
                        )@[k].conditions[native_currency()]))
                        &&& (e == MarketError::NotFound || e == MarketError::Precondition)
                    },
                }
            }),
    {
        let native: String = "near".to_owned();
        let price: u128 = match self.get_sale_price(&nft_contract_id, &token_id, &native) {
            Err(e) => {
                return Err(e);
            },
            Ok(p) => p,
        };
        if deposit != price {
            return Err(MarketError::Precondition);
        }
        self.process_purchase(nft_contract_id, token_id, native, buyer_id)
    }

    /// Reads the price a listing asks in one currency; `NotFound` when the
    /// key is absent, `Precondition` when the listing names no such
    /// currency.
    fn get_sale_price(
        &self,
        nft_contract_id: &String,
        token_id: &String,
        ft_token_id: &String,
    ) -> (r: Result<u128, MarketError>)
        ensures
            ({
                let k = listing_key_spec(nft_contract_id@, token_id@);
                match r {
                    Ok(price) => {
                        &&& self@.contains_key(k)
                        &&& self@[k].conditions.contains_key(ft_token_id@)
                        &&& price == self@[k].conditions[ft_token_id@]
                    },
                    Err(e) => {
                        &&& (e == MarketError::NotFound <==> !self@.contains_key(k))
                        &&& (e == MarketError::Precondition <==> self@.contains_key(k)
                            && !self@[k].conditions.contains_key(ft_token_id@))
                        &&& (e == MarketError::NotFound || e == MarketError::Precondition)
                    },
                }
            }),
    {
        match self.get_sale(nft_contract_id.clone(), token_id.clone()) {
            Err(e) => Err(e),
            Ok(sale) => match sale.conditions.get(ft_token_id) {
                None => Err(MarketError::Precondition),
                Some(price) => Ok(*price),
            },
        }
    }

    /// The reservation step: removes the sale from the registry and builds
    /// the transfer request for the custody service, in the given settlement
    /// currency. Any failure comes before the removal and changes nothing.
    pub fn process_purchase(
        &mut self,
        nft_contract_id: String,
        token_id: String,
        ft_token_id: String,
        buyer_id: String,
    ) -> (r: Result<TransferRequest, MarketError>)
        ensures
            final(self).deposit_accounts() == old(self).deposit_accounts(),
            ({
                let k = listing_key_spec(nft_contract_id@, token_id@);
                match r {
                    Ok(req) => {
                        &&& final(self).wf()
                        &&& old(self)@.contains_key(k)
                        &&& old(self)@[k].conditions.contains_key(ft_token_id@)
                        &&& final(self)@ == old(self)@.remove(k)
                        &&& request_ok(
                            req,
                            nft_contract_id@,
                            token_id@,
                            ft_token_id@,
                            buyer_id@,
                            old(self)@[k],
                        )
                    },
                    Err(e) => {
                        &&& *final(self) == *old(self)
                        &&& (e == MarketError::NotFound <==> !old(self)@.contains_key(k))
                        &&& (e == MarketError::Precondition <==> old(self)@.contains_key(k)
                            && !old(self)@[k].conditions.contains_key(ft_token_id@))
                        &&& (e == MarketError::NotFound || e == MarketError::Precondition)
                    },
                }
            }),
    {
        let price: u128 = match self.get_sale_price(&nft_contract_id, &token_id, &ft_token_id) {
            Err(e) => {
                return Err(e);
            },
            Ok(p) => p,
        };
        let sale = self.remove_reserved(&nft_contract_id, &token_id);
        Ok(
            TransferRequest {
                owner_id: sale.owner_id.clone(),
                approval_id: sale.approval_id,
                nft_contract_id,
                token_id,
                buyer_id,
                price,
                ft_token_id,
                sale,
            },
        )
    }

    /// Removes a listing known to be present (the reservation proper).
    fn remove_reserved(&mut self, nft_contract_id: &String, token_id: &String) -> (sale: Sale)
        requires
            old(self)@.contains_key(listing_key_spec(nft_contract_id@, token_id@)),
        ensures
            final(self).wf(),
            final(self).deposit_accounts() == old(self).deposit_accounts(),
            final(self)@ == old(self)@.remove(listing_key_spec(nft_contract_id@, token_id@)),
            sale@ == old(self)@[listing_key_spec(nft_contract_id@, token_id@)],
    {
        let key = listing_key(nft_contract_id, token_id);
        self.remove_listing(&key)
    }

    /// The resolution step, run exactly once when the external request has
    /// settled. It validates the reported payout against the sale's price in
    /// the settlement currency and orders either the exact disbursement or
    /// the compensation; the registry is left untouched.
    pub fn resolve_purchase(
        &mut self,
        ft_token_id: String,
        buyer_id: String,
        sale: Sale,
        result: TransferResult,
    ) -> (s: Settlement)
        requires
            sale@.conditions.contains_key(ft_token_id@),
        ensures
            *final(self) == *old(self),
            ({
                let price = sale@.conditions[ft_token_id@];
                match result {
                    TransferResult::Succeeded(Some(p)) => {
                        if p.entries@.len() <= MAX_PAYOUT_ENTRIES && payout_sum(p.entries@)
                            == price {
                            paid_settlement(s, ft_token_id@, p)
                        } else {
                            refunded_settlement(s, ft_token_id@, buyer_id@, price)
                        }
                    },
                    _ => refunded_settlement(s, ft_token_id@, buyer_id@, price),
                }
            }),
    {
        let price: u128 = *sale.conditions.get(&ft_token_id).unwrap();
        match validate_payout(result, price) {
            Validation::Accepted(payout) => {
                let mut transfers: Vec<TransferAction> = Vec::new();
                let mut i: usize = 0;
                while i < payout.entries.len()
                    invariant
                        i <= payout.entries@.len(),
                        transfers@.len() == i,
                        forall|j: int|
                            0 <= j < i ==> {
                                &&& (#[trigger] transfers@[j]).ft_token_id@ == ft_token_id@
                                &&& transfers@[j].receiver_id@ == payout.entries@[j].0@
                                &&& transfers@[j].amount == payout.entries@[j].1
                            },
                    decreases payout.entries@.len() - i,
                {
                    let entry = &payout.entries[i];
                    transfers.push(
                        TransferAction {
                            ft_token_id: ft_token_id.clone(),
                            receiver_id: entry.0.clone(),
                            amount: entry.1,
                        },
                    );
                    i = i + 1;
                }
                Settlement { status: SettlementStatus::Paid, transfers, leftover: 0 }
            },
            Validation::Rejected => {
                let mut transfers: Vec<TransferAction> = Vec::new();
                if is_native(&ft_token_id) {
                    transfers.push(
                        TransferAction {
                            ft_token_id: ft_token_id.clone(),
                            receiver_id: buyer_id.clone(),
                            amount: price,
                        },
                    );
                }
                Settlement { status: SettlementStatus::Refunded, transfers, leftover: price }
            },
        }
    }
}

} // verus!
