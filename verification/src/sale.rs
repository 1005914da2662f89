//! Data model of a listing: sale terms, price arguments and listing keys.
//!
//! A currency is either the sentinel for the chain's native unit or the
//! account of a fungible-token custody contract. A listing key concatenates
//! the asset-collection account and the asset-instance identifier with `:`;
//! identifiers that themselves contain the delimiter collide, a known
//! limitation that is kept rather than silently patched.

use vstd::prelude::*;
use vstd::string::StringExecFns;

verus! {

/// The currency sentinel that stands for the chain's native unit.
pub open spec fn native_currency() -> Seq<char> {
    "near"@
}

/// A recorded offer on a listing in some currency (reserved; no operation in
/// scope consumes it).
pub struct Bid {
    pub owner_id: String,
    pub price: u128,
}

#[verifier::ext_equal]
pub ghost struct BidView {
    pub owner_id: Seq<char>,
    pub price: u128,
}

impl View for Bid {
    type V = BidView;

    open spec fn view(&self) -> BidView {
        BidView { owner_id: self.owner_id@, price: self.price }
    }
}

/// An owner's offer to sell one asset: the approval token issued by the
/// custody service and a price per currency. A price of 0 marks a currency
/// as bid-only.
pub struct Sale {
    pub owner_id: String,
    pub approval_id: u64,
    pub conditions: crate::str_map::StrMap<u128>,
    pub bids: crate::str_map::StrMap<Bid>,
}

#[verifier::ext_equal]
pub ghost struct SaleView {
    pub owner_id: Seq<char>,
    pub approval_id: u64,
    pub conditions: Map<Seq<char>, u128>,
    pub bids: Map<Seq<char>, BidView>,
}

impl View for Sale {
    type V = SaleView;

    open spec fn view(&self) -> SaleView {
        SaleView {
            owner_id: self.owner_id@,
            approval_id: self.approval_id,
            conditions: self.conditions@,
            bids: self.bids@,
        }
    }
}

/// One element of the price list handed to `add_sale`: an absent currency
/// defaults to the native unit, an absent price to 0.
pub struct Price {
    pub price: Option<u128>,
    pub ft_token_id: Option<String>,
}

/// The ordered price list a sale is created from.
pub struct SaleArgs {
    pub prices: Vec<Price>,
}

/// Arguments that name a listing in a purchase request.
pub struct PurchaseArgs {
    pub nft_contract_id: String,
    pub token_id: String,
}

/// The currency a price-list element names, with the native default.
pub open spec fn price_currency(p: Price) -> Seq<char> {
    match p.ft_token_id {
        Some(c) => c@,
        None => native_currency(),
    }
}

/// The amount a price-list element names, with the bid-only default of 0.
pub open spec fn price_amount(p: Price) -> u128 {
    match p.price {
        Some(a) => a,
        None => 0,
    }
}

/// The condition map an ordered price list builds; on a repeated currency the
/// last element wins.
pub open spec fn conditions_of(prices: Seq<Price>) -> Map<Seq<char>, u128>
    decreases prices.len(),
{
    if prices.len() == 0 {
        Map::empty()
    } else {
        conditions_of(prices.drop_last()).insert(
            price_currency(prices.last()),
            price_amount(prices.last()),
        )
    }
}

/// The key a listing stands under in the registry.
pub open spec fn listing_key_spec(nft_contract_id: Seq<char>, token_id: Seq<char>) -> Seq<char> {
    nft_contract_id + ":"@ + token_id
}

/// Builds the listing key for an asset: collection account, `:`, instance
/// identifier.
pub fn listing_key(nft_contract_id: &String, token_id: &String) -> (r: String)
    ensures
        r@ == listing_key_spec(nft_contract_id@, token_id@),
{
    let mut key = nft_contract_id.clone();
    key.append(":");
    key.append(token_id.as_str());
    key
}

/// True exactly when the currency is the native sentinel.
pub fn is_native(currency: &String) -> (r: bool)
    ensures
        r == (currency@ == native_currency()),
{
    let native: String = "near".to_owned();
    *currency == native
}

} // verus!
