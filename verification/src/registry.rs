//! The listing registry: a durable, key-unique store from listing key to
//! sale terms, mutated only synchronously and only by its owner's calls.
//!
//! The registry's view is the map from listing-key characters to sale views;
//! `Contract@` is that map. Errors are reported before any mutation: a failed
//! call leaves the registry exactly as it was.

use crate::sale::{
    conditions_of, listing_key, listing_key_spec, Sale, SaleArgs, SaleView,
};
use crate::str_map::StrMap;
use vstd::prelude::*;

verus! {

/// How a registry or settlement call fails. `Unauthorized`: the caller is
/// not the sale's owner. `NotFound`: no sale stands at the key.
/// `Precondition`: a missing deposit, a missing currency, or a payment that
/// does not match the stored price.
#[derive(Clone, Copy, Debug, PartialEq, Eq, Structural)]
pub enum MarketError {
    Unauthorized,
    NotFound,
    Precondition,
}

/// The marketplace state in scope: the listing registry and the set of
/// accounts holding a qualifying storage deposit. The deposit ledger proper
/// is an external collaborator; only membership is modelled here.
pub struct Contract {
    sales: StrMap<Sale>,
    storage_deposits: Vec<String>,
}

impl View for Contract {
    type V = Map<Seq<char>, SaleView>;

    closed spec fn view(&self) -> Map<Seq<char>, SaleView> {
        self.sales@
    }
}

impl Contract {
    /// Validity of the registry representation.
    pub closed spec fn wf(&self) -> bool {
        self.sales.wf()
    }

    /// The registry's entries as (listing key, sale view) pairs, in storage
    /// order.
    pub closed spec fn listings(&self) -> Seq<(Seq<char>, SaleView)> {
        self.sales.pairs()
    }

    /// The accounts that hold a qualifying storage deposit.
    pub closed spec fn deposit_accounts(&self) -> Set<Seq<char>> {
        Set::new(
            |a: Seq<char>|
                exists|i: int|
                    0 <= i < self.storage_deposits@.len() && self.storage_deposits@[i]@ == a,
        )
    }

    /// For all listing keys, at most one sale exists at any time: no two
    /// distinct registry entries carry the same key. Every reachable
    /// `Contract` satisfies `wf`, which the constructor and every operation
    /// maintain.
    pub proof fn lemma_at_most_one_sale(&self, i: int, j: int)
        requires
            self.wf(),
            0 <= i < self.listings().len(),
            0 <= j < self.listings().len(),
            i != j,
        ensures
            self.listings()[i].0 != self.listings()[j].0,
            self@.contains_key(self.listings()[i].0),
            self@[self.listings()[i].0] == self.listings()[i].1,
    {
        self.sales.lemma_key_unique(i, j);
        self.sales.lemma_pairs_in_view(i);
    }

    /// Once a reservation removes a listing, its key is gone: any later
    /// lookup, removal or purchase of the same key meets `NotFound` until a
    /// fresh sale is created under it.
    pub proof fn lemma_reserved_key_not_found(pre: Contract, post: Contract, key: Seq<char>)
        requires
            post@ == pre@.remove(key),
        ensures
            !post@.contains_key(key),
    {
    }

    /// An empty marketplace: no listings, no deposits.
    pub fn new() -> (c: Contract)
        ensures
            c@ == Map::<Seq<char>, SaleView>::empty(),
            c.deposit_accounts() == Set::<Seq<char>>::empty(),
            c.wf(),
    {
        let c = Contract { sales: StrMap::new(), storage_deposits: Vec::new() };
        proof {
            assert(c.deposit_accounts() =~= Set::<Seq<char>>::empty());
        }
        c
    }

    /// Records that an account holds a qualifying deposit. Stands in for the
    /// external storage-deposit ledger, which is out of scope.
    pub fn register_storage_deposit(&mut self, account_id: String)
        ensures
            final(self)@ == old(self)@,
            final(self).deposit_accounts() == old(self).deposit_accounts().insert(account_id@),
            final(self).wf() == old(self).wf(),
    {
        self.storage_deposits.push(account_id);
        proof {
            assert(final(self).deposit_accounts() =~= old(self).deposit_accounts().insert(
                account_id@,
            )) by {
                assert forall|a: Seq<char>|
                    old(self).deposit_accounts().contains(a)
                        implies final(self).deposit_accounts().contains(a) by {
                    let i = choose|i: int|
                        0 <= i < old(self).storage_deposits@.len()
                            && old(self).storage_deposits@[i]@ == a;
                    assert(final(self).storage_deposits@[i]@ == a);
                }
                assert(final(self).storage_deposits@[old(self).storage_deposits@.len() as int]@
                    == account_id@);
                assert forall|a: Seq<char>|
                    final(self).deposit_accounts().contains(a)
                        && a != account_id@ implies old(self).deposit_accounts().contains(a) by {
                    let i = choose|i: int|
                        0 <= i < final(self).storage_deposits@.len()
                            && final(self).storage_deposits@[i]@ == a;
                    assert(old(self).storage_deposits@[i]@ == a);
                }
            }
        }
    }

    fn has_deposit(&self, account_id: &String) -> (r: bool)
        ensures
            r == self.deposit_accounts().contains(account_id@),
    {
        let mut i: usize = 0;
        while i < self.storage_deposits.len()
            invariant
                i <= self.storage_deposits@.len(),
                forall|j: int| 0 <= j < i ==> self.storage_deposits@[j]@ != account_id@,
            decreases self.storage_deposits@.len() - i,
        {
            if self.storage_deposits[i] == *account_id {
                return true;
            }
            i = i + 1;
        }
        false
    }

    /// Creates a listing under the asset's key, superseding any sale the key
    /// held. Fails with `Precondition`, touching nothing, when the owner
    /// holds no qualifying deposit. The condition map comes from the ordered
    /// price list: absent currency defaults to native, absent price to 0,
    /// and on a repeated currency the last element wins.
    pub fn add_sale(
        &mut self,
        nft_contract_id: String,
        token_id: String,
        owner_id: String,
        approval_id: u64,
        sale_args: SaleArgs,
    ) -> (r: Result<(), MarketError>)
        ensures
            final(self).wf(),
            final(self).deposit_accounts() == old(self).deposit_accounts(),
            match r {
                Ok(()) => old(self).deposit_accounts().contains(owner_id@) && final(self)@ == old(
                    self,
                )@.insert(
                    listing_key_spec(nft_contract_id@, token_id@),
                    SaleView {
                        owner_id: owner_id@,
                        approval_id: approval_id,
                        conditions: conditions_of(sale_args.prices@),
                        bids: Map::empty(),
                    },
                ),
                Err(e) => {
                    &&& e == MarketError::Precondition
                    &&& !old(self).deposit_accounts().contains(owner_id@)
                    &&& *final(self) == *old(self)
                },
            },
    {
        proof {
            use_type_invariant(&self.sales);
        }
        if !self.has_deposit(&owner_id) {
            return Err(MarketError::Precondition);
        }
        let mut conditions: StrMap<u128> = StrMap::new();
        let mut i: usize = 0;
        while i < sale_args.prices.len()
            invariant
                i <= sale_args.prices@.len(),
                conditions@ == conditions_of(sale_args.prices@.take(i as int)),
            decreases sale_args.prices@.len() - i,
        {
            let item = &sale_args.prices[i];
            let currency: String = match &item.ft_token_id {
                Some(c) => c.clone(),
                None => "near".to_owned(),
            };
            let amount: u128 = match &item.price {
                Some(a) => *a,
                None => 0,
            };
            conditions.insert(currency, amount);
            proof {
                let taken = sale_args.prices@.take(i + 1 as int);
                assert(taken.drop_last() =~= sale_args.prices@.take(i as int));
                assert(taken.last() == sale_args.prices@[i as int]);
            }
            i = i + 1;
        }
        proof {
            assert(sale_args.prices@.take(sale_args.prices@.len() as int) =~= sale_args.prices@);
        }
        let sale = Sale { owner_id, approval_id, conditions, bids: StrMap::new() };
        let key = listing_key(&nft_contract_id, &token_id);
        self.sales.insert(key, sale);
        Ok(())
    }

    /// Sets the sale's price in one currency. Owner-only: fails with
    /// `NotFound` when the key is absent, with `Unauthorized` when the
    /// caller is not the sale's owner; a failed call changes nothing.
    pub fn update_price(
        &mut self,
        caller_id: String,
        nft_contract_id: String,
        token_id: String,
        ft_token_id: String,
        price: u128,
    ) -> (r: Result<(), MarketError>)
        ensures
            final(self).wf(),
            final(self).deposit_accounts() == old(self).deposit_accounts(),
            ({
                let k = listing_key_spec(nft_contract_id@, token_id@);
                match r {
                    Ok(()) => {
                        &&& old(self)@.contains_key(k)
                        &&& caller_id@ == old(self)@[k].owner_id
                        &&& final(self)@ == old(self)@.insert(
                            k,
                            SaleView {
                                conditions: old(self)@[k].conditions.insert(ft_token_id@, price),
                                ..old(self)@[k]
                            },
                        )
                    },
                    Err(e) => {
                        &&& *final(self) == *old(self)
                        &&& (e == MarketError::NotFound <==> !old(self)@.contains_key(k))
                        &&& (e == MarketError::Unauthorized <==> old(self)@.contains_key(k)
                            && caller_id@ != old(self)@[k].owner_id)
                        &&& (e == MarketError::NotFound || e == MarketError::Unauthorized)
                    },
                }
            }),
    {
        proof {
            use_type_invariant(&self.sales);
        }
        let key = listing_key(&nft_contract_id, &token_id);
        let authorized: bool = match self.sales.get(&key) {
            None => {
                return Err(MarketError::NotFound);
            },
            Some(sale) => sale.owner_id == caller_id,
        };
        if !authorized {
            return Err(MarketError::Unauthorized);
        }
        let mut sale = self.sales.remove(&key).unwrap();
        sale.conditions.insert(ft_token_id, price);
        proof {
            assert(old(self)@.remove(key@).insert(key@, sale@) =~= old(self)@.insert(key@, sale@));
        }
        self.sales.insert(key, sale);
        Ok(())
    }

    /// Removes the sale and hands it back. Owner-only: fails with `NotFound`
    /// when the key is absent, with `Unauthorized` when the caller is not
    /// the sale's owner; a failed call changes nothing.
    pub fn remove_sale(
        &mut self,
        caller_id: String,
        nft_contract_id: String,
        token_id: String,
    ) -> (r: Result<Sale, MarketError>)
        ensures
            final(self).wf(),
            final(self).deposit_accounts() == old(self).deposit_accounts(),
            ({
                let k = listing_key_spec(nft_contract_id@, token_id@);
                match r {
                    Ok(sale) => {
                        &&& old(self)@.contains_key(k)
                        &&& caller_id@ == old(self)@[k].owner_id
                        &&& sale@ == old(self)@[k]
                        &&& final(self)@ == old(self)@.remove(k)
                    },
                    Err(e) => {
                        &&& *final(self) == *old(self)
                        &&& (e == MarketError::NotFound <==> !old(self)@.contains_key(k))
                        &&& (e == MarketError::Unauthorized <==> old(self)@.contains_key(k)
                            && caller_id@ != old(self)@[k].owner_id)
                        &&& (e == MarketError::NotFound || e == MarketError::Unauthorized)
                    },
                }
            }),
    {
        proof {
            use_type_invariant(&self.sales);
        }
        let key = listing_key(&nft_contract_id, &token_id);
        let authorized: bool = match self.sales.get(&key) {
            None => {
                return Err(MarketError::NotFound);
            },
            Some(sale) => sale.owner_id == caller_id,
        };
        if !authorized {
            return Err(MarketError::Unauthorized);
        }
        let sale = self.sales.remove(&key).unwrap();
        Ok(sale)
    }

    /// Removes a listing known to be present, handing its sale back; the
    /// reservation step of a purchase acts through this.
    pub(crate) fn remove_listing(&mut self, key: &String) -> (sale: Sale)
        requires
            old(self)@.contains_key(key@),
        ensures
            final(self).wf(),
            final(self).deposit_accounts() == old(self).deposit_accounts(),
            final(self)@ == old(self)@.remove(key@),
            sale@ == old(self)@[key@],
    {
        self.sales.remove(key).unwrap()
    }

    /// Reads the sale at the asset's key; fails with `NotFound` when the key
    /// is absent.
    pub fn get_sale(&self, nft_contract_id: String, token_id: String) -> (r: Result<
        &Sale,
        MarketError,
    >)
        ensures
            ({
                let k = listing_key_spec(nft_contract_id@, token_id@);
                match r {
                    Ok(sale) => self@.contains_key(k) && sale@ == self@[k],
                    Err(e) => e == MarketError::NotFound && !self@.contains_key(k),
                }
            }),
    {
        let key = listing_key(&nft_contract_id, &token_id);
        match self.sales.get(&key) {
            Some(sale) => Ok(sale),
            None => Err(MarketError::NotFound),
        }
    }
}

} // verus!
