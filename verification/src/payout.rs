//! The payout validator: accepts or rejects the payout distribution that the
//! external custody service reports for a settled transfer request.
//!
//! A payout is accepted exactly when the request succeeded, its payload
//! parsed as a payout mapping, the mapping holds at most
//! `MAX_PAYOUT_ENTRIES` entries, and the amounts sum to the sale price.
//! Everything else — a failed request, an unparsable payload, too many
//! entries, a mismatched sum — is rejected, and rejection is absorbed by
//! compensation, never surfaced as a fatal error.

use vstd::prelude::*;

verus! {

/// The most payout entries a settlement disburses; the bound keeps the
/// subsequent per-recipient transfers within the resource budget.
pub const MAX_PAYOUT_ENTRIES: usize = 8;

/// A payout distribution: receiver accounts and the amount each receives.
pub struct Payout {
    pub entries: Vec<(String, u128)>,
}

/// How the external transfer request settled. `Succeeded(None)` stands for a
/// success whose payload did not parse as a payout mapping.
pub enum TransferResult {
    Failed,
    Succeeded(Option<Payout>),
}

/// The verdict on a reported payout.
pub enum Validation {
    Accepted(Payout),
    Rejected,
}

/// The sum of the payout amounts, as an unbounded integer.
pub open spec fn payout_sum(entries: Seq<(String, u128)>) -> int
    decreases entries.len(),
{
    if entries.len() == 0 {
        0
    } else {
        payout_sum(entries.drop_last()) + entries.last().1
    }
}

/// When a transfer result's payout is accepted against the sale price.
pub open spec fn payout_accepted(result: TransferResult, price: u128) -> bool {
    match result {
        TransferResult::Succeeded(Some(p)) => p.entries@.len() <= MAX_PAYOUT_ENTRIES
            && payout_sum(p.entries@) == price,
        _ => false,
    }
}

proof fn lemma_payout_sum_take_succ(entries: Seq<(String, u128)>, i: int)
    requires
        0 <= i < entries.len(),
    ensures
        payout_sum(entries.take(i + 1)) == payout_sum(entries.take(i)) + entries[i].1,
{
    assert(entries.take(i + 1).drop_last() =~= entries.take(i));
    assert(entries.take(i + 1).last() == entries[i]);
}

proof fn lemma_payout_sum_take_le(entries: Seq<(String, u128)>, i: int)
    requires
        0 <= i <= entries.len(),
    ensures
        payout_sum(entries.take(i)) <= payout_sum(entries),
    decreases entries.len() - i,
{
    if i == entries.len() {
        assert(entries.take(i) =~= entries);
    } else {
        lemma_payout_sum_take_succ(entries, i);
        lemma_payout_sum_take_le(entries, i + 1);
    }
}

/// Adds the payout amounts; `None` exactly when the true sum exceeds what a
/// u128 holds (and so can never equal a stored price).
fn payout_total(entries: &Vec<(String, u128)>) -> (r: Option<u128>)
    ensures
        match r {
            Some(total) => total == payout_sum(entries@),
            None => payout_sum(entries@) > u128::MAX,
        },
{
    let mut total: u128 = 0;
    let mut i: usize = 0;
    while i < entries.len()
        invariant
            i <= entries@.len(),
            total == payout_sum(entries@.take(i as int)),
        decreases entries@.len() - i,
    {
        let amount = entries[i].1;
        proof {
            lemma_payout_sum_take_succ(entries@, i as int);
        }
        match total.checked_add(amount) {
            Some(t) => {
                total = t;
            },
            None => {
                proof {
                    lemma_payout_sum_take_le(entries@, i + 1 as int);
                }
                return None;
            },
        }
        i = i + 1;
    }
    proof {
        assert(entries@.take(entries@.len() as int) =~= entries@);
    }
    Some(total)
}

/// Judges the reported outcome against the sale price: `Accepted` hands the
/// payout through exactly when `payout_accepted` holds of the result.
pub fn validate_payout(result: TransferResult, price: u128) -> (v: Validation)
    ensures
        match v {
            Validation::Accepted(p) => payout_accepted(result, price) && result
                == TransferResult::Succeeded(Some(p)),
            Validation::Rejected => !payout_accepted(result, price),
        },
{
    match result {
        TransferResult::Failed => Validation::Rejected,
        TransferResult::Succeeded(None) => Validation::Rejected,
        TransferResult::Succeeded(Some(payout)) => {
            if payout.entries.len() > MAX_PAYOUT_ENTRIES {
                return Validation::Rejected;
            }
            match payout_total(&payout.entries) {
                Some(total) => {
                    if total == price {
                        Validation::Accepted(payout)
                    } else {
                        Validation::Rejected
                    }
                },
                None => Validation::Rejected,
            }
        },
    }
}

} // verus!
