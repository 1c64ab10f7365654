//! Balance aggregation: summing the value fields of a UTXO set into one
//! total. The accumulator is 64-bit and saturating, so a sum near the
//! largest representable value never silently wraps; an empty set sums to
//! zero, which is a valid balance, not an error.

use vstd::prelude::*;
use crate::network::NetworkConfig;
use crate::network::NetworkSelector;

verus! {

/// One unspent output as the chain-data provider reports it. The library
/// reads only the value, in satoshi.
#[derive(Clone, Copy, PartialEq, Eq, Structural, Debug)]
pub struct Utxo {
    pub value: u64,
}

/// Mathematical sum of the values of a UTXO sequence.
pub open spec fn sum_values(s: Seq<Utxo>) -> int
    decreases s.len(),
{
    if s.len() == 0 {
        0
    } else {
        sum_values(s.drop_last()) + s.last().value
    }
}

/// What the saturating sum of a UTXO sequence comes to: the exact sum
/// wherever it fits in 64 bits, and the largest 64-bit value beyond that.
pub open spec fn spec_balance(s: Seq<Utxo>) -> int {
    if sum_values(s) <= u64::MAX {
        sum_values(s)
    } else {
        u64::MAX as int
    }
}

/// A balance is never negative: values are unsigned, so the sum of any
/// UTXO set is at least zero, and with `balance_of`'s saturation the
/// reported total always lies between zero and the largest 64-bit value.
pub proof fn lemma_sum_values_nonnegative(s: Seq<Utxo>)
    ensures
        0 <= sum_values(s),
        0 <= spec_balance(s) <= u64::MAX,
    decreases s.len(),
{
    if s.len() > 0 {
        lemma_sum_values_nonnegative(s.drop_last());
    }
}

/// The balance of a UTXO set: the saturating sum of every output's value.
/// Exact wherever the total fits in 64 bits — in particular for any
/// realistic total supply — and the empty set sums to zero.
pub fn balance_of(utxos: &Vec<Utxo>) -> (total: u64)
    ensures
        total == spec_balance(utxos@),
        sum_values(utxos@) <= u64::MAX ==> total == sum_values(utxos@),
{
    let mut total: u64 = 0;
    let mut i: usize = 0;
    while i < utxos.len()
        invariant
            i <= utxos.len(),
            total == spec_balance(utxos@.subrange(0, i as int)),
        decreases utxos.len() - i,
    {
        let v = utxos[i].value;
        proof {
            assert(utxos@.subrange(0, i + 1).drop_last() =~= utxos@.subrange(0, i as int));
            assert(utxos@.subrange(0, i + 1).last() == utxos@[i as int]);
        }
        if total > u64::MAX - v {
            total = u64::MAX;
        } else {
            total = total + v;
        }
        i += 1;
    }
    proof {
        assert(utxos@.subrange(0, utxos@.len() as int) =~= utxos@);
    }
    total
}

/// A chain-data query: which network's ledger to ask, and for which
/// address.
#[derive(Clone, Debug)]
pub struct UtxoRequest {
    pub network: NetworkSelector,
    pub address: String,
}

/// Builds the UTXO query for an address. The network comes from the one
/// process-wide configuration — the same value address encoding uses — so
/// the ledger asked and the address format can never disagree.
pub fn utxo_request(cfg: &NetworkConfig, address: String) -> (r: UtxoRequest)
    ensures
        r.network == cfg.network,
        r.address@ == address@,
{
    UtxoRequest { network: cfg.network(), address }
}

} // verus!
