//! The active Bitcoin network: one process-wide selection consumed by both
//! address encoding and chain-data queries, so the two can never disagree.

use vstd::prelude::*;

verus! {

/// Which Bitcoin network a deployment operates on.
#[derive(Clone, Copy, PartialEq, Eq, Structural, Debug)]
pub enum NetworkSelector {
    Mainnet,
    Testnet,
    Regtest,
}

/// The bech32 human-readable part that prefixes every segwit address of the
/// given network: `bc` on mainnet, `tb` on testnet, `bcrt` on regtest.
pub open spec fn hrp_of(n: NetworkSelector) -> Seq<char> {
    match n {
        NetworkSelector::Mainnet => seq!['b', 'c'],
        NetworkSelector::Testnet => seq!['t', 'b'],
        NetworkSelector::Regtest => seq!['b', 'c', 'r', 't'],
    }
}

/// `s` begins with the given network's human-readable part followed by the
/// bech32 separator `1`. Every segwit address for the network starts this way.
pub open spec fn hrp_prefixed(s: Seq<char>, n: NetworkSelector) -> bool {
    &&& s.len() > hrp_of(n).len()
    &&& s.subrange(0, hrp_of(n).len() as int) == hrp_of(n)
    &&& s[hrp_of(n).len() as int] == '1'
}

proof fn lemma_hrp_char(s: Seq<char>, n: NetworkSelector, i: int)
    requires
        hrp_prefixed(s, n),
        0 <= i < hrp_of(n).len(),
    ensures
        s[i] == hrp_of(n)[i],
{
    assert(s.subrange(0, hrp_of(n).len() as int)[i] == s[i]);
}

/// No string carries the network prefix of two distinct networks: `bc1`,
/// `tb1` and `bcrt1` conflict pairwise within their first three characters.
pub proof fn lemma_hrp_prefix_unique(s: Seq<char>, n1: NetworkSelector, n2: NetworkSelector)
    requires
        hrp_prefixed(s, n1),
        hrp_prefixed(s, n2),
    ensures
        n1 == n2,
{
    if n1 != n2 {
        lemma_hrp_char(s, n1, 0);
        lemma_hrp_char(s, n2, 0);
        if hrp_of(n1).len() > 2 {
            lemma_hrp_char(s, n1, 2);
        }
        if hrp_of(n2).len() > 2 {
            lemma_hrp_char(s, n2, 2);
        }
        assert(false);
    }
}

/// Process-wide deployment configuration. A single value of this type is
/// injected into every component that needs the network, so the address
/// format and the chain-data queries always agree.
#[derive(Clone, Copy, PartialEq, Eq, Structural, Debug)]
pub struct NetworkConfig {
    pub network: NetworkSelector,
}

impl NetworkConfig {
    pub fn new(network: NetworkSelector) -> (c: NetworkConfig)
        ensures
            c.network == network,
    {
        NetworkConfig { network }
    }

    pub fn network(&self) -> (n: NetworkSelector)
        ensures
            n == self.network,
    {
        self.network
    }
}

/// The network's human-readable part as executable characters.
pub fn hrp_chars(n: NetworkSelector) -> (v: Vec<char>)
    ensures
        v@ == hrp_of(n),
{
    match n {
        NetworkSelector::Mainnet => {
            let v = vec!['b', 'c'];
            assert(v@ =~= hrp_of(n));
            v
        },
        NetworkSelector::Testnet => {
            let v = vec!['t', 'b'];
            assert(v@ =~= hrp_of(n));
            v
        },
        NetworkSelector::Regtest => {
            let v = vec!['b', 'c', 'r', 't'];
            assert(v@ =~= hrp_of(n));
            v
        },
    }
}

} // verus!
