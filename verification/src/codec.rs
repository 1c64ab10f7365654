//! Address encoding and validation: a public key plus the active network
//! become a canonical segwit v0 (P2WPKH) address string, and caller-supplied
//! address text is checked against the same shape. Two networks never share
//! an address: every encoding starts with the network's own prefix.

use vstd::prelude::*;
use crate::network::NetworkSelector;
use crate::network::hrp_of;
use crate::network::hrp_prefixed;
use crate::network::hrp_chars;
use crate::network::lemma_hrp_prefix_unique;
use crate::keys::PublicKey;
use crate::errors::BtcError;

verus! {

/// Whether a byte string is a valid encoding of an elliptic-curve public
/// key. Names the outcome of `bitcoin::PublicKey::from_slice`, a function
/// of the bytes alone.
pub uninterp spec fn parses_as_public_key(b: Seq<u8>) -> bool;

/// A well-formed compressed public key: exactly 33 bytes that parse as a
/// valid curve point.
pub open spec fn spec_key_wf(b: Seq<u8>) -> bool {
    b.len() == 33 && parses_as_public_key(b)
}

/// Relies on `bitcoin::PublicKey::from_slice`: it returns `Ok` exactly when
/// the slice is a valid public-key encoding.
#[verifier::external_body]
fn key_is_valid(b: &[u8]) -> (r: bool)
    ensures
        r == (b@.len() == 33 && parses_as_public_key(b@)),
{
    b.len() == 33 && bitcoin::PublicKey::from_slice(b).is_ok()
}

/// The canonical segwit v0 address string for a public key under a bech32
/// human-readable part. Names the outcome of `bitcoin::Address::p2wpkh`
/// followed by its display, a function of the key bytes and the prefix
/// alone.
pub uninterp spec fn p2wpkh_str(key: Seq<u8>, hrp: Seq<char>) -> Seq<char>;

/// The 32 characters of the bech32 data alphabet.
pub open spec fn is_bech32_data_char(c: char) -> bool {
    c == 'q' || c == 'p' || c == 'z' || c == 'r' || c == 'y' || c == '9' || c == 'x' || c == '8'
        || c == 'g' || c == 'f' || c == '2' || c == 't' || c == 'v' || c == 'd' || c == 'w'
        || c == '0' || c == 's' || c == '3' || c == 'j' || c == 'n' || c == '5' || c == '4'
        || c == 'k' || c == 'h' || c == 'c' || c == 'e' || c == '6' || c == 'm' || c == 'u'
        || c == 'a' || c == '7' || c == 'l'
}

/// Whether `c` is in the bech32 data alphabet.
pub fn bech32_data_char(c: char) -> (r: bool)
    ensures
        r == is_bech32_data_char(c),
{
    match c {
        'q' | 'p' | 'z' | 'r' | 'y' | '9' | 'x' | '8' | 'g' | 'f' | '2' | 't' | 'v' | 'd' | 'w'
            | '0' | 's' | '3' | 'j' | 'n' | '5' | '4' | 'k' | 'h' | 'c' | 'e' | '6' | 'm' | 'u'
            | 'a' | '7' | 'l' => true,
        _ => false,
    }
}

/// Relies on `bitcoin::PublicKey::from_slice` (cannot fail on a well-formed
/// key), `bitcoin::Address::p2wpkh` (fails only on uncompressed keys) and
/// the address display: the result is a bech32 string made of the network's
/// human-readable part, the separator `1`, and 39 data characters (witness
/// version, 32-character program, 6-character checksum), all from the
/// bech32 data alphabet.
#[verifier::external_body]
fn p2wpkh_encode(key: &PublicKey, network: NetworkSelector) -> (r: String)
    requires
        key.wf(),
    ensures
        r@ == p2wpkh_str(key.bytes@, hrp_of(network)),
        hrp_prefixed(r@, network),
        r@.len() == hrp_of(network).len() + 40,
        forall|i: int|
            hrp_of(network).len() + 1 <= i < r@.len() ==> is_bech32_data_char(#[trigger] r@[i]),
{
    let pk = bitcoin::PublicKey::from_slice(key.bytes.as_slice()).expect("well-formed key bytes");
    let net = match network {
        NetworkSelector::Mainnet => bitcoin::Network::Bitcoin,
        NetworkSelector::Testnet => bitcoin::Network::Testnet,
        NetworkSelector::Regtest => bitcoin::Network::Regtest,
    };
    bitcoin::Address::p2wpkh(&pk, net).expect("compressed key").to_string()
}

/// Syntactically a supported address for the network: the network's own
/// prefix, then only bech32 data characters, at least six of them (the
/// checksum), within the 90-character bech32 limit.
pub open spec fn valid_segwit_address(s: Seq<char>, n: NetworkSelector) -> bool {
    &&& hrp_prefixed(s, n)
    &&& s.len() <= 90
    &&& s.len() >= hrp_of(n).len() + 7
    &&& forall|i: int| hrp_of(n).len() + 1 <= i < s.len() ==> is_bech32_data_char(#[trigger] s[i])
}

/// Encodes a public key as the canonical segwit v0 (P2WPKH) address for
/// the given network. Pure and deterministic. Fails closed with
/// `MalformedKey` exactly when the key bytes are not a well-formed
/// compressed point. On success the address carries the network's own
/// prefix and is a valid address for that network — and, by
/// `lemma_cross_network_rejected`, for no other.
pub fn encode(key: &PublicKey, network: NetworkSelector) -> (r: Result<String, BtcError>)
    ensures
        r is Ok <==> spec_key_wf(key.bytes@),
        r is Ok ==> r->Ok_0@ == p2wpkh_str(key.bytes@, hrp_of(network)),
        r is Ok ==> hrp_prefixed(r->Ok_0@, network),
        r is Ok ==> valid_segwit_address(r->Ok_0@, network),
        r is Err ==> r->Err_0 == BtcError::MalformedKey,
{
    if key_is_valid(key.bytes.as_slice()) {
        let a = p2wpkh_encode(key, network);
        proof {
            assert(hrp_of(network).len() <= 4);
            assert(valid_segwit_address(a@, network));
        }
        Ok(a)
    } else {
        Err(BtcError::MalformedKey)
    }
}

/// Encoding injectivity across networks: two addresses that carry the
/// prefixes of two different networks differ, whatever keys they encode.
/// With `encode`'s postcondition this gives `encode(k, n1) != encode(k, n2)`
/// whenever `n1 != n2`.
pub proof fn lemma_encode_injective_across_networks(
    a1: Seq<char>,
    a2: Seq<char>,
    n1: NetworkSelector,
    n2: NetworkSelector,
)
    requires
        hrp_prefixed(a1, n1),
        hrp_prefixed(a2, n2),
        n1 != n2,
    ensures
        a1 != a2,
{
    if a1 == a2 {
        lemma_hrp_prefix_unique(a1, n1, n2);
    }
}

/// Cross-network rejection: text that carries one network's prefix is not
/// a valid address for any other network, so a balance query for it under
/// a deployment on another network is refused rather than answered from
/// the wrong ledger.
pub proof fn lemma_cross_network_rejected(s: Seq<char>, n1: NetworkSelector, n2: NetworkSelector)
    requires
        hrp_prefixed(s, n1),
        n1 != n2,
    ensures
        !valid_segwit_address(s, n2),
{
    if valid_segwit_address(s, n2) {
        lemma_hrp_prefix_unique(s, n1, n2);
    }
}

/// Checks that `address` is syntactically a supported segwit address for
/// the given network: the decision `get_balance_of` uses to reject foreign
/// or malformed address text.
pub fn check_address(address: &str, network: NetworkSelector) -> (ok: bool)
    ensures
        ok == valid_segwit_address(address@, network),
{
    let hrp = hrp_chars(network);
    let len = address.unicode_len();
    if len > 90 || len < hrp.len() + 7 {
        return false;
    }
    let mut i: usize = 0;
    while i < hrp.len()
        invariant
            hrp@ == hrp_of(network),
            len == address@.len(),
            len <= 90,
            len >= hrp.len() + 7,
            i <= hrp.len(),
            forall|j: int| 0 <= j < i ==> address@[j] == hrp_of(network)[j],
        decreases hrp.len() - i,
    {
        if address.get_char(i) != hrp[i] {
            proof {
                if address@.subrange(0, hrp_of(network).len() as int) == hrp_of(network) {
                    assert(address@.subrange(0, hrp_of(network).len() as int)[i as int]
                        == address@[i as int]);
                }
            }
            return false;
        }
        i += 1;
    }
    proof {
        assert(address@.subrange(0, hrp_of(network).len() as int) =~= hrp_of(network));
    }
    if address.get_char(hrp.len()) != '1' {
        return false;
    }
    let mut j: usize = hrp.len() + 1;
    while j < len
        invariant
            hrp@ == hrp_of(network),
            len == address@.len(),
            len <= 90,
            len >= hrp.len() + 7,
            hrp.len() + 1 <= j <= len,
            forall|k: int|
                hrp.len() + 1 <= k < j ==> is_bech32_data_char(#[trigger] address@[k]),
        decreases len - j,
    {
        if !bech32_data_char(address.get_char(j)) {
            return false;
        }
        j += 1;
    }
    true
}

} // verus!
