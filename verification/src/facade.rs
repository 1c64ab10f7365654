//! The four caller-facing operations: derive an address, derive and sum
//! one's own balance, sum the balance of caller-supplied address text, and
//! probe connectivity. Each remote outcome (signer answer, UTXO set, probe
//! result) enters as a plain value; everything between the remote calls is
//! decided here. No state persists across calls: every operation re-derives
//! everything from its inputs.

use vstd::prelude::*;
use crate::network::NetworkConfig;
use crate::network::hrp_of;
use crate::codec::encode;
use crate::codec::check_address;
use crate::codec::p2wpkh_str;
use crate::codec::spec_key_wf;
use crate::codec::valid_segwit_address;
use crate::keys::PublicKey;
use crate::balance::Utxo;
use crate::balance::UtxoRequest;
use crate::balance::utxo_request;
use crate::balance::balance_of;
use crate::balance::spec_balance;
use crate::errors::BtcError;

verus! {

/// What came back from the remote signer: the raw public-key bytes, or a
/// failure (remote error or timeout).
pub enum SignerOutcome {
    Key(Vec<u8>),
    Unavailable,
}

/// What came back from the chain-data provider for a UTXO query: the full
/// UTXO set, every page drained, or a failure. A partial set must never be
/// handed in as fetched.
pub enum UtxoOutcome {
    Fetched(Vec<Utxo>),
    Unavailable,
}

/// What came back from the liveness probe (the fee-percentile query): any
/// successful payload counts as reached.
#[derive(Clone, Copy, PartialEq, Eq, Structural, Debug)]
pub enum ProbeOutcome {
    Reached,
    Unreachable,
}

/// Derives the caller's address from the signer's answer: validated key
/// bytes become the canonical segwit address for the active network. A
/// signer failure surfaces as `SignerUnavailable`, bytes that are not a
/// well-formed compressed point as `MalformedKey`; no fabricated or cached
/// key ever stands in.
pub fn get_address(cfg: &NetworkConfig, signer: SignerOutcome) -> (r: Result<String, BtcError>)
    ensures
        signer is Unavailable ==> r is Err && r->Err_0 == BtcError::SignerUnavailable,
        signer matches SignerOutcome::Key(b) ==> (if spec_key_wf(b@) {
            &&& r is Ok
            &&& r->Ok_0@ == p2wpkh_str(b@, hrp_of(cfg.network))
            &&& valid_segwit_address(r->Ok_0@, cfg.network)
        } else {
            r is Err && r->Err_0 == BtcError::MalformedKey
        }),
{
    match signer {
        SignerOutcome::Unavailable => Err(BtcError::SignerUnavailable),
        SignerOutcome::Key(bytes) => {
            let key = PublicKey::new(bytes);
            encode(&key, cfg.network())
        },
    }
}

/// How `get_own_balance` proceeds once the signer has answered: query the
/// chain-data provider for the derived address, or stop with the error.
/// A failure carries no query, so after a signer failure there is nothing
/// to hand to the chain-data provider — no address was ever produced.
pub enum OwnBalanceStep {
    QueryUtxos(UtxoRequest),
    Fail(BtcError),
}

/// First half of `get_own_balance`: everything up to, and not including,
/// the chain-data query. On a signer failure the result is
/// `Fail(SignerUnavailable)` — error isolation: the chain-data provider is
/// not invoked at all. On well-formed key bytes the result carries the
/// query for the derived address, under the same network the address was
/// encoded for.
pub fn get_own_balance_start(cfg: &NetworkConfig, signer: SignerOutcome) -> (r: OwnBalanceStep)
    ensures
        signer is Unavailable ==> (r matches OwnBalanceStep::Fail(e) && e
            == BtcError::SignerUnavailable),
        signer matches SignerOutcome::Key(b) ==> (if spec_key_wf(b@) {
            r matches OwnBalanceStep::QueryUtxos(req) && req.network == cfg.network
                && req.address@ == p2wpkh_str(b@, hrp_of(cfg.network))
                && valid_segwit_address(req.address@, cfg.network)
        } else {
            r matches OwnBalanceStep::Fail(e) && e == BtcError::MalformedKey
        }),
{
    match get_address(cfg, signer) {
        Ok(address) => OwnBalanceStep::QueryUtxos(utxo_request(cfg, address)),
        Err(e) => OwnBalanceStep::Fail(e),
    }
}

/// A derived address together with its balance in satoshi.
pub struct OwnBalance {
    pub address: String,
    pub balance_sats: u64,
}

/// Second half of `get_own_balance`: folds the fetched UTXO set into the
/// balance of the address the first half derived. A chain-data failure
/// surfaces as `ChainDataUnavailable`; it is never reported as a zero
/// balance — zero is reserved for a verified empty UTXO set.
pub fn get_own_balance_finish(address: String, chain: UtxoOutcome) -> (r: Result<
    OwnBalance,
    BtcError,
>)
    ensures
        chain is Unavailable ==> r is Err && r->Err_0 == BtcError::ChainDataUnavailable,
        chain matches UtxoOutcome::Fetched(utxos) ==> {
            &&& r is Ok
            &&& r->Ok_0.address@ == address@
            &&& r->Ok_0.balance_sats == spec_balance(utxos@)
        },
{
    match chain {
        UtxoOutcome::Unavailable => Err(BtcError::ChainDataUnavailable),
        UtxoOutcome::Fetched(utxos) => {
            let balance_sats = balance_of(&utxos);
            Ok(OwnBalance { address, balance_sats })
        },
    }
}

/// First half of `get_balance_of`: validates caller-supplied address text
/// against the active network and builds the query. Text that is not a
/// supported address for the active network — an address of a different
/// network included — is rejected with `InvalidAddressFormat` rather than
/// queried against the wrong ledger.
pub fn get_balance_of_start(cfg: &NetworkConfig, address_text: String) -> (r: Result<
    UtxoRequest,
    BtcError,
>)
    ensures
        valid_segwit_address(address_text@, cfg.network) ==> r is Ok && r->Ok_0.network
            == cfg.network && r->Ok_0.address@ == address_text@,
        !valid_segwit_address(address_text@, cfg.network) ==> r is Err && r->Err_0
            == BtcError::InvalidAddressFormat,
{
    if check_address(address_text.as_str(), cfg.network()) {
        Ok(utxo_request(cfg, address_text))
    } else {
        Err(BtcError::InvalidAddressFormat)
    }
}

/// Second half of `get_balance_of`: the balance of the queried address, or
/// the chain-data failure; never a partial or stale sum.
pub fn get_balance_of_finish(chain: UtxoOutcome) -> (r: Result<u64, BtcError>)
    ensures
        chain is Unavailable ==> r is Err && r->Err_0 == BtcError::ChainDataUnavailable,
        chain matches UtxoOutcome::Fetched(utxos) ==> r is Ok && r->Ok_0 == spec_balance(utxos@),
{
    match chain {
        UtxoOutcome::Unavailable => Err(BtcError::ChainDataUnavailable),
        UtxoOutcome::Fetched(utxos) => Ok(balance_of(&utxos)),
    }
}

/// Connectivity as the probe saw it.
#[derive(Clone, Copy, PartialEq, Eq, Structural, Debug)]
pub enum ConnectivityStatus {
    Online,
    Offline,
}

/// The operator-facing connectivity message.
pub open spec fn spec_status_message(s: ConnectivityStatus) -> Seq<char> {
    match s {
        ConnectivityStatus::Online => "chain connection online"@,
        ConnectivityStatus::Offline => "chain connection offline"@,
    }
}

impl ConnectivityStatus {
    /// A human-readable connectivity report.
    pub fn message(&self) -> (m: String)
        ensures
            m@ == spec_status_message(*self),
    {
        match self {
            ConnectivityStatus::Online => String::from_str("chain connection online"),
            ConnectivityStatus::Offline => String::from_str("chain connection offline"),
        }
    }
}

/// Reports connectivity from the outcome of the lightweight probe: online
/// exactly when the probe got a successful payload back, independent of any
/// user identity and without surfacing balances.
pub fn probe_connectivity(probe: ProbeOutcome) -> (r: ConnectivityStatus)
    ensures
        r == ConnectivityStatus::Online <==> probe == ProbeOutcome::Reached,
{
    match probe {
        ProbeOutcome::Reached => ConnectivityStatus::Online,
        ProbeOutcome::Unreachable => ConnectivityStatus::Offline,
    }
}

} // verus!
