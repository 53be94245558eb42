//! The dispatcher: the routing table from a command to the one backing call
//! it stands for.

use vstd::prelude::*;

use crate::cmd::{Commands, Currency};

verus! {

/// The currency representation the backing price service expects.
#[derive(Clone, Copy, Debug, PartialEq, Eq)]
pub enum BackingCurrency {
    BTC,
    BRL,
    SATS,
    USD,
}

/// The three backing services a call can target.
#[derive(Clone, Copy, Debug, PartialEq, Eq)]
pub enum Subsystem {
    Blockchain,
    Lightning,
    Price,
}

/// Exactly one invocation of one backing-service operation, with its
/// parameter record fully built. Executing such a call is the caller's
/// business; the dispatcher only decides which one to make.
#[derive(Clone, Debug, PartialEq, Eq)]
pub enum BackingCall {
    GetTransaction { txid: String },
    GetBlock { hash: Option<String>, height: Option<u32> },
    GetMempool,
    PostTransaction { tx_hex: String },
    GetBlock2Time { hash: Option<String>, height: Option<u32> },
    GetFeesRecommended,
    GetAddressDetails { address: String },
    GetAddressTransactions { address: String },
    GetFeesMempoolBlocks,
    GetHashrate,
    GetNodeDetails { public_key: String },
    GetStatistics,
    GetTopNodes,
    ConvertCurrency { currency: BackingCurrency, value: i64 },
}

/// The currency mapping, written out unit by unit so that a change in
/// either enumeration's order cannot silently re-pair them.
pub open spec fn currency_spec(c: Currency) -> BackingCurrency {
    match c {
        Currency::BTC => BackingCurrency::BTC,
        Currency::SAT => BackingCurrency::SATS,
        Currency::USD => BackingCurrency::USD,
        Currency::BRL => BackingCurrency::BRL,
    }
}

impl From<Currency> for BackingCurrency {
    fn from(value: Currency) -> Self {
        match value {
            Currency::BTC => BackingCurrency::BTC,
            Currency::SAT => BackingCurrency::SATS,
            Currency::USD => BackingCurrency::USD,
            Currency::BRL => BackingCurrency::BRL,
        }
    }
}

impl vstd::std_specs::convert::FromSpecImpl<Currency> for BackingCurrency {
    open spec fn obeys_from_spec() -> bool {
        true
    }

    open spec fn from_spec(v: Currency) -> Self {
        currency_spec(v)
    }
}

/// The routing table. Each command stands for exactly one backing call,
/// its parameters taken verbatim from the command's own fields. The two
/// time-lookup commands share one operation and each fills exactly one of
/// its two locator slots; the two transaction-lookup names stay distinct
/// here yet land on the same call.
pub open spec fn route_spec(cmd: Commands) -> BackingCall {
    match cmd {
        Commands::GetTx { tx_id } => BackingCall::GetTransaction { txid: tx_id },
        Commands::GetBlock { block_hash } => BackingCall::GetBlock {
            hash: Some(block_hash),
            height: None,
        },
        Commands::GetMempool => BackingCall::GetMempool,
        Commands::BroadcastTransaction { tx_hex } => BackingCall::PostTransaction { tx_hex },
        Commands::Height2Time { height } => BackingCall::GetBlock2Time { hash: None, height },
        Commands::HashToTime { hash } => BackingCall::GetBlock2Time { hash, height: None },
        Commands::Fees => BackingCall::GetFeesRecommended,
        Commands::AddressDetails { address } => BackingCall::GetAddressDetails { address },
        Commands::MempoolBlocks => BackingCall::GetFeesMempoolBlocks,
        Commands::AddressTransactions { address } => BackingCall::GetAddressTransactions {
            address,
        },
        Commands::HashRate => BackingCall::GetHashrate,
        Commands::GetTransaction { tx_id } => BackingCall::GetTransaction { txid: tx_id },
        Commands::GetNodeInfo { pub_key } => BackingCall::GetNodeDetails { public_key: pub_key },
        Commands::LightningStats => BackingCall::GetStatistics,
        Commands::LightningTopNodes => BackingCall::GetTopNodes,
        Commands::Convert { currency, amount } => BackingCall::ConvertCurrency {
            currency: currency_spec(currency),
            value: amount,
        },
    }
}

/// Which backing service a call goes to.
pub open spec fn subsystem_spec(call: BackingCall) -> Subsystem {
    match call {
        BackingCall::GetNodeDetails { .. } => Subsystem::Lightning,
        BackingCall::GetStatistics => Subsystem::Lightning,
        BackingCall::GetTopNodes => Subsystem::Lightning,
        BackingCall::ConvertCurrency { .. } => Subsystem::Price,
        BackingCall::GetTransaction { .. } => Subsystem::Blockchain,
        BackingCall::GetBlock { .. } => Subsystem::Blockchain,
        BackingCall::GetMempool => Subsystem::Blockchain,
        BackingCall::PostTransaction { .. } => Subsystem::Blockchain,
        BackingCall::GetBlock2Time { .. } => Subsystem::Blockchain,
        BackingCall::GetFeesRecommended => Subsystem::Blockchain,
        BackingCall::GetAddressDetails { .. } => Subsystem::Blockchain,
        BackingCall::GetAddressTransactions { .. } => Subsystem::Blockchain,
        BackingCall::GetFeesMempoolBlocks => Subsystem::Blockchain,
        BackingCall::GetHashrate => Subsystem::Blockchain,
    }
}

/// Maps a command to the one backing call it denotes, per the routing
/// table, and performs nothing itself.
pub fn route(cmd: Commands) -> (r: BackingCall)
    ensures
        r == route_spec(cmd),
{
    match cmd {
        Commands::GetTx { tx_id } => BackingCall::GetTransaction { txid: tx_id },
        Commands::GetBlock { block_hash } => BackingCall::GetBlock {
            hash: Some(block_hash),
            height: None,
        },
        Commands::GetMempool => BackingCall::GetMempool,
        Commands::BroadcastTransaction { tx_hex } => BackingCall::PostTransaction { tx_hex },
        Commands::Height2Time { height } => BackingCall::GetBlock2Time { hash: None, height },
        Commands::HashToTime { hash } => BackingCall::GetBlock2Time { hash, height: None },
        Commands::Fees => BackingCall::GetFeesRecommended,
        Commands::AddressDetails { address } => BackingCall::GetAddressDetails { address },
        Commands::MempoolBlocks => BackingCall::GetFeesMempoolBlocks,
        Commands::AddressTransactions { address } => BackingCall::GetAddressTransactions {
            address,
        },
        Commands::HashRate => BackingCall::GetHashrate,
        Commands::GetTransaction { tx_id } => BackingCall::GetTransaction { txid: tx_id },
        Commands::GetNodeInfo { pub_key } => BackingCall::GetNodeDetails { public_key: pub_key },
        Commands::LightningStats => BackingCall::GetStatistics,
        Commands::LightningTopNodes => BackingCall::GetTopNodes,
        Commands::Convert { currency, amount } => BackingCall::ConvertCurrency {
            currency: BackingCurrency::from(currency),
            value: amount,
        },
    }
}

/// Names the backing service a call targets, so that the caller can hand
/// its outcome to the matching arm of the normalizer.
pub fn subsystem(call: &BackingCall) -> (r: Subsystem)
    ensures
        r == subsystem_spec(*call),
{
    match call {
        BackingCall::GetNodeDetails { .. } => Subsystem::Lightning,
        BackingCall::GetStatistics => Subsystem::Lightning,
        BackingCall::GetTopNodes => Subsystem::Lightning,
        BackingCall::ConvertCurrency { .. } => Subsystem::Price,
        BackingCall::GetTransaction { .. } => Subsystem::Blockchain,
        BackingCall::GetBlock { .. } => Subsystem::Blockchain,
        BackingCall::GetMempool => Subsystem::Blockchain,
        BackingCall::PostTransaction { .. } => Subsystem::Blockchain,
        BackingCall::GetBlock2Time { .. } => Subsystem::Blockchain,
        BackingCall::GetFeesRecommended => Subsystem::Blockchain,
        BackingCall::GetAddressDetails { .. } => Subsystem::Blockchain,
        BackingCall::GetAddressTransactions { .. } => Subsystem::Blockchain,
        BackingCall::GetFeesMempoolBlocks => Subsystem::Blockchain,
        BackingCall::GetHashrate => Subsystem::Blockchain,
    }
}

/// Law: the two transaction-lookup spellings are interchangeable — for any
/// id they route to the very same backing call.
pub proof fn lemma_get_tx_alias(tx_id: String)
    ensures
        route_spec(Commands::GetTx { tx_id }) == route_spec(Commands::GetTransaction { tx_id }),
{
}

/// Law: a time lookup that carries its locator routes to a block2time call
/// in which exactly one of the two locator slots is filled — never both,
/// never neither.
pub proof fn lemma_time_lookup_exclusive(cmd: Commands)
    requires
        (cmd matches Commands::HashToTime { hash } && hash is Some) || (
        cmd matches Commands::Height2Time { height } && height is Some),
    ensures
        route_spec(cmd) matches BackingCall::GetBlock2Time { hash, height } && (hash is Some
            <==> height is None),
{
}

/// Law: the currency mapping is injective — distinct units never collapse
/// onto one backing value. Together with `currency_spec` being a total
/// function of the unit, every unit has exactly one distinct image.
pub proof fn lemma_currency_map_injective(a: Currency, b: Currency)
    ensures
        currency_spec(a) == currency_spec(b) ==> a == b,
{
}

} // verus!
