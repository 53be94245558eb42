//! The command model: the closed set of operations a user can ask for.

use vstd::prelude::*;

verus! {

/// A fully parsed invocation: exactly one command per run.
#[derive(Clone, Debug, PartialEq, Eq)]
pub struct MurrayCli {
    pub command: Commands,
}

/// The currency units a conversion can be asked in.
#[derive(Clone, Copy, Debug, PartialEq, Eq)]
pub enum Currency {
    BTC,
    SAT,
    USD,
    BRL,
}

impl Default for Currency {
    /// The unit assumed when none is given.
    fn default() -> (r: Self)
        ensures
            r == Currency::BTC,
    {
        Currency::BTC
    }
}

/// One variant per supported operation. Every parameter is carried as a
/// plain typed value; an optional parameter is an explicit `Option`, never
/// a sentinel. `GetTx` and `GetTransaction` are two historical names for
/// the same operation and are both kept.
#[derive(Clone, Debug, PartialEq, Eq)]
pub enum Commands {
    /// Returns the data associated with a given transaction
    GetTx { tx_id: String },
    /// Returns the data associated with a bitcoin block
    GetBlock { block_hash: String },
    /// Some useful data about the mempool
    GetMempool,
    /// Submits a transaction to the bitcoin network
    BroadcastTransaction { tx_hex: String },
    /// Returns the time in which a block was mined or will be mined
    Height2Time { height: Option<u32> },
    /// Returns the time a block was mined
    HashToTime { hash: Option<String> },
    /// Returns the fee recommendation for the next blocks
    Fees,
    /// Get some general information about an address
    AddressDetails { address: String },
    /// Get current mempool as projected blocks
    MempoolBlocks,
    /// Returns the transactions associated with an address
    AddressTransactions { address: String },
    /// Returns the current hashrate
    HashRate,
    /// Returns a transaction, given its id
    GetTransaction { tx_id: String },
    /// Returns useful information about a lightning node
    GetNodeInfo { pub_key: String },
    /// Get general stats about the lightning network
    LightningStats,
    /// Get the top lightning nodes
    LightningTopNodes,
    /// Converts values between different currencies
    Convert { currency: Currency, amount: i64 },
}

} // verus!
