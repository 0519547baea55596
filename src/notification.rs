//! Normalization of chain-specific matches into one notification record, and
//! the configuration of the database notifier that stores such records.
use crate::models::{MatchConditions, MatchConditionsView, Monitor, TriggerTypeConfig, optional_map_view, clone_optional_map};
use std::collections::HashMap;
use vstd::prelude::*;
use vstd::string::{StrSliceExecFns, StringExecFns};

verus! {

/// serde_json's JSON value, carried through as the decoded arguments of a match.
#[verifier::external_type_specification]
#[verifier::external_body]
pub struct ExJsonValue(serde_json::Value);

/// Relies on serde_json's derived `Clone` for `Value`: the copy is the same value.
pub assume_specification[ <serde_json::Value as Clone>::clone ](v: &serde_json::Value) -> (r:
    serde_json::Value)
    ensures
        r == *v,
;

/// An EVM transaction, as far as notifications need it.
#[derive(Debug)]
pub struct EVMTransaction {
    pub hash: [u8; 32],
    pub block_number: Option<u64>,
}

/// A match produced on an EVM chain.
#[derive(Debug)]
pub struct EVMMonitorMatch {
    pub monitor: Monitor,
    pub transaction: EVMTransaction,
    pub network_slug: String,
    pub matched_on: MatchConditions,
    pub matched_on_args: Option<serde_json::Value>,
}

/// A Stellar transaction, identified by its hash text.
#[derive(Debug)]
pub struct StellarTransaction {
    pub hash: String,
}

/// The Stellar ledger that holds a transaction.
#[derive(Debug)]
pub struct StellarLedger {
    pub sequence: u32,
}

/// A match produced on a Stellar network.
#[derive(Debug)]
pub struct StellarMonitorMatch {
    pub monitor: Monitor,
    pub transaction: StellarTransaction,
    pub ledger: StellarLedger,
    pub network_slug: String,
    pub matched_on: MatchConditions,
    pub matched_on_args: Option<serde_json::Value>,
}

/// A Midnight transaction, identified by its hash text.
#[derive(Debug)]
pub struct MidnightTransaction {
    pub hash: String,
}

/// A match produced on a Midnight network, which has no block height.
#[derive(Debug)]
pub struct MidnightMonitorMatch {
    pub monitor: Monitor,
    pub transaction: MidnightTransaction,
    pub network_slug: String,
    pub matched_on: MatchConditions,
    pub matched_on_args: Option<serde_json::Value>,
}

/// A match of one monitor on one transaction, in the shape of its ecosystem.
#[derive(Debug)]
pub enum MonitorMatch {
    EVM(Box<EVMMonitorMatch>),
    Stellar(Box<StellarMonitorMatch>),
    Midnight(Box<MidnightMonitorMatch>),
}

/// Errors of the database notification path.
#[derive(Debug, PartialEq, Eq)]
pub enum NotificationError {
    /// The trigger configuration does not describe this channel.
    ConfigError { message: String },
    /// Serializing or storing a record failed.
    ExecutionError { message: String, cause: Option<String> },
}

/// The lower-case hexadecimal digit of value `n`.
pub open spec fn hex_char(n: u8) -> char {
    "0123456789abcdef"@[n as int]
}

/// Two lower-case hexadecimal digits per byte, most significant first.
pub open spec fn hex_of(bytes: Seq<u8>) -> Seq<char>
    decreases bytes.len(),
{
    if bytes.len() == 0 {
        Seq::empty()
    } else {
        hex_of(bytes.drop_last()) + seq![hex_char(bytes.last() / 16), hex_char(bytes.last() % 16)]
    }
}

/// The text of an EVM transaction hash: `0x` and its full-width hexadecimal.
pub open spec fn evm_hash_text(hash: Seq<u8>) -> Seq<char> {
    "0x"@ + hex_of(hash)
}

fn hex_digit(n: u8) -> (r: &'static str)
    requires
        n < 16,
    ensures
        r@ == seq![hex_char(n)],
{
    let digits: &'static str = "0123456789abcdef";
    proof {
        reveal_strlit("0123456789abcdef");
    }
    let r = digits.substring_char(n as usize, n as usize + 1);
    assert(r@ =~= seq![hex_char(n)]);
    r
}

/// Renders an EVM transaction hash as `0x` and 64 lower-case hexadecimal digits.
pub fn format_evm_hash(hash: &[u8; 32]) -> (r: String)
    ensures
        r@ == evm_hash_text(hash@),
{
    let mut s = String::from_str("0x");
    let mut i: usize = 0;
    while i < 32
        invariant
            i <= 32,
            hash@.len() == 32,
            s@ == "0x"@ + hex_of(hash@.subrange(0, i as int)),
        decreases 32 - i,
    {
        let b = hash[i];
        s.append(hex_digit(b / 16));
        s.append(hex_digit(b % 16));
        assert(hash@.subrange(0, i + 1).drop_last() =~= hash@.subrange(0, i as int));
        assert(s@ =~= "0x"@ + hex_of(hash@.subrange(0, i + 1)));
        i = i + 1;
    }
    assert(hash@.subrange(0, 32) =~= hash@);
    s
}

/// A stored notification: the same fields whatever the ecosystem of the match.
#[derive(Clone, Debug)]
pub struct NotificationRecord {
    pub transaction_hash: String,
    pub block_number: Option<i64>,
    pub network: String,
    pub monitor_name: String,
    pub matched_conditions: MatchConditions,
    pub decoded_args: Option<serde_json::Value>,
}

/// The contents of a `NotificationRecord`.
pub struct NotificationRecordView {
    pub transaction_hash: Seq<char>,
    pub block_number: Option<i64>,
    pub network: Seq<char>,
    pub monitor_name: Seq<char>,
    pub matched_conditions: MatchConditionsView,
    pub decoded_args: Option<serde_json::Value>,
}

impl View for NotificationRecord {
    type V = NotificationRecordView;

    open spec fn view(&self) -> NotificationRecordView {
        NotificationRecordView {
            transaction_hash: self.transaction_hash@,
            block_number: self.block_number,
            network: self.network@,
            monitor_name: self.monitor_name@,
            matched_conditions: self.matched_conditions@,
            decoded_args: self.decoded_args,
        }
    }
}

/// The match can be stored: an EVM block number fits the signed 64-bit column.
pub open spec fn block_number_fits(m: MonitorMatch) -> bool {
    match m {
        MonitorMatch::EVM(e) => match e.transaction.block_number {
            Some(n) => n <= i64::MAX,
            None => true,
        },
        _ => true,
    }
}

/// The record that a match normalizes to.
pub open spec fn record_of(m: MonitorMatch) -> NotificationRecordView {
    match m {
        MonitorMatch::EVM(e) => NotificationRecordView {
            transaction_hash: evm_hash_text(e.transaction.hash@),
            block_number: match e.transaction.block_number {
                Some(n) => Some(n as i64),
                None => None,
            },
            network: e.network_slug@,
            monitor_name: e.monitor.name@,
            matched_conditions: e.matched_on@,
            decoded_args: e.matched_on_args,
        },
        MonitorMatch::Stellar(s) => NotificationRecordView {
            transaction_hash: s.transaction.hash@,
            block_number: Some(s.ledger.sequence as i64),
            network: s.network_slug@,
            monitor_name: s.monitor.name@,
            matched_conditions: s.matched_on@,
            decoded_args: s.matched_on_args,
        },
        MonitorMatch::Midnight(d) => NotificationRecordView {
            transaction_hash: d.transaction.hash@,
            block_number: None,
            network: d.network_slug@,
            monitor_name: d.monitor.name@,
            matched_conditions: d.matched_on@,
            decoded_args: d.matched_on_args,
        },
    }
}

impl NotificationRecord {
    /// Extracts the ecosystem-independent record of a match.
    pub fn from_monitor_match(monitor_match: &MonitorMatch) -> (r: Result<Self, NotificationError>)
        requires
            block_number_fits(*monitor_match),
        ensures
            r is Ok,
            r->Ok_0@ == record_of(*monitor_match),
    {
        match monitor_match {
            MonitorMatch::EVM(evm_match) => {
                let block_number = match evm_match.transaction.block_number {
                    Some(n) => Some(n as i64),
                    None => None,
                };
                Ok(
                    NotificationRecord {
                        transaction_hash: format_evm_hash(&evm_match.transaction.hash),
                        block_number,
                        network: evm_match.network_slug.clone(),
                        monitor_name: evm_match.monitor.name.clone(),
                        matched_conditions: evm_match.matched_on.clone(),
                        decoded_args: evm_match.matched_on_args.clone(),
                    },
                )
            },
            MonitorMatch::Stellar(stellar_match) => {
                Ok(
                    NotificationRecord {
                        transaction_hash: stellar_match.transaction.hash.clone(),
                        block_number: Some(stellar_match.ledger.sequence as i64),
                        network: stellar_match.network_slug.clone(),
                        monitor_name: stellar_match.monitor.name.clone(),
                        matched_conditions: stellar_match.matched_on.clone(),
                        decoded_args: stellar_match.matched_on_args.clone(),
                    },
                )
            },
            MonitorMatch::Midnight(midnight_match) => {
                Ok(
                    NotificationRecord {
                        transaction_hash: midnight_match.transaction.hash.clone(),
                        block_number: None,
                        network: midnight_match.network_slug.clone(),
                        monitor_name: midnight_match.monitor.name.clone(),
                        matched_conditions: midnight_match.matched_on.clone(),
                        decoded_args: midnight_match.matched_on_args.clone(),
                    },
                )
            },
        }
    }
}

/// Normalizing a match gives a record whose block number is present exactly
/// for the ecosystems with a block height, and whose transaction hash, network
/// slug and monitor name are filled in whenever the match's own are.
pub proof fn lemma_record_fields_populated(m: MonitorMatch)
    requires
        match m {
            MonitorMatch::EVM(e) => e.transaction.block_number is Some && e.network_slug@.len() > 0
                && e.monitor.name@.len() > 0,
            MonitorMatch::Stellar(s) => s.transaction.hash@.len() > 0 && s.network_slug@.len() > 0
                && s.monitor.name@.len() > 0,
            MonitorMatch::Midnight(d) => d.transaction.hash@.len() > 0 && d.network_slug@.len() > 0
                && d.monitor.name@.len() > 0,
        },
    ensures
        record_of(m).block_number is Some <==> !(m is Midnight),
        record_of(m).transaction_hash.len() > 0,
        record_of(m).network.len() > 0,
        record_of(m).monitor_name.len() > 0,
{
    reveal_strlit("0x");
}

/// Where and how a database notifier stores records.
#[derive(Clone, Debug)]
pub struct DatabaseConfig {
    /// Database connection string.
    pub connection_string: String,
    /// Table that receives the records.
    pub table_name: String,
    /// Extra fields stored with every record.
    pub additional_fields: Option<HashMap<String, String>>,
}

/// The statement that stores one record in `table`; the server sets `created_at`.
pub open spec fn insert_statement_for(table: Seq<char>) -> Seq<char> {
    "INSERT INTO "@ + table + " (transaction_hash, block_number, network, monitor_name, matched_conditions, decoded_args, variables, additional_fields, created_at) VALUES ($1, $2, $3, $4, $5, $6, $7, $8, NOW())"@
}

impl DatabaseConfig {
    /// Reads the database settings of a trigger; any other kind of trigger is
    /// a configuration error.
    pub fn from_trigger_config(config: &TriggerTypeConfig) -> (r: Result<Self, NotificationError>)
        ensures
            match *config {
                TriggerTypeConfig::Database { connection_string, table_name, additional_fields } => {
                    &&& r is Ok
                    &&& r->Ok_0.connection_string == connection_string
                    &&& r->Ok_0.table_name == table_name
                    &&& optional_map_view(r->Ok_0.additional_fields) == optional_map_view(
                        additional_fields,
                    )
                },
                _ => {
                    &&& r is Err
                    &&& r->Err_0 is ConfigError
                    &&& r->Err_0->ConfigError_message@ == "Invalid database configuration"@
                },
            },
    {
        match config {
            TriggerTypeConfig::Database { connection_string, table_name, additional_fields } => Ok(
                DatabaseConfig {
                    connection_string: connection_string.clone(),
                    table_name: table_name.clone(),
                    additional_fields: clone_optional_map(additional_fields),
                },
            ),
            _ => Err(
                NotificationError::ConfigError {
                    message: String::from_str("Invalid database configuration"),
                },
            ),
        }
    }

    /// The parameterized statement that inserts one record into the configured table.
    pub fn insert_statement(&self) -> (r: String)
        ensures
            r@ == insert_statement_for(self.table_name@),
    {
        let mut q = String::from_str("INSERT INTO ");
        q.append(self.table_name.as_str());
        q.append(
            " (transaction_hash, block_number, network, monitor_name, matched_conditions, decoded_args, variables, additional_fields, created_at) VALUES ($1, $2, $3, $4, $5, $6, $7, $8, NOW())",
        );
        q
    }
}

} // verus!
