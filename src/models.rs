//! Configuration entities: networks, triggers and monitors, with the
//! condition records that monitors carry.
use std::collections::HashMap;
use vstd::prelude::*;

verus! {

/// The family of chains a network belongs to.
#[derive(Clone, Copy, Debug, PartialEq, Eq, Structural)]
pub enum BlockChainType {
    EVM,
    Stellar,
    Midnight,
}

/// The outcome a transaction condition asks for.
#[derive(Clone, Copy, Debug, PartialEq, Eq, Structural)]
pub enum TransactionStatus {
    Any,
    Success,
    Failure,
}

/// A function call that a monitor watches for.
#[derive(Debug, PartialEq, Eq)]
pub struct FunctionCondition {
    pub signature: String,
    pub expression: Option<String>,
}

impl Clone for FunctionCondition {
    fn clone(&self) -> (r: Self)
        ensures
            r == *self,
    {
        FunctionCondition { signature: self.signature.clone(), expression: self.expression.clone() }
    }
}

/// An emitted event that a monitor watches for.
#[derive(Debug, PartialEq, Eq)]
pub struct EventCondition {
    pub signature: String,
    pub expression: Option<String>,
}

impl Clone for EventCondition {
    fn clone(&self) -> (r: Self)
        ensures
            r == *self,
    {
        EventCondition { signature: self.signature.clone(), expression: self.expression.clone() }
    }
}

/// A transaction outcome that a monitor watches for.
#[derive(Debug, PartialEq, Eq)]
pub struct TransactionCondition {
    pub status: TransactionStatus,
    pub expression: Option<String>,
}

impl Clone for TransactionCondition {
    fn clone(&self) -> (r: Self)
        ensures
            r == *self,
    {
        TransactionCondition { status: self.status, expression: self.expression.clone() }
    }
}

/// The conditions of a monitor, or the subset of them that a match satisfied.
#[derive(Debug, PartialEq, Eq)]
pub struct MatchConditions {
    pub functions: Vec<FunctionCondition>,
    pub events: Vec<EventCondition>,
    pub transactions: Vec<TransactionCondition>,
}

/// The conditions of a `MatchConditions`, as sequences.
pub struct MatchConditionsView {
    pub functions: Seq<FunctionCondition>,
    pub events: Seq<EventCondition>,
    pub transactions: Seq<TransactionCondition>,
}

impl View for MatchConditions {
    type V = MatchConditionsView;

    open spec fn view(&self) -> MatchConditionsView {
        MatchConditionsView {
            functions: self.functions@,
            events: self.events@,
            transactions: self.transactions@,
        }
    }
}

impl Clone for MatchConditions {
    fn clone(&self) -> (r: Self)
        ensures
            r@ == self@,
    {
        let functions = self.functions.clone();
        let events = self.events.clone();
        let transactions = self.transactions.clone();
        assert(functions@ =~= self.functions@);
        assert(events@ =~= self.events@);
        assert(transactions@ =~= self.transactions@);
        MatchConditions { functions, events, transactions }
    }
}

/// A chain that monitors can watch, identified by its slug.
#[derive(Debug, PartialEq, Eq)]
pub struct Network {
    pub slug: String,
    pub name: String,
    pub network_type: BlockChainType,
    pub rpc_urls: Vec<String>,
}

/// The contents of a `Network`.
pub struct NetworkView {
    pub slug: Seq<char>,
    pub name: Seq<char>,
    pub network_type: BlockChainType,
    pub rpc_urls: Seq<String>,
}

impl View for Network {
    type V = NetworkView;

    open spec fn view(&self) -> NetworkView {
        NetworkView {
            slug: self.slug@,
            name: self.name@,
            network_type: self.network_type,
            rpc_urls: self.rpc_urls@,
        }
    }
}

impl Clone for Network {
    fn clone(&self) -> (r: Self)
        ensures
            r@ == self@,
    {
        let rpc_urls = self.rpc_urls.clone();
        assert(rpc_urls@ =~= self.rpc_urls@);
        Network {
            slug: self.slug.clone(),
            name: self.name.clone(),
            network_type: self.network_type,
            rpc_urls,
        }
    }
}

/// The text of a notification sent over a messaging channel.
#[derive(Debug, PartialEq, Eq)]
pub struct NotificationMessage {
    pub title: String,
    pub body: String,
}

impl Clone for NotificationMessage {
    fn clone(&self) -> (r: Self)
        ensures
            r == *self,
    {
        NotificationMessage { title: self.title.clone(), body: self.body.clone() }
    }
}

/// The action that a trigger performs, with its channel parameters.
#[derive(Debug, PartialEq, Eq)]
pub enum TriggerTypeConfig {
    Slack { slack_url: String, message: NotificationMessage },
    Webhook { url: String, method: Option<String>, message: NotificationMessage },
    Database {
        connection_string: String,
        table_name: String,
        additional_fields: Option<HashMap<String, String>>,
    },
}

/// A trigger configuration with its extra fields seen as a map.
pub enum TriggerTypeConfigView {
    Slack { slack_url: String, message: NotificationMessage },
    Webhook { url: String, method: Option<String>, message: NotificationMessage },
    Database {
        connection_string: String,
        table_name: String,
        additional_fields: Option<Map<String, String>>,
    },
}

/// The contents of an optional string map.
pub open spec fn optional_map_view(m: Option<HashMap<String, String>>) -> Option<
    Map<String, String>,
> {
    match m {
        Some(f) => Some(f@),
        None => None,
    }
}

impl View for TriggerTypeConfig {
    type V = TriggerTypeConfigView;

    open spec fn view(&self) -> TriggerTypeConfigView {
        match *self {
            TriggerTypeConfig::Slack { slack_url, message } => TriggerTypeConfigView::Slack {
                slack_url,
                message,
            },
            TriggerTypeConfig::Webhook { url, method, message } => TriggerTypeConfigView::Webhook {
                url,
                method,
                message,
            },
            TriggerTypeConfig::Database { connection_string, table_name, additional_fields } =>
                TriggerTypeConfigView::Database {
                connection_string,
                table_name,
                additional_fields: optional_map_view(additional_fields),
            },
        }
    }
}

/// Copies an optional string map, keeping its contents.
pub fn clone_optional_map(m: &Option<HashMap<String, String>>) -> (r: Option<HashMap<String, String>>)
    ensures
        optional_map_view(r) == optional_map_view(*m),
{
    match m {
        Some(f) => Some(f.clone()),
        None => None,
    }
}

impl Clone for TriggerTypeConfig {
    fn clone(&self) -> (r: Self)
        ensures
            r@ == self@,
    {
        match self {
            TriggerTypeConfig::Slack { slack_url, message } => TriggerTypeConfig::Slack {
                slack_url: slack_url.clone(),
                message: message.clone(),
            },
            TriggerTypeConfig::Webhook { url, method, message } => TriggerTypeConfig::Webhook {
                url: url.clone(),
                method: method.clone(),
                message: message.clone(),
            },
            TriggerTypeConfig::Database { connection_string, table_name, additional_fields } =>
                TriggerTypeConfig::Database {
                connection_string: connection_string.clone(),
                table_name: table_name.clone(),
                additional_fields: clone_optional_map(additional_fields),
            },
        }
    }
}

/// An action that monitors fire, identified by its name.
#[derive(Debug, PartialEq, Eq)]
pub struct Trigger {
    pub name: String,
    pub config: TriggerTypeConfig,
}

/// The contents of a `Trigger`.
pub struct TriggerView {
    pub name: Seq<char>,
    pub config: TriggerTypeConfigView,
}

impl View for Trigger {
    type V = TriggerView;

    open spec fn view(&self) -> TriggerView {
        TriggerView { name: self.name@, config: self.config@ }
    }
}

impl Clone for Trigger {
    fn clone(&self) -> (r: Self)
        ensures
            r@ == self@,
    {
        Trigger { name: self.name.clone(), config: self.config.clone() }
    }
}

/// What a monitor watches: the networks it runs on, the triggers it fires,
/// and the conditions that make a match.
#[derive(Debug, PartialEq, Eq)]
pub struct Monitor {
    pub name: String,
    pub networks: Vec<String>,
    pub triggers: Vec<String>,
    pub paused: bool,
    pub match_conditions: MatchConditions,
}

/// The contents of a `Monitor`.
pub struct MonitorView {
    pub name: Seq<char>,
    pub networks: Seq<String>,
    pub triggers: Seq<String>,
    pub paused: bool,
    pub match_conditions: MatchConditionsView,
}

impl View for Monitor {
    type V = MonitorView;

    open spec fn view(&self) -> MonitorView {
        MonitorView {
            name: self.name@,
            networks: self.networks@,
            triggers: self.triggers@,
            paused: self.paused,
            match_conditions: self.match_conditions@,
        }
    }
}

impl Clone for Monitor {
    fn clone(&self) -> (r: Self)
        ensures
            r@ == self@,
    {
        let networks = self.networks.clone();
        let triggers = self.triggers.clone();
        assert(networks@ =~= self.networks@);
        assert(triggers@ =~= self.triggers@);
        Monitor {
            name: self.name.clone(),
            networks,
            triggers,
            paused: self.paused,
            match_conditions: self.match_conditions.clone(),
        }
    }
}

} // verus!
