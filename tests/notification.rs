use monitor_config::models::{
    MatchConditions, Monitor, NotificationMessage, TriggerTypeConfig,
};
use monitor_config::notification::{
    format_evm_hash, EVMMonitorMatch, EVMTransaction, MidnightMonitorMatch, MidnightTransaction,
    StellarLedger, StellarMonitorMatch, StellarTransaction,
};
use monitor_config::{DatabaseConfig, MonitorMatch, NotificationError, NotificationRecord};
use std::collections::HashMap;

fn empty_conditions() -> MatchConditions {
    MatchConditions { functions: vec![], events: vec![], transactions: vec![] }
}

fn test_monitor() -> Monitor {
    Monitor {
        name: "test".to_string(),
        networks: vec!["evm_mainnet".to_string()],
        triggers: vec![],
        paused: false,
        match_conditions: empty_conditions(),
    }
}

fn hash_with_last_byte(b: u8) -> [u8; 32] {
    let mut h = [0u8; 32];
    h[31] = b;
    h
}

fn create_mock_monitor_match() -> MonitorMatch {
    MonitorMatch::EVM(Box::new(EVMMonitorMatch {
        monitor: test_monitor(),
        transaction: EVMTransaction { hash: hash_with_last_byte(1), block_number: Some(12345) },
        network_slug: "evm_mainnet".to_string(),
        matched_on: empty_conditions(),
        matched_on_args: None,
    }))
}

#[test]
fn test_notification_record_from_evm_match() {
    let monitor_match = create_mock_monitor_match();
    let record = NotificationRecord::from_monitor_match(&monitor_match).unwrap();

    assert_eq!(record.monitor_name, "test");
    assert_eq!(record.network, "evm_mainnet");
    assert!(record.transaction_hash.starts_with("0x"));
    assert_eq!(record.block_number, Some(12345));
    assert!(record.decoded_args.is_none());
}

#[test]
fn evm_hash_is_full_width_lower_hex() {
    let record = NotificationRecord::from_monitor_match(&create_mock_monitor_match()).unwrap();
    assert_eq!(
        record.transaction_hash,
        "0x0000000000000000000000000000000000000000000000000000000000000001"
    );
    let mut h = [0u8; 32];
    h[0] = 0xab;
    h[1] = 0x5f;
    h[31] = 0xff;
    let text = format_evm_hash(&h);
    assert_eq!(text.len(), 66);
    assert!(text.starts_with("0xab5f00"));
    assert!(text.ends_with("00ff"));
}

#[test]
fn evm_match_without_block_has_no_block_number() {
    let m = MonitorMatch::EVM(Box::new(EVMMonitorMatch {
        monitor: test_monitor(),
        transaction: EVMTransaction { hash: hash_with_last_byte(2), block_number: None },
        network_slug: "evm_mainnet".to_string(),
        matched_on: empty_conditions(),
        matched_on_args: Some(serde_json::Value::String("arg".to_string())),
    }));
    let record = NotificationRecord::from_monitor_match(&m).unwrap();
    assert_eq!(record.block_number, None);
    assert_eq!(record.decoded_args, Some(serde_json::Value::String("arg".to_string())));
}

#[test]
fn stellar_match_takes_ledger_sequence() {
    let m = MonitorMatch::Stellar(Box::new(StellarMonitorMatch {
        monitor: test_monitor(),
        transaction: StellarTransaction { hash: "3389e9f0f1a65f19736cacf544c2e825".to_string() },
        ledger: StellarLedger { sequence: 4_000_000_000 },
        network_slug: "stellar_mainnet".to_string(),
        matched_on: empty_conditions(),
        matched_on_args: Some(serde_json::Value::Bool(true)),
    }));
    let record = NotificationRecord::from_monitor_match(&m).unwrap();
    assert_eq!(record.transaction_hash, "3389e9f0f1a65f19736cacf544c2e825");
    assert_eq!(record.block_number, Some(4_000_000_000));
    assert_eq!(record.network, "stellar_mainnet");
    assert_eq!(record.monitor_name, "test");
    assert_eq!(record.decoded_args, Some(serde_json::Value::Bool(true)));
}

#[test]
fn midnight_match_has_no_block_number() {
    let m = MonitorMatch::Midnight(Box::new(MidnightMonitorMatch {
        monitor: test_monitor(),
        transaction: MidnightTransaction { hash: "midnight-tx-1".to_string() },
        network_slug: "midnight_testnet".to_string(),
        matched_on: empty_conditions(),
        matched_on_args: None,
    }));
    let record = NotificationRecord::from_monitor_match(&m).unwrap();
    assert_eq!(record.transaction_hash, "midnight-tx-1");
    assert_eq!(record.block_number, None);
    assert_eq!(record.network, "midnight_testnet");
    assert_eq!(record.monitor_name, "test");
}

#[test]
fn test_database_config_from_trigger() {
    let config = TriggerTypeConfig::Database {
        connection_string: "postgres://localhost/test".to_string(),
        table_name: "notifications".to_string(),
        additional_fields: None,
    };

    let db_config = DatabaseConfig::from_trigger_config(&config).unwrap();
    assert_eq!(db_config.table_name, "notifications");
    assert!(db_config.additional_fields.is_none());
}

#[test]
fn database_config_keeps_connection_and_fields() {
    let mut fields = HashMap::new();
    fields.insert("env".to_string(), "prod".to_string());
    let config = TriggerTypeConfig::Database {
        connection_string: "postgres://localhost/test".to_string(),
        table_name: "notifications".to_string(),
        additional_fields: Some(fields.clone()),
    };
    let db_config = DatabaseConfig::from_trigger_config(&config).unwrap();
    assert_eq!(db_config.connection_string, "postgres://localhost/test");
    assert_eq!(db_config.additional_fields, Some(fields));
}

#[test]
fn test_database_config_from_invalid_trigger() {
    let config = TriggerTypeConfig::Slack {
        slack_url: "https://hooks.slack.com/test".to_string(),
        message: NotificationMessage { title: "Test".to_string(), body: "Test".to_string() },
    };

    let result = DatabaseConfig::from_trigger_config(&config);
    assert!(result.is_err());
    assert_eq!(
        result.err(),
        Some(NotificationError::ConfigError { message: "Invalid database configuration".to_string() })
    );
}

#[test]
fn insert_statement_names_configured_table() {
    let config = TriggerTypeConfig::Database {
        connection_string: "postgres://localhost/test".to_string(),
        table_name: "notifications".to_string(),
        additional_fields: None,
    };
    let db_config = DatabaseConfig::from_trigger_config(&config).unwrap();
    assert_eq!(
        db_config.insert_statement(),
        "INSERT INTO notifications (transaction_hash, block_number, network, monitor_name, matched_conditions, decoded_args, variables, additional_fields, created_at) VALUES ($1, $2, $3, $4, $5, $6, $7, $8, NOW())"
    );
}
