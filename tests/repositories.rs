use monitor_config::models::{
    BlockChainType, EventCondition, FunctionCondition, MatchConditions, Monitor, Network,
    NotificationMessage, TransactionCondition, TransactionStatus, Trigger, TriggerTypeConfig,
};
use monitor_config::{
    DbMonitorRepository, DbNetworkRepository, DbTriggerRepository, EntityKind, EntityMap,
    MonitorRepository, MonitorRepositoryTrait, MonitorService, NetworkRepository,
    NetworkRepositoryTrait, NetworkService, PayloadRow, RepositoryError, TriggerRepository,
    TriggerRepositoryTrait, TriggerService,
};

fn network(slug: &str) -> Network {
    Network {
        slug: slug.to_string(),
        name: format!("{} network", slug),
        network_type: BlockChainType::EVM,
        rpc_urls: vec!["https://rpc.example".to_string()],
    }
}

fn trigger(name: &str) -> Trigger {
    Trigger {
        name: name.to_string(),
        config: TriggerTypeConfig::Slack {
            slack_url: "https://hooks.slack.com/test".to_string(),
            message: NotificationMessage { title: "Alert".to_string(), body: name.to_string() },
        },
    }
}

fn monitor(name: &str, networks: &[&str], triggers: &[&str]) -> Monitor {
    Monitor {
        name: name.to_string(),
        networks: networks.iter().map(|s| s.to_string()).collect(),
        triggers: triggers.iter().map(|s| s.to_string()).collect(),
        paused: false,
        match_conditions: MatchConditions {
            functions: vec![FunctionCondition {
                signature: "transfer(address,uint256)".to_string(),
                expression: None,
            }],
            events: vec![EventCondition {
                signature: "Transfer(address,address,uint256)".to_string(),
                expression: Some("value > 0".to_string()),
            }],
            transactions: vec![TransactionCondition {
                status: TransactionStatus::Success,
                expression: None,
            }],
        },
    }
}

fn row<E>(key: &str, entity: E) -> PayloadRow<E> {
    PayloadRow { key: key.to_string(), payload: Ok(entity) }
}

fn networks_of(slugs: &[&str]) -> EntityMap<Network> {
    let rows: Vec<PayloadRow<Network>> = slugs.iter().map(|s| row(s, network(s))).collect();
    DbNetworkRepository::from_rows(&rows).unwrap().get_all()
}

fn triggers_of(names: &[&str]) -> EntityMap<Trigger> {
    let rows: Vec<PayloadRow<Trigger>> = names.iter().map(|s| row(s, trigger(s))).collect();
    DbTriggerRepository::from_rows(&rows).unwrap().get_all()
}

fn same_type<A: ?Sized + 'static, B: ?Sized + 'static>() -> bool {
    std::any::TypeId::of::<A>() == std::any::TypeId::of::<B>()
}

#[test]
fn test_re_exports_exist() {
    assert!(same_type::<RepositoryError, monitor_config::error::RepositoryError>());
    assert!(same_type::<MonitorRepository, monitor_config::repositories::MonitorRepository>());
    assert!(same_type::<dyn MonitorRepositoryTrait, dyn monitor_config::repositories::MonitorRepositoryTrait>());
    assert!(same_type::<MonitorService, monitor_config::repositories::MonitorService>());
    assert!(same_type::<NetworkRepository, monitor_config::repositories::NetworkRepository>());
    assert!(same_type::<dyn NetworkRepositoryTrait, dyn monitor_config::repositories::NetworkRepositoryTrait>());
    assert!(same_type::<NetworkService, monitor_config::repositories::NetworkService>());
    assert!(same_type::<TriggerRepository, monitor_config::repositories::TriggerRepository>());
    assert!(same_type::<dyn TriggerRepositoryTrait, dyn monitor_config::repositories::TriggerRepositoryTrait>());
    assert!(same_type::<TriggerService, monitor_config::repositories::TriggerService>());
    assert!(same_type::<DbMonitorRepository, monitor_config::repositories::DbMonitorRepository>());
    assert!(same_type::<DbNetworkRepository, monitor_config::repositories::DbNetworkRepository>());
    assert!(same_type::<DbTriggerRepository, monitor_config::repositories::DbTriggerRepository>());
    assert!(!same_type::<MonitorRepository, DbMonitorRepository>());
    assert!(!same_type::<dyn NetworkRepositoryTrait, dyn TriggerRepositoryTrait>());
}

#[test]
fn test_load_all_empty_table() {
    let repo = DbMonitorRepository::from_rows(&Vec::new(), &EntityMap::new(), &EntityMap::new())
        .unwrap();
    assert!(repo.get_all().is_empty(), "Expected empty monitors map when table has no rows");
}

#[test]
fn empty_network_and_trigger_tables_load_empty() {
    let networks = DbNetworkRepository::from_rows(&Vec::new()).unwrap();
    let triggers = DbTriggerRepository::from_rows(&Vec::new()).unwrap();
    assert_eq!(networks.get_all().len(), 0);
    assert_eq!(triggers.get_all().len(), 0);
}

#[test]
fn test_get_and_get_all() {
    let rows = vec![row("m1", monitor("m1", &[], &[]))];
    let repo = DbMonitorRepository::from_rows(&rows, &EntityMap::new(), &EntityMap::new()).unwrap();

    let all = repo.get_all();
    assert_eq!(all.len(), 1);
    assert!(all.contains_key("m1"));

    let single = repo.get("m1");
    assert_eq!(single.unwrap().name, "m1");
    assert!(repo.get("does_not_exist").is_none());
}

#[test]
fn load_all_returns_inserted_trigger() {
    let t1 = trigger("t1");
    let repo = DbTriggerRepository::from_rows(&vec![row("t1", t1.clone())]).unwrap();
    let map = repo.get_all();
    assert_eq!(map.get("t1"), Some(t1));
}

#[test]
fn new_and_repository_getters_work() {
    let trigger1 = trigger("a");
    let trigger2 = trigger("b");
    let rows = vec![row("a", trigger1.clone()), row("b", trigger2.clone())];
    let repo = DbTriggerRepository::from_rows(&rows).unwrap();
    assert_eq!(repo.get("a"), Some(trigger1.clone()));
    assert_eq!(repo.get("b"), Some(trigger2.clone()));
    let all = repo.get_all();
    assert_eq!(all.len(), 2);
}

#[test]
fn later_row_with_same_key_replaces_earlier() {
    let rows = vec![row("x", trigger("first")), row("x", trigger("second"))];
    let repo = DbTriggerRepository::from_rows(&rows).unwrap();
    assert_eq!(repo.get_all().len(), 1);
    assert_eq!(repo.get("x"), Some(trigger("second")));
}

#[test]
fn undecodable_row_fails_whole_load() {
    let rows = vec![
        row("mainnet", network("mainnet")),
        PayloadRow { key: "broken".to_string(), payload: Err("expected value".to_string()) },
        PayloadRow { key: "later".to_string(), payload: Err("other".to_string()) },
    ];
    let err = DbNetworkRepository::from_rows(&rows).err().unwrap();
    assert_eq!(
        err,
        RepositoryError::ParseError {
            kind: EntityKind::Network,
            key: "broken".to_string(),
            reason: "expected value".to_string(),
        }
    );
    assert_eq!(err.message(), "Failed to parse network 'broken'");
}

#[test]
fn undecodable_monitor_row_is_reported_before_validation() {
    let rows = vec![
        row("m1", monitor("m1", &["absent"], &[])),
        PayloadRow { key: "m2".to_string(), payload: Err("bad json".to_string()) },
    ];
    let err = DbMonitorRepository::from_rows(&rows, &EntityMap::new(), &EntityMap::new())
        .err()
        .unwrap();
    assert!(matches!(err, RepositoryError::ParseError { kind: EntityKind::Monitor, .. }));
}

#[test]
fn monitor_with_missing_trigger_fails_validation() {
    let networks = networks_of(&["mainnet"]);
    let triggers = triggers_of(&[]);
    let rows = vec![row("m1", monitor("m1", &["mainnet"], &["alert1"]))];
    let err = DbMonitorRepository::from_rows(&rows, &networks, &triggers).err().unwrap();
    assert_eq!(
        err,
        RepositoryError::ValidationError {
            monitor: "m1".to_string(),
            reference_kind: EntityKind::Trigger,
            missing: "alert1".to_string(),
        }
    );
    assert_eq!(err.message(), "Monitor 'm1' references non-existent trigger 'alert1'");
}

#[test]
fn monitor_with_missing_network_fails_validation() {
    let networks = networks_of(&["mainnet"]);
    let triggers = triggers_of(&["alert1"]);
    let rows = vec![
        row("ok", monitor("ok", &["mainnet"], &["alert1"])),
        row("bad", monitor("bad", &["mainnet", "sepolia"], &["alert1"])),
    ];
    let err = DbMonitorRepository::from_rows(&rows, &networks, &triggers).err().unwrap();
    assert_eq!(
        err,
        RepositoryError::ValidationError {
            monitor: "bad".to_string(),
            reference_kind: EntityKind::Network,
            missing: "sepolia".to_string(),
        }
    );
}

#[test]
fn monitors_with_resolved_references_load() {
    let networks = networks_of(&["mainnet", "sepolia"]);
    let triggers = triggers_of(&["alert1", "alert2"]);
    let rows = vec![
        row("m1", monitor("m1", &["mainnet"], &["alert1"])),
        row("m2", monitor("m2", &["mainnet", "sepolia"], &["alert1", "alert2"])),
    ];
    let repo = MonitorRepository::from_rows(&rows, &networks, &triggers).unwrap();
    assert_eq!(repo.get_all().len(), 2);
    assert_eq!(repo.get("m2"), Some(monitor("m2", &["mainnet", "sepolia"], &["alert1", "alert2"])));
}

#[test]
fn validate_monitor_references_checks_every_monitor() {
    let networks = networks_of(&["mainnet"]);
    let triggers = triggers_of(&["alert1"]);
    let good = DbMonitorRepository::from_rows(
        &vec![row("m1", monitor("m1", &["mainnet"], &["alert1"]))],
        &networks,
        &triggers,
    )
    .unwrap()
    .get_all();
    assert!(MonitorRepository::validate_monitor_references(&good, &triggers, &networks).is_ok());
    let none = triggers_of(&[]);
    let err = MonitorRepository::validate_monitor_references(&good, &none, &networks).err().unwrap();
    assert!(matches!(err, RepositoryError::ValidationError { ref missing, .. } if missing == "alert1"));
}

#[test]
fn single_monitor_is_checked_against_loaded_entities() {
    let networks = networks_of(&["mainnet"]);
    let triggers = triggers_of(&["alert1"]);
    let m = monitor("solo", &["mainnet"], &["alert1"]);
    assert_eq!(DbMonitorRepository::load_from_path(m.clone(), &networks, &triggers), Ok(m));
    let dangling = monitor("solo", &["mainnet"], &["alert9"]);
    let err = DbMonitorRepository::load_from_path(dangling, &networks, &triggers).err().unwrap();
    assert_eq!(
        err,
        RepositoryError::ValidationError {
            monitor: "solo".to_string(),
            reference_kind: EntityKind::Trigger,
            missing: "alert9".to_string(),
        }
    );
}

#[test]
fn get_all_returns_an_independent_copy() {
    let repo = DbTriggerRepository::from_rows(&vec![row("a", trigger("a"))]).unwrap();
    let mut first = repo.get_all();
    first.insert("b".to_string(), trigger("b"));
    assert_eq!(first.len(), 2);
    let second = repo.get_all();
    assert_eq!(second.len(), 1);
    assert!(!second.contains_key("b"));
    assert!(repo.get("b").is_none());
}

#[test]
fn get_returns_equal_copy_or_none() {
    let repo = NetworkRepository::from_rows(&vec![row("mainnet", network("mainnet"))]).unwrap();
    assert_eq!(repo.get("mainnet"), Some(network("mainnet")));
    assert_eq!(repo.get("mainne"), None);
    assert_eq!(repo.get(""), None);
}

#[test]
fn services_reuse_a_repository_snapshot() {
    let repo = TriggerRepository::from_rows(&vec![row("a", trigger("a")), row("b", trigger("b"))])
        .unwrap();
    let service = TriggerService::new_with_repository(&repo);
    assert_eq!(service.get("a"), Some(trigger("a")));
    assert_eq!(service.get_all().len(), 2);

    let networks = DbNetworkRepository::from_rows(&vec![row("mainnet", network("mainnet"))]).unwrap();
    let network_service = NetworkService::new_with_repository(&networks);
    assert!(network_service.get_all().contains_key("mainnet"));

    let monitors = DbMonitorRepository::from_rows(
        &vec![row("m1", monitor("m1", &["mainnet"], &["a"]))],
        &network_service.get_all(),
        &service.get_all(),
    )
    .unwrap();
    let monitor_service = MonitorService::new_with_repository(&monitors);
    assert_eq!(monitor_service.get("m1"), Some(monitor("m1", &["mainnet"], &["a"])));
}

#[test]
fn connection_and_load_errors_describe_themselves() {
    let conn = RepositoryError::ConnectionError {
        target: "sqlite://monitor.db".to_string(),
        reason: "unable to open database file".to_string(),
    };
    assert_eq!(conn.message(), "Failed to connect to database sqlite://monitor.db");
    let load = RepositoryError::LoadError {
        message: "Failed to load monitors".to_string(),
        cause: None,
        context: None,
    };
    assert_eq!(load.message(), "Failed to load monitors");
}

#[test]
fn decoded_monitors_are_validated_before_the_store_exists() {
    let networks = networks_of(&["mainnet"]);
    let triggers = triggers_of(&[]);
    let rows = vec![row("m1", monitor("m1", &["mainnet"], &["alert1"]))];
    let decoded = monitor_config::entity_map::from_rows(EntityKind::Monitor, &rows).unwrap();
    let err = DbMonitorRepository::from_decoded(decoded, &networks, &triggers).err().unwrap();
    assert!(err.message().contains("alert1"));

    let ok_rows = vec![row("m2", monitor("m2", &["mainnet"], &[]))];
    let decoded = monitor_config::entity_map::from_rows(EntityKind::Monitor, &ok_rows).unwrap();
    let repo = DbMonitorRepository::from_decoded(decoded, &networks, &triggers).unwrap();
    assert_eq!(repo.get("m2"), Some(monitor("m2", &["mainnet"], &[])));
}
