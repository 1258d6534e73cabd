use bigtable_plugin::accountsdb_plugin_bigtable::{
    AccountsDbPluginBigtable, AccountsDbPluginBigtableConfig, AccountsDbPluginBigtableError,
    AccountsDbPluginError, EventKind,
};
use bigtable_plugin::json::{Json, MAX_DEPTH};
use bigtable_plugin::client::{
    route, AccountEvent, BlockEvent, RetryStep, SlotStatus, TransactionEvent, Write, WriteFailure,
};

fn config(threads: usize, batch_size: usize, fatal: bool) -> AccountsDbPluginBigtableConfig {
    AccountsDbPluginBigtableConfig {
        credential_path: None,
        timeout: None,
        threads: Some(threads),
        batch_size: Some(batch_size),
        panic_on_db_errors: Some(fatal),
        store_account_historical_data: None,
        index_token_owner: None,
        index_token_mint: None,
        max_retries: None,
        retry_delay_ms: None,
    }
}

fn account(pubkey: &str, is_startup: bool) -> AccountEvent {
    AccountEvent {
        pubkey: pubkey.to_string(),
        owner: "O".to_string(),
        slot: 5,
        payload: vec![1, 2, 3],
        is_startup,
    }
}

fn loaded(contents: &str, cfg: AccountsDbPluginBigtableConfig) -> AccountsDbPluginBigtable {
    let mut p = AccountsDbPluginBigtable::new();
    assert!(p.on_load(contents, Ok(cfg)).is_ok());
    p
}

const ALL_ACCOUNTS: &str = "{\"accounts_selector\":{\"accounts\":[\"*\"]}}";

fn account_keys(w: &Write) -> (usize, Vec<String>) {
    match w {
        Write::Accounts { worker, events } => {
            (*worker, events.iter().map(|e| e.pubkey.clone()).collect())
        }
        _ => panic!("not an account write"),
    }
}

#[test]
fn startup_batch_of_three() {
    let mut p = loaded(ALL_ACCOUNTS, config(1, 3, false));
    assert!(p.update_account(account("a", true)).unwrap().is_empty());
    assert!(p.update_account(account("b", true)).unwrap().is_empty());
    assert!(p.update_account(account("c", true)).unwrap().is_empty());
    let writes = p.update_account(account("d", true)).unwrap();
    assert_eq!(writes.len(), 1);
    assert_eq!(account_keys(&writes[0]), (0, vec!["a".to_string(), "b".to_string(), "c".to_string()]));
    let rest = p.notify_end_of_startup().unwrap();
    assert_eq!(rest.len(), 1);
    assert_eq!(account_keys(&rest[0]), (0, vec!["d".to_string()]));
}

#[test]
fn end_of_startup_flushes_every_worker() {
    let mut p = loaded(ALL_ACCOUNTS, config(4, 10, false));
    let keys = ["k1", "k2", "k3", "k4", "k5", "k6"];
    for k in keys.iter() {
        assert!(p.update_account(account(k, true)).unwrap().is_empty());
    }
    let writes = p.notify_end_of_startup().unwrap();
    let mut flushed: Vec<String> = Vec::new();
    let mut last_worker: Option<usize> = None;
    for w in writes.iter() {
        let (worker, ks) = account_keys(w);
        assert!(!ks.is_empty());
        assert!(last_worker.map_or(true, |l| l < worker));
        for k in ks.iter() {
            assert_eq!(route(k, 4), worker);
        }
        last_worker = Some(worker);
        flushed.extend(ks);
    }
    flushed.sort();
    assert_eq!(flushed, keys.iter().map(|k| k.to_string()).collect::<Vec<_>>());
    assert!(p.notify_end_of_startup().unwrap().is_empty());
}

#[test]
fn update_outside_startup_is_written_after_buffered_ones() {
    let mut p = loaded(ALL_ACCOUNTS, config(1, 10, false));
    assert!(p.update_account(account("a", true)).unwrap().is_empty());
    let writes = p.update_account(account("b", false)).unwrap();
    assert_eq!(writes.len(), 2);
    assert_eq!(account_keys(&writes[0]), (0, vec!["a".to_string()]));
    assert_eq!(account_keys(&writes[1]), (0, vec!["b".to_string()]));
    let writes = p.update_account(account("c", false)).unwrap();
    assert_eq!(writes.len(), 1);
}

#[test]
fn slot_statuses_keep_their_order() {
    let mut p = loaded(ALL_ACCOUNTS, config(2, 10, false));
    let mut seen: Vec<u64> = Vec::new();
    for (slot, status) in [(1u64, SlotStatus::Processed), (2, SlotStatus::Confirmed), (3, SlotStatus::Rooted)] {
        let writes = p.update_slot_status(slot, Some(slot - 1), status).unwrap();
        assert_eq!(writes.len(), 1);
        match &writes[0] {
            Write::Slot(e) => {
                assert_eq!(e.status, status);
                assert_eq!(e.parent, Some(slot - 1));
                seen.push(e.slot);
            }
            _ => panic!("not a slot write"),
        }
    }
    assert_eq!(seen, vec![1, 2, 3]);
}

#[test]
fn wildcard_accounts_without_transaction_selector() {
    let mut p = loaded(ALL_ACCOUNTS, config(2, 10, false));
    assert!(p.account_data_notifications_enabled());
    assert!(!p.transaction_notifications_enabled());
    let writes = p.update_account(account("anything", false)).unwrap();
    assert_eq!(writes.len(), 1);
    let tx = TransactionEvent { is_vote: false, mentions: vec!["A".to_string()], slot: 1, payload: vec![] };
    assert!(p.notify_transaction(tx).unwrap().is_empty());
}

#[test]
fn absent_accounts_section_forwards_nothing() {
    let mut p = loaded("{\"transaction_selector\":{\"mentions\":[\"*\"]}}", config(2, 10, false));
    assert!(!p.account_data_notifications_enabled());
    assert!(p.transaction_notifications_enabled());
    assert!(p.update_account(account("a", false)).unwrap().is_empty());
    assert!(p.update_account(account("a", true)).unwrap().is_empty());
    assert!(p.notify_end_of_startup().unwrap().is_empty());
    let tx = TransactionEvent { is_vote: true, mentions: vec![], slot: 1, payload: vec![7] };
    let writes = p.notify_transaction(tx).unwrap();
    assert!(matches!(&writes[..], [Write::Transaction(t)] if t.payload == vec![7]));
}

#[test]
fn fatal_policy_escalates_a_failed_write() {
    let mut p = loaded(ALL_ACCOUNTS, config(2, 10, true));
    assert_eq!(p.update_account(account("a", false)).unwrap().len(), 1);
    let failure = WriteFailure::Permanent { msg: "schema".to_string() };
    assert!(matches!(p.after_failure(0, failure), RetryStep::Surface(WriteFailure::Permanent { .. })));
    let e = p.write_failed(EventKind::Account, WriteFailure::Permanent { msg: "schema".to_string() });
    match e {
        AccountsDbPluginError::FatalBackendCondition { failure: WriteFailure::Permanent { msg } } => {
            assert_eq!(msg, "schema")
        }
        other => panic!("unexpected {:?}", other),
    }
}

#[test]
fn non_fatal_policy_reports_and_continues() {
    let mut p = loaded(ALL_ACCOUNTS, config(2, 10, false));
    assert_eq!(p.update_account(account("a", false)).unwrap().len(), 1);
    let e = p.write_failed(EventKind::Account, WriteFailure::Permanent { msg: "schema".to_string() });
    match e {
        AccountsDbPluginError::AccountsUpdateError { failure: WriteFailure::Permanent { msg } } => {
            assert_eq!(msg, "schema")
        }
        other => panic!("unexpected {:?}", other),
    }
    assert_eq!(p.update_account(account("b", false)).unwrap().len(), 1);
}

#[test]
fn failures_are_reported_by_event_kind() {
    let p = loaded(ALL_ACCOUNTS, config(2, 10, false));
    let f = || WriteFailure::Transient { msg: "t".to_string() };
    assert!(matches!(p.write_failed(EventKind::SlotStatus, f()), AccountsDbPluginError::SlotStatusUpdateError { .. }));
    assert!(matches!(p.write_failed(EventKind::Transaction, f()), AccountsDbPluginError::TransactionUpdateError { .. }));
    assert!(matches!(p.write_failed(EventKind::BlockMetadata, f()), AccountsDbPluginError::BlockMetadataUpdateError { .. }));
}

#[test]
fn transient_failures_retry_with_growing_pause() {
    let p = loaded(ALL_ACCOUNTS, config(2, 10, false));
    let t = || WriteFailure::Transient { msg: "timeout".to_string() };
    assert!(matches!(p.after_failure(0, t()), RetryStep::Retry { delay_ms: 100 }));
    assert!(matches!(p.after_failure(1, t()), RetryStep::Retry { delay_ms: 200 }));
    assert!(matches!(p.after_failure(2, t()), RetryStep::Retry { delay_ms: 300 }));
    assert!(matches!(p.after_failure(3, t()), RetryStep::Surface(WriteFailure::Transient { .. })));
}

#[test]
fn configured_retries() {
    let mut cfg = config(1, 1, false);
    cfg.max_retries = Some(1);
    cfg.retry_delay_ms = Some(7);
    let p = loaded(ALL_ACCOUNTS, cfg);
    let t = || WriteFailure::Transient { msg: "timeout".to_string() };
    assert!(matches!(p.after_failure(0, t()), RetryStep::Retry { delay_ms: 7 }));
    assert!(matches!(p.after_failure(1, t()), RetryStep::Surface(_)));
}

#[test]
fn zero_threads_is_a_configuration_error() {
    let mut p = AccountsDbPluginBigtable::new();
    let r = p.on_load(ALL_ACCOUNTS, Ok(config(0, 10, false)));
    assert!(matches!(r, Err(AccountsDbPluginError::Custom(AccountsDbPluginBigtableError::ConfigurationError { .. }))));
    let r = p.update_slot_status(1, None, SlotStatus::Rooted);
    assert!(matches!(r, Err(AccountsDbPluginError::Custom(AccountsDbPluginBigtableError::DataStoreConnectionError { .. }))));
}

#[test]
fn zero_batch_size_is_a_configuration_error() {
    let mut p = AccountsDbPluginBigtable::new();
    let r = p.on_load(ALL_ACCOUNTS, Ok(config(1, 0, false)));
    assert!(matches!(r, Err(AccountsDbPluginError::Custom(AccountsDbPluginBigtableError::ConfigurationError { .. }))));
}

#[test]
fn unreadable_configuration() {
    let mut p = AccountsDbPluginBigtable::new();
    let r = p.on_load("not json", Ok(config(1, 1, false)));
    assert!(matches!(r, Err(AccountsDbPluginError::ConfigFileReadError { .. })));
    let r = p.on_load(ALL_ACCOUNTS, Err("missing field".to_string()));
    assert!(matches!(r, Err(AccountsDbPluginError::ConfigFileReadError { .. })));
    assert!(p.account_data_notifications_enabled());
}

#[test]
fn defaults_apply_when_absent() {
    let mut cfg = config(1, 1, false);
    cfg.threads = None;
    cfg.batch_size = None;
    cfg.panic_on_db_errors = None;
    let s = cfg.client_settings().unwrap();
    assert_eq!((s.threads, s.batch_size, s.max_retries, s.retry_delay_ms), (10, 10, 3, 100));
    assert!(!cfg.fatal_on_error());
}

#[test]
fn no_connection_before_load_and_after_unload() {
    let mut p = AccountsDbPluginBigtable::new();
    assert_eq!(p.name(), "AccountsDbPluginBigtable");
    assert!(!p.account_data_notifications_enabled());
    assert!(matches!(p.notify_end_of_startup(), Err(AccountsDbPluginError::Custom(AccountsDbPluginBigtableError::DataStoreConnectionError { .. }))));
    let block = BlockEvent { slot: 3, payload: vec![] };
    assert!(matches!(p.notify_block_metadata(block), Err(AccountsDbPluginError::Custom(_))));
    assert!(p.on_unload().is_empty());

    let mut p = loaded(ALL_ACCOUNTS, config(1, 10, false));
    assert!(p.update_account(account("a", true)).unwrap().is_empty());
    let drained = p.on_unload();
    assert_eq!(drained.len(), 1);
    assert_eq!(account_keys(&drained[0]), (0, vec!["a".to_string()]));
    assert!(p.on_unload().is_empty());
    assert!(matches!(p.update_account(account("b", false)), Err(AccountsDbPluginError::Custom(AccountsDbPluginBigtableError::DataStoreConnectionError { .. }))));
    let block = BlockEvent { slot: 3, payload: vec![] };
    assert!(matches!(p.notify_block_metadata(block), Err(AccountsDbPluginError::Custom(_))));
}

#[test]
fn block_metadata_is_written() {
    let p = loaded(ALL_ACCOUNTS, config(1, 10, false));
    let writes = p.notify_block_metadata(BlockEvent { slot: 9, payload: vec![4] }).unwrap();
    assert!(matches!(&writes[..], [Write::Block(b)] if b.slot == 9));
}

#[test]
fn routing_is_a_fixed_hash() {
    assert_eq!(route(&"abc".to_string(), 7), 6);
    assert_eq!(route(&"abc".to_string(), 7), route(&"abc".to_string(), 7));
    assert_eq!(route(&"".to_string(), 5), 0);
    assert_eq!(route(&"anything".to_string(), 1), 0);
}

#[test]
fn selectors_come_from_the_configuration_sections() {
    let mut p = loaded(
        "{\"accounts_selector\":{\"owners\":[\"O\"], \"accounts\": 3},\"transaction_selector\":{\"mentions\":[\"all_votes\", 5]}}",
        config(1, 10, false),
    );
    assert!(p.account_data_notifications_enabled());
    assert_eq!(p.update_account(account("Z", false)).unwrap().len(), 1);
    assert!(!p.transaction_notifications_enabled());
    let vote = TransactionEvent { is_vote: true, mentions: vec![], slot: 1, payload: vec![] };
    assert!(p.notify_transaction(vote).unwrap().is_empty());
}

#[test]
fn missing_sections_give_disabled_selectors() {
    let a = AccountsDbPluginBigtable::accounts_selector_from_section(None);
    assert!(!a.is_enabled());
    let t = AccountsDbPluginBigtable::transaction_selector_from_section(None);
    assert!(!t.is_enabled());
    let v: serde_json::Value = serde_json::from_str("{\"accounts\":[\"A\"],\"owners\":[\"O\", \"P\"]}").unwrap();
    let a = AccountsDbPluginBigtable::accounts_selector_from_section(Some(&Json::from_value(&v, MAX_DEPTH)));
    assert_eq!(a.accounts, vec!["A".to_string()]);
    assert_eq!(a.owners, vec!["O".to_string(), "P".to_string()]);
    let v: serde_json::Value = serde_json::from_str("{\"accounts_selector\":null}").unwrap();
    let doc = Json::from_value(&v, MAX_DEPTH);
    assert!(!AccountsDbPluginBigtable::create_accounts_selector_from_config(&doc).is_enabled());
}

#[test]
fn malformed_lists_resolve_to_empty() {
    let v: serde_json::Value = serde_json::from_str(
        "{\"accounts_selector\":{\"accounts\":[\"A\", 5],\"owners\":\"O\"},\"transaction_selector\":{\"mentions\":[null, \"*\"]}}",
    )
    .unwrap();
    let doc = Json::from_value(&v, MAX_DEPTH);
    let a = AccountsDbPluginBigtable::create_accounts_selector_from_config(&doc);
    assert!(a.accounts.is_empty());
    assert!(a.owners.is_empty());
    assert!(!a.is_enabled());
    let t = AccountsDbPluginBigtable::create_transaction_selector_from_config(&doc);
    assert!(!t.is_enabled());
}

#[test]
fn document_sections_build_the_selectors() {
    let v: serde_json::Value = serde_json::from_str(
        "{\"accounts_selector\":{\"accounts\":[\"A\"],\"owners\":[]},\"transaction_selector\":{\"mentions\":[\"all_votes\"]}}",
    )
    .unwrap();
    let doc = Json::from_value(&v, MAX_DEPTH);
    let a = AccountsDbPluginBigtable::create_accounts_selector_from_config(&doc);
    assert!(a.is_account_selected(&"A".to_string(), &"Q".to_string()));
    assert!(!a.is_account_selected(&"B".to_string(), &"Q".to_string()));
    let t = AccountsDbPluginBigtable::create_transaction_selector_from_config(&doc);
    assert!(t.is_transaction_selected(true, &["X".to_string()]));
    assert!(!t.is_transaction_selected(false, &["A".to_string()]));
}

#[test]
fn json_conversion_keeps_plain_values() {
    let v: serde_json::Value = serde_json::from_str("{\"k\":[\"s\", null, 1, true, {\"n\":\"t\"}]}").unwrap();
    match Json::from_value(&v, MAX_DEPTH) {
        Json::Object(ms) => {
            assert_eq!(ms.len(), 1);
            assert_eq!(ms[0].key, "k");
            match &ms[0].value {
                Json::Array(items) => {
                    assert!(matches!(&items[0], Json::Text(s) if s == "s"));
                    assert!(matches!(&items[1], Json::Null));
                    assert!(matches!(&items[2], Json::Other));
                    assert!(matches!(&items[3], Json::Other));
                    assert!(matches!(&items[4], Json::Object(m) if m.len() == 1 && m[0].key == "n"));
                }
                _ => panic!("not an array"),
            }
        }
        _ => panic!("not an object"),
    }
    assert!(matches!(Json::from_value(&v, 0), Json::Other));
}
