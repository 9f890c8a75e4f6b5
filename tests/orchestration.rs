use cw20_deploy::artifact::{confirm_artifact, resolve_artifact, wasm_path, Artifact, EntryPoints, NetworkClass};
use cw20_deploy::contract::MyContractoor;
use cw20_deploy::error::DeployError;
use cw20_deploy::identity::{decimal_string, deployment_label, fresh_label};
use cw20_deploy::network::{same_text, Network};
use cw20_deploy::receipt::{
    is_well_formed_hash, normalize, settle, LogAttribute, LogEvent, LogMessage, RawReceipt,
};
use cw20_deploy::upload::{UploadAction, UploadReceipt, UploadState};

const HASH: &str = "9F2C4A6B8D0E1F3A5C7B9D2E4F6A8C0B1D3E5F7A9C2B4D6E8F0A1C3B5D7E9F2A";

fn event(kind: &str) -> LogEvent {
    LogEvent {
        kind: kind.to_string(),
        attributes: vec![LogAttribute { key: "action".to_string(), value: "transfer".to_string() }],
    }
}

fn receipt(code: u64) -> RawReceipt {
    RawReceipt {
        height: 1234,
        txhash: HASH.to_string(),
        codespace: "wasm".to_string(),
        code,
        data: "0A26".to_string(),
        raw_log: "[]".to_string(),
        logs: vec![LogMessage { msg_index: Some(0), events: vec![event("wasm")] }],
        info: "ok".to_string(),
        gas_wanted: 200000,
        gas_used: 150123,
        timestamp: "2023-03-01T12:00:00Z".to_string(),
        events: vec![event("tx"), event("message")],
    }
}

fn session(name: &str) -> MyContractoor {
    MyContractoor::new(name, Network::Uni6, Ok("juno1sender".to_string())).unwrap()
}

#[test]
fn decimal_notation() {
    assert_eq!(decimal_string(0), "0");
    assert_eq!(decimal_string(7), "7");
    assert_eq!(decimal_string(10), "10");
    assert_eq!(decimal_string(1234567890), "1234567890");
    assert_eq!(decimal_string(usize::MAX), usize::MAX.to_string());
}

#[test]
fn label_joins_name_and_identity() {
    assert_eq!(deployment_label("demo", 42), "demo:42");
    assert_eq!(deployment_label("", 1), ":1");
    assert_ne!(deployment_label("x", 12), deployment_label("x:1", 2));
}

#[test]
fn identities_are_unique_within_a_run() {
    let mut seen = Vec::new();
    for _ in 0..50 {
        let (id, label) = fresh_label("test-name");
        assert!(id > 0);
        assert_eq!(label, format!("test-name:{}", id));
        assert!(!seen.contains(&id));
        seen.push(id);
    }
    let a = session("test-name");
    let b = session("test-name");
    assert_ne!(a.identity(), b.identity());
    assert_ne!(a.label(), b.label());
}

#[test]
fn session_needs_a_sender() {
    let r = MyContractoor::new("demo", Network::Juno1, Err("invalid mnemonic".to_string()));
    assert_eq!(r.unwrap_err(), DeployError::Configuration("invalid mnemonic".to_string()));
    let r = MyContractoor::new("demo", Network::Juno1, Ok(String::new()));
    assert!(matches!(r, Err(DeployError::Configuration(_))));
    let c = MyContractoor::new("demo", Network::Juno1, Ok("juno1abc".to_string())).unwrap();
    assert_eq!(c.sender(), "juno1abc");
    assert_eq!(c.network(), Network::Juno1);
    assert_eq!(c.label(), format!("demo:{}", c.identity()));
}

#[test]
fn normalization_keeps_exactly_ten_fields() {
    let raw = receipt(0);
    let r = normalize(raw.clone());
    assert_eq!(r.height, 1234);
    assert_eq!(r.txhash, HASH);
    assert_eq!(r.codespace, "wasm");
    assert_eq!(r.code, 0);
    assert_eq!(r.data, "0A26");
    assert_eq!(r.raw_log, "[]");
    assert_eq!(r.logs, raw.logs);
    assert_eq!(r.info, "ok");
    assert_eq!(r.gas_wanted, 200000);
    assert_eq!(r.gas_used, 150123);
    let debug = format!("{:?}", r);
    assert!(!debug.contains("timestamp"));
    assert!(!debug.contains("2023-03-01"));
}

#[test]
fn artifact_per_network_class() {
    assert_eq!(wasm_path("/srv/app"), "/srv/app/artifacts/cw20_base.wasm");
    match resolve_artifact(NetworkClass::Persistent, "/srv/app") {
        Artifact::WasmPath(p) => assert_eq!(p, "/srv/app/artifacts/cw20_base.wasm"),
        Artifact::Stub(_) => panic!("a persistent network needs bytecode"),
    }
    let all = EntryPoints { execute: true, instantiate: true, query: true, migrate: true };
    assert_eq!(resolve_artifact(NetworkClass::Simulation, "/srv/app"), Artifact::Stub(all));
}

#[test]
fn artifact_check_failure_is_a_resolution_error() {
    let a = resolve_artifact(NetworkClass::Persistent, "/nowhere");
    let r = confirm_artifact(a.clone(), Err("no such file".to_string()));
    assert_eq!(r, Err(DeployError::Resolution("no such file".to_string())));
    assert_eq!(confirm_artifact(a.clone(), Ok(())), Ok(a));
    let s = resolve_artifact(NetworkClass::Simulation, "/nowhere");
    assert_eq!(confirm_artifact(s.clone(), Err("no such file".to_string())), Ok(s));
}

#[test]
fn initialize_then_transfer() {
    let c = session("demo");
    let init = c.init("demo".to_string(), "DMO".to_string(), 6);
    assert_eq!(init.name, "demo");
    assert_eq!(init.symbol, "DMO");
    assert_eq!(init.decimals, 6);
    assert_eq!(init.admin, "juno1sender");
    assert_eq!(init.label, c.label());
    let t = c.transfer("juno1recipient".to_string(), 1000);
    assert_eq!(t.recipient, "juno1recipient");
    assert_eq!(t.amount, 1000);
    assert_eq!(t.contract, c.label());
    let record = settle(Ok(receipt(0))).unwrap();
    assert!(record.is_success());
    assert!(is_well_formed_hash(&record.txhash));
    assert!(!settle(Ok(receipt(5))).unwrap().is_success());
}

#[test]
fn hash_shape() {
    assert!(is_well_formed_hash(HASH));
    assert!(!is_well_formed_hash(""));
    assert!(!is_well_formed_hash(&HASH[1..]));
    assert!(!is_well_formed_hash(&HASH.to_lowercase()));
    assert!(!is_well_formed_hash(&format!("{}G", &HASH[1..])));
}

#[test]
fn deploy_twice_uploads_once() {
    let local = vec![0xde, 0xad, 0xbe, 0xef];
    let mut state = UploadState::empty();
    assert_eq!(state.plan_upload(&local), UploadAction::Submit);
    let first = state
        .complete_upload(local.clone(), Ok(UploadReceipt { code_id: 17, receipt: receipt(0) }))
        .unwrap();
    assert_eq!(first.txhash, HASH);
    assert_eq!(state.code.as_ref().unwrap().code_id, 17);
    assert_eq!(state.plan_upload(&local), UploadAction::AlreadyDeployed);
    assert_eq!(state.plan_upload(&local), UploadAction::AlreadyDeployed);
    assert_eq!(state.plan_upload(&vec![0xde, 0xad]), UploadAction::Submit);
}

#[test]
fn failed_upload_keeps_state() {
    let local = vec![1, 2, 3];
    let mut state = UploadState::empty();
    let r = state.complete_upload(local.clone(), Err("out of gas".to_string()));
    assert_eq!(r, Err(DeployError::Chain("out of gas".to_string())));
    assert!(state.code.is_none());
    assert_eq!(state.plan_upload(&local), UploadAction::Submit);
}

#[test]
fn missing_transaction_is_a_chain_error() {
    let c = session("demo");
    let msg = format!("tx ({}) not found", HASH);
    let r = c.find_tx(Err(msg.clone()));
    assert_eq!(r.clone().unwrap_err(), DeployError::Chain(msg.clone()));
    let e = r.unwrap_err();
    assert!(e.is_chain());
    assert_eq!(e.message(), msg);
    assert_eq!(c.find_tx(Ok(receipt(0))).unwrap().gas_used, 150123);
}

#[test]
fn networks_by_name() {
    let names = [
        "UNI_6", "JUNO_1", "TESTING", "PISCO_1", "PHOENIX_1", "LOCAL_TERRA", "INJECTIVE_888",
        "CONSTANTINE_1", "BARYON_1", "INJECTIVE_1", "HARPOON_4", "OSMO_4", "LOCAL_OSMO",
    ];
    for n in names {
        let net = Network::from_name(n).unwrap();
        assert_eq!(net.name(), n);
        assert_eq!(net.key(), n.to_lowercase());
    }
    assert_eq!(Network::from_name("OSMO_4"), Some(Network::Osmo4));
    assert_eq!(Network::from_name("osmo_4"), None);
    assert_eq!(Network::from_name(""), None);
    assert!(same_text("abc", "abc"));
    assert!(!same_text("abc", "abd"));
}

#[test]
fn general() {
    let c = MyContractoor::new("test-name", Network::from_name("LOCAL_OSMO").unwrap(), Ok("osmo1sender".to_string()))
        .unwrap();
    assert!(c.identity() > 0);
    assert!(c.label().starts_with("test-name:"));
    assert_eq!(c.network(), Network::LocalOsmo);
}
