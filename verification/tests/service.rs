use deno_kv_rs::abci::{Event, ExecTxResult, ResponseCheckTx, ResponseCommit, ResponseQuery};
use deno_kv_rs::runtime::{RuntimeError, RuntimeMode};
use deno_kv_rs::script::DirectoryEntry;
use deno_kv_rs::service::{DenoKVService, Tx};
use serde_json::Value;

fn service() -> DenoKVService {
    let entries = vec![
        DirectoryEntry { file_name: "kv-get.query.ts".to_string(), is_dir: false },
        DirectoryEntry { file_name: "kv-set.execute.ts".to_string(), is_dir: false },
    ];
    DenoKVService::new("../scripts", &entries).0
}

fn tx(path: &str) -> Tx {
    Tx { path: path.to_string(), sender: "eddy".to_string(), request: Value::Null }
}

#[test]
fn new_service_comes_with_a_fresh_runner() {
    let (_, runner) = DenoKVService::new("../scripts", &vec![]);
    assert_eq!(runner.handle_info(), (0, vec![0u8; 16]));
}

#[test]
fn query_is_routed_to_the_script_file() {
    let script = service().route_query("kv-get").unwrap();
    assert_eq!(script.path, "../scripts/kv-get.query.ts");
    assert_eq!(script.kind, RuntimeMode::Query);
    assert_eq!(script.name, "kv-get");
}

#[test]
fn execute_is_routed_to_the_script_file() {
    let script = service().route_execute(&tx("kv-set")).unwrap();
    assert_eq!(script.path, "../scripts/kv-set.execute.ts");
    assert_eq!(script.kind, RuntimeMode::Execute);
    assert_eq!(script.name, "kv-set");
}

#[test]
fn unknown_query_path_is_rejected_with_code_one() {
    assert_eq!(
        service().route_query("unknown").unwrap_err(),
        ResponseQuery {
            code: 1,
            log: "query path unknown not supported".to_string(),
            value: vec![],
            height: 0,
        }
    );
}

#[test]
fn unknown_execute_path_is_rejected_with_code_one() {
    assert_eq!(
        service().route_execute(&tx("unknown")).unwrap_err(),
        ExecTxResult {
            code: 1,
            log: "execute path unknown not supported".to_string(),
            events: vec![],
        }
    );
}

#[test]
fn a_script_is_offered_under_its_own_kind_only() {
    assert_eq!(
        service().route_query("kv-set").unwrap_err().log,
        "query path kv-set not supported"
    );
    assert_eq!(
        service().route_execute(&tx("kv-get")).unwrap_err().log,
        "execute path kv-get not supported"
    );
}

#[test]
fn nothing_is_offered_from_an_empty_directory() {
    let (service, _) = DenoKVService::new("scripts", &vec![]);
    assert_eq!(service.route_query("kv-get").unwrap_err().code, 1);
    assert_eq!(service.route_query("").unwrap_err().log, "query path  not supported");
}

#[test]
fn successful_query_is_passed_on() {
    let answer = ResponseQuery { code: 0, log: String::new(), value: vec![1, 2], height: 5 };
    assert_eq!(DenoKVService::query(Ok(answer.clone())), answer);
}

#[test]
fn failed_query_becomes_code_one_with_the_error_as_log() {
    assert_eq!(
        DenoKVService::query(Err(RuntimeError::MissingResponse)),
        ResponseQuery {
            code: 1,
            log: "respond not called".to_string(),
            value: vec![],
            height: 0,
        }
    );
    assert_eq!(
        DenoKVService::query(Err(RuntimeError::KeyNotFound)).log,
        "key not found"
    );
    assert_eq!(
        DenoKVService::query(Err(RuntimeError::ModeViolation {
            expected: RuntimeMode::Execute
        }))
        .log,
        "expected execute mode"
    );
}

#[test]
fn successful_execution_is_passed_on() {
    let done = ExecTxResult {
        code: 0,
        log: String::new(),
        events: vec![Event { kind: "kv-set".to_string(), attributes: vec![] }],
    };
    assert_eq!(DenoKVService::execute(Ok(done.clone())), done);
}

#[test]
fn failed_execution_becomes_code_one_without_events() {
    assert_eq!(
        DenoKVService::execute(Err(RuntimeError::Evaluation("boom".to_string()))),
        ExecTxResult { code: 1, log: "boom".to_string(), events: vec![] }
    );
    assert_eq!(
        DenoKVService::execute(Err(RuntimeError::ModeViolation {
            expected: RuntimeMode::Query
        }))
        .log,
        "expected query mode"
    );
}

#[test]
fn info_describes_the_node() {
    let info = DenoKVService::info(3, vec![2]);
    assert_eq!(info.data, "deno-kv-rs");
    assert_eq!(info.version, "0.1.0");
    assert_eq!(info.app_version, 1);
    assert_eq!(info.last_block_height, 3);
    assert_eq!(info.last_block_app_hash, vec![2u8]);
}

#[test]
fn check_tx_accepts() {
    assert_eq!(DenoKVService::check_tx(), ResponseCheckTx { gas_wanted: 1, gas_used: 0 });
}

#[test]
fn commit_retains_from_the_block_before() {
    assert_eq!(DenoKVService::commit(1), ResponseCommit { retain_height: 0 });
    assert_eq!(DenoKVService::commit(10), ResponseCommit { retain_height: 9 });
}
