use deno_kv_rs::abci::{Event, ExecTxResult, ResponseQuery};
use deno_kv_rs::runner::{
    execute_response, query_response, request_from, Runner, RunnerCommand, RunnerReply, Step,
};
use deno_kv_rs::runtime::{OpStateContext, RuntimeError, RuntimeMode};
use deno_kv_rs::runtime_ops::{
    op_ctx_emit, op_ctx_get_request, op_ctx_get_sender, op_ctx_respond, op_kv_get, op_kv_set,
};
use deno_kv_rs::store::MemoryStore;
use serde_json::Value;

type Context = OpStateContext<MemoryStore>;
type Script = fn(&mut Context) -> Result<(), RuntimeError>;

fn json(text: &str) -> Value {
    serde_json::from_str(text).unwrap()
}

fn field(request: &Value, name: &str) -> String {
    request[name].as_str().unwrap().to_string()
}

/// What the script `kv-set.execute.ts` does.
fn kv_set_script(ctx: &mut Context) -> Result<(), RuntimeError> {
    let request = op_ctx_get_request(ctx)?;
    let key = field(&request, "key");
    let value = field(&request, "value");
    op_kv_set(ctx, key.clone(), value.clone())?;
    op_ctx_emit(ctx, Event { kind: "kv-set".to_string(), attributes: vec![(key, value)] })
}

/// What the script `kv-get.query.ts` does.
fn kv_get_script(ctx: &mut Context) -> Result<(), RuntimeError> {
    let request = op_ctx_get_request(ctx)?;
    let value = op_kv_get(ctx, field(&request, "key"))?;
    let mut object = serde_json::Map::new();
    object.insert("value".to_string(), Value::String(value));
    op_ctx_respond(ctx, Value::Object(object))
}

fn sender_script(ctx: &mut Context) -> Result<(), RuntimeError> {
    let sender = op_ctx_get_sender(ctx)?;
    op_ctx_respond(ctx, Value::String(sender))
}

fn idle_script(_ctx: &mut Context) -> Result<(), RuntimeError> {
    Ok(())
}

fn throwing_script(ctx: &mut Context) -> Result<(), RuntimeError> {
    op_kv_set(ctx, "half".to_string(), "done".to_string())?;
    op_ctx_emit(ctx, Event { kind: "lost".to_string(), attributes: vec![] })?;
    Err(RuntimeError::Evaluation("Uncaught Error: boom".to_string()))
}

fn set_in_query_script(ctx: &mut Context) -> Result<(), RuntimeError> {
    op_kv_set(ctx, "k".to_string(), "v".to_string())?;
    op_ctx_respond(ctx, Value::Null)
}

fn emit_in_query_script(ctx: &mut Context) -> Result<(), RuntimeError> {
    op_ctx_emit(ctx, Event { kind: "e".to_string(), attributes: vec![] })?;
    op_ctx_respond(ctx, Value::Null)
}

fn respond_in_execute_script(ctx: &mut Context) -> Result<(), RuntimeError> {
    op_ctx_respond(ctx, Value::Null)
}

/// Binds as many keys as the request says.
fn fill_script(ctx: &mut Context) -> Result<(), RuntimeError> {
    let count = op_ctx_get_request(ctx)?.as_u64().unwrap();
    for i in 0..count {
        op_kv_set(ctx, format!("key-{}", i), "x".to_string())?;
    }
    Ok(())
}

fn execute(
    runner: Runner<MemoryStore>,
    sender: &str,
    request: Value,
    script: Script,
) -> (Runner<MemoryStore>, Result<ExecTxResult, RuntimeError>) {
    let (state, mut ctx) = runner.start_execute(sender, request);
    let evaluated = script(&mut ctx);
    assert_eq!(ctx.mode(), RuntimeMode::Execute);
    state.handle_execute(ctx, evaluated)
}

fn query(
    runner: Runner<MemoryStore>,
    request: &[u8],
    script: Script,
) -> (Runner<MemoryStore>, Result<ResponseQuery, RuntimeError>) {
    match runner.start_query(request) {
        Err((runner, error)) => (runner, Err(error)),
        Ok((state, mut ctx)) => {
            let evaluated = script(&mut ctx);
            assert_eq!(ctx.mode(), RuntimeMode::Query);
            state.handle_query(ctx, evaluated)
        }
    }
}

fn set(runner: Runner<MemoryStore>, key: &str, value: &str) -> Runner<MemoryStore> {
    let mut request = serde_json::Map::new();
    request.insert("key".to_string(), Value::String(key.to_string()));
    request.insert("value".to_string(), Value::String(value.to_string()));
    let (runner, result) = execute(runner, "tester", Value::Object(request), kv_set_script);
    result.unwrap();
    runner
}

fn fill(runner: Runner<MemoryStore>, count: u64) -> Runner<MemoryStore> {
    let (runner, result) = execute(runner, "tester", Value::from(count), fill_script);
    result.unwrap();
    runner
}

#[test]
fn new_runner_is_at_height_zero_with_sixteen_zero_bytes() {
    let runner = Runner::new();
    assert_eq!(runner.handle_info(), (0, vec![0u8; 16]));
}

#[test]
fn info_changes_nothing() {
    let mut runner = set(Runner::new(), "a", "1");
    runner.handle_commit().unwrap();
    let first = runner.handle_info();
    let second = runner.handle_info();
    assert_eq!(first, (1, vec![1u8]));
    assert_eq!(first, second);
}

#[test]
fn commit_of_empty_store() {
    let mut runner = Runner::new();
    assert_eq!(runner.handle_commit().unwrap(), (1, vec![0u8]));
    assert_eq!(runner.handle_info(), (1, vec![0u8]));
}

#[test]
fn commit_encodes_the_number_of_entries() {
    let mut runner = fill(Runner::new(), 3);
    assert_eq!(runner.handle_commit().unwrap(), (1, vec![3u8]));
    let mut runner = fill(runner, 127);
    assert_eq!(runner.handle_commit().unwrap(), (2, vec![127u8]));
    let mut runner = fill(runner, 128);
    assert_eq!(runner.handle_commit().unwrap(), (3, vec![0x80u8, 0x01]));
    let mut runner = fill(runner, 300);
    assert_eq!(runner.handle_commit().unwrap(), (4, vec![0xacu8, 0x02]));
    let mut runner = fill(runner, 16384);
    assert_eq!(runner.handle_commit().unwrap(), (5, vec![0x80u8, 0x80, 0x01]));
}

#[test]
fn height_after_n_commits_is_n_more() {
    let mut runner = Runner::new();
    for n in 1..=25i64 {
        let (height, _) = runner.handle_commit().unwrap();
        assert_eq!(height, n);
    }
    assert_eq!(runner.handle_info().0, 25);
}

#[test]
fn digest_changes_exactly_when_the_size_changes() {
    let mut runner = set(Runner::new(), "a", "1");
    let (_, first) = runner.handle_commit().unwrap();
    // Another value under the same key: the size stays, and so does the digest.
    let mut runner = set(runner, "a", "2");
    let (_, second) = runner.handle_commit().unwrap();
    assert_eq!(first, second);
    // Another key: the size grows, and the digest changes.
    let mut runner = set(runner, "b", "1");
    let (_, third) = runner.handle_commit().unwrap();
    assert_ne!(second, third);
    // Nothing happens: the digest stays.
    let (_, fourth) = runner.handle_commit().unwrap();
    assert_eq!(third, fourth);
}

#[test]
fn digest_ignores_contents() {
    let mut one = set(Runner::new(), "a", "1");
    let mut other = set(Runner::new(), "zzz", "something else");
    assert_eq!(one.handle_commit().unwrap(), other.handle_commit().unwrap());
}

#[test]
fn set_then_get_round_trip() {
    let runner = set(Runner::new(), "k", "v");
    let (_, answer) = query(runner, b"{\"key\":\"k\"}", kv_get_script);
    let answer = answer.unwrap();
    assert_eq!(answer.code, 0);
    assert_eq!(answer.value, b"{\"value\":\"v\"}".to_vec());
}

#[test]
fn commands_take_effect_in_order() {
    let runner = set(Runner::new(), "a", "1");
    let runner = set(runner, "a", "2");
    let (_, answer) = query(runner, b"{\"key\":\"a\"}", kv_get_script);
    assert_eq!(answer.unwrap().value, b"{\"value\":\"2\"}".to_vec());
}

#[test]
fn concrete_scenario() {
    let tx = json("{\"path\":\"kv-set\",\"sender\":\"eddy\",\"request\":{\"key\":\"name\",\"value\":\"eddy\"}}");
    let sender = tx["sender"].as_str().unwrap().to_string();
    let (runner, result) = execute(Runner::new(), &sender, tx["request"].clone(), kv_set_script);
    let result = result.unwrap();
    assert_eq!(result.code, 0);
    assert_eq!(result.events.len(), 1);
    assert_eq!(
        result.events[0],
        Event {
            kind: "kv-set".to_string(),
            attributes: vec![("name".to_string(), "eddy".to_string())],
        }
    );

    let (_, answer) = query(runner, b"{\"key\":\"name\"}", kv_get_script);
    let answer = answer.unwrap();
    assert_eq!(answer.code, 0);
    let decoded: Value = serde_json::from_slice(&answer.value).unwrap();
    assert_eq!(decoded, json("{\"value\":\"eddy\"}"));
    assert_eq!(answer.value, b"{\"value\":\"eddy\"}".to_vec());
}

#[test]
fn query_answer_carries_the_current_height() {
    let mut runner = set(Runner::new(), "k", "v");
    runner.handle_commit().unwrap();
    runner.handle_commit().unwrap();
    let (runner, answer) = query(runner, b"{\"key\":\"k\"}", kv_get_script);
    let answer = answer.unwrap();
    assert_eq!(answer.height, 2);
    assert_eq!(answer.log, "");
    assert_eq!(runner.handle_info().0, 2);
}

#[test]
fn query_runs_under_the_querier() {
    let (_, answer) = query(Runner::new(), b"null", sender_script);
    assert_eq!(answer.unwrap().value, b"\"<querier>\"".to_vec());
}

#[test]
fn query_response_is_written_compactly() {
    let (_, answer) = query(Runner::new(), b"  { \"key\" :\n \"k\" }  ", idle_then_echo);
    assert_eq!(answer.unwrap().value, b"{\"key\":\"k\"}".to_vec());
}

fn idle_then_echo(ctx: &mut Context) -> Result<(), RuntimeError> {
    let request = op_ctx_get_request(ctx)?;
    op_ctx_respond(ctx, request)
}

#[test]
fn query_with_invalid_request_is_refused_before_any_script() {
    let runner = set(Runner::new(), "k", "v");
    for request in [&b"{"[..], &b""[..], &b"{\"key\":}"[..], &b"\xff\xfe"[..], &b"1 2"[..]] {
        match Runner::new().start_query(request) {
            Err((_, RuntimeError::InvalidRequest(text))) => assert!(!text.is_empty()),
            Err((_, other)) => panic!("unexpected error {:?}", other),
            Ok(_) => panic!("an invalid request was accepted"),
        }
    }
    let runner = match runner.start_query(b"not json") {
        Err((runner, RuntimeError::InvalidRequest(_))) => runner,
        _ => panic!("an invalid request was accepted"),
    };
    let (_, answer) = query(runner, b"{\"key\":\"k\"}", kv_get_script);
    assert_eq!(answer.unwrap().value, b"{\"value\":\"v\"}".to_vec());
}

#[test]
fn query_without_response_fails_with_missing_response() {
    let (runner, answer) = query(Runner::new(), b"{}", idle_script);
    assert!(matches!(answer, Err(RuntimeError::MissingResponse)));
    assert_eq!(runner.handle_info(), (0, vec![0u8; 16]));
}

#[test]
fn query_of_absent_key_fails_with_key_not_found() {
    let (_, answer) = query(Runner::new(), b"{\"key\":\"absent\"}", kv_get_script);
    assert!(matches!(answer, Err(RuntimeError::KeyNotFound)));
}

#[test]
fn query_cannot_write_or_emit() {
    let (runner, answer) = query(Runner::new(), b"{}", set_in_query_script);
    assert!(matches!(
        answer,
        Err(RuntimeError::ModeViolation { expected: RuntimeMode::Execute })
    ));
    let (mut runner, answer) = query(runner, b"{}", emit_in_query_script);
    assert!(matches!(
        answer,
        Err(RuntimeError::ModeViolation { expected: RuntimeMode::Execute })
    ));
    assert_eq!(runner.handle_commit().unwrap(), (1, vec![0u8]));
}

#[test]
fn execution_cannot_respond() {
    let (_, result) = execute(Runner::new(), "s", Value::Null, respond_in_execute_script);
    assert!(matches!(
        result,
        Err(RuntimeError::ModeViolation { expected: RuntimeMode::Query })
    ));
}

#[test]
fn failed_execution_changes_nothing() {
    let mut runner = set(Runner::new(), "before", "1");
    runner.handle_commit().unwrap();
    let (runner, result) = execute(runner, "s", Value::Null, throwing_script);
    match result {
        Err(RuntimeError::Evaluation(text)) => assert_eq!(text, "Uncaught Error: boom"),
        other => panic!("unexpected result {:?}", other),
    }
    assert_eq!(runner.handle_info(), (1, vec![1u8]));
    // What the script wrote before it failed is gone with it.
    let (runner, answer) = query(runner, b"{\"key\":\"half\"}", kv_get_script);
    assert!(matches!(answer, Err(RuntimeError::KeyNotFound)));
    let (mut runner, answer) = query(runner, b"{\"key\":\"before\"}", kv_get_script);
    assert_eq!(answer.unwrap().value, b"{\"value\":\"1\"}".to_vec());
    assert_eq!(runner.handle_commit().unwrap(), (2, vec![1u8]));
}

#[test]
fn no_reply_ends_the_runner_but_a_failed_channel_does() {
    let replies = vec![
        RunnerReply::GetInfo(0, vec![0u8; 16]),
        RunnerReply::Commit(Ok((1, vec![0u8]))),
        RunnerReply::Commit(Err(RuntimeError::Store(deno_kv_rs::store::StoreError {
            message: "disk gone".to_string(),
        }))),
        RunnerReply::Query(Err(RuntimeError::MissingResponse)),
        RunnerReply::Execute(Err(RuntimeError::Evaluation("boom".to_string()))),
        RunnerReply::Execute(Ok(ExecTxResult { code: 0, log: String::new(), events: vec![] })),
    ];
    for reply in replies {
        assert!(reply.goes_on(true));
        assert!(!reply.goes_on(false));
    }
}

#[test]
fn execution_without_events_succeeds() {
    let (_, result) = execute(Runner::new(), "s", Value::Null, idle_script);
    assert_eq!(
        result.unwrap(),
        ExecTxResult { code: 0, log: String::new(), events: vec![] }
    );
}

#[test]
fn request_from_passes_documents_and_refuses_failures() {
    let parsed = serde_json::from_slice::<Value>(b"[1,2]");
    assert_eq!(request_from(parsed).unwrap(), json("[1,2]"));
    let failed = serde_json::from_slice::<Value>(b"[1,");
    let expected = serde_json::from_slice::<Value>(b"[1,").unwrap_err().to_string();
    match request_from(failed) {
        Err(RuntimeError::InvalidRequest(text)) => assert_eq!(text, expected),
        other => panic!("unexpected result {:?}", other),
    }
}

#[test]
fn query_response_wraps_bytes_under_the_height() {
    let answer = query_response(Ok(vec![1, 2, 3]), 7).unwrap();
    assert_eq!(
        answer,
        ResponseQuery { code: 0, log: String::new(), value: vec![1, 2, 3], height: 7 }
    );
    let failure = serde_json::from_slice::<Value>(b"x").unwrap_err();
    let expected = failure.to_string();
    match query_response(Err(failure), 7) {
        Err(RuntimeError::Encoding(text)) => assert_eq!(text, expected),
        other => panic!("unexpected result {:?}", other),
    }
}

#[test]
fn execute_response_holds_the_events() {
    let events = vec![
        Event { kind: "a".to_string(), attributes: vec![] },
        Event { kind: "b".to_string(), attributes: vec![("k".to_string(), "v".to_string())] },
    ];
    let result = execute_response(events.clone());
    assert_eq!(result, ExecTxResult { code: 0, log: String::new(), events });
}

fn serve(
    runner: Runner<MemoryStore>,
    command: RunnerCommand,
    script: Script,
) -> (Runner<MemoryStore>, RunnerReply) {
    match runner.handle(command) {
        Step::Done { runner, reply } => (runner, reply),
        Step::Script { state, mut context, path: _ } => {
            let evaluated = script(&mut context);
            state.resume(context, evaluated)
        }
    }
}

#[test]
fn commands_are_served_in_the_order_of_the_queue() {
    let set_one = RunnerCommand::Execute {
        path: "scripts/kv-set.execute.ts".to_string(),
        sender: "eddy".to_string(),
        request: json("{\"key\":\"a\",\"value\":\"1\"}"),
    };
    let set_two = RunnerCommand::Execute {
        path: "scripts/kv-set.execute.ts".to_string(),
        sender: "eddy".to_string(),
        request: json("{\"key\":\"a\",\"value\":\"2\"}"),
    };
    let get = RunnerCommand::Query {
        path: "scripts/kv-get.query.ts".to_string(),
        request: b"{\"key\":\"a\"}".to_vec(),
    };
    let (runner, first) = serve(Runner::new(), set_one, kv_set_script);
    let (runner, second) = serve(runner, set_two, kv_set_script);
    let (runner, third) = serve(runner, get, kv_get_script);
    let (runner, fourth) = serve(runner, RunnerCommand::Commit, idle_script);
    let (_, fifth) = serve(runner, RunnerCommand::GetInfo, idle_script);
    assert!(matches!(first, RunnerReply::Execute(Ok(result)) if result.events.len() == 1));
    assert!(matches!(second, RunnerReply::Execute(Ok(result)) if result.events.len() == 1));
    match third {
        RunnerReply::Query(Ok(answer)) => {
            assert_eq!(answer.value, b"{\"value\":\"2\"}".to_vec());
            assert_eq!(answer.height, 0);
        }
        other => panic!("unexpected reply {:?}", other),
    }
    assert!(matches!(fourth, RunnerReply::Commit(Ok((1, digest))) if digest == vec![1u8]));
    assert!(matches!(fifth, RunnerReply::GetInfo(1, digest) if digest == vec![1u8]));
}

#[test]
fn handle_hands_the_script_file_on() {
    let command = RunnerCommand::Execute {
        path: "../scripts/kv-set.execute.ts".to_string(),
        sender: "eddy".to_string(),
        request: Value::Null,
    };
    match Runner::new().handle(command) {
        Step::Script { state: _, context, path } => {
            assert_eq!(path, "../scripts/kv-set.execute.ts");
            assert_eq!(context.mode(), RuntimeMode::Execute);
        }
        Step::Done { .. } => panic!("an execution was answered without its script"),
    }
}

#[test]
fn handle_answers_an_invalid_query_at_once() {
    let command = RunnerCommand::Query {
        path: "../scripts/kv-get.query.ts".to_string(),
        request: b"{\"key\"".to_vec(),
    };
    let expected = serde_json::from_slice::<Value>(b"{\"key\"").unwrap_err().to_string();
    match Runner::new().handle(command) {
        Step::Done { runner, reply: RunnerReply::Query(Err(RuntimeError::InvalidRequest(text))) } => {
            assert_eq!(text, expected);
            assert_eq!(text, "EOF while parsing an object at line 1 column 6");
            assert_eq!(runner.handle_info(), (0, vec![0u8; 16]))
        }
        _ => panic!("an invalid request was accepted"),
    }
}

#[test]
fn resume_replies_in_kind() {
    let (state, context) = Runner::new().start_execute("s", Value::Null);
    let failure = Err(RuntimeError::Evaluation("boom".to_string()));
    let (runner, reply) = state.resume(context, failure);
    assert!(matches!(
        reply,
        RunnerReply::Execute(Err(RuntimeError::Evaluation(text))) if text == "boom"
    ));
    let (state, context) = runner.start_query(b"{}").unwrap_or_else(|_| panic!("refused"));
    let (_, reply) = state.resume(context, Ok(()));
    assert!(matches!(reply, RunnerReply::Query(Err(RuntimeError::MissingResponse))));
}
