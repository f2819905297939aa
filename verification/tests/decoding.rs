use aether_agent::runtime::audit::{AuditEventType, AuditLog};
use aether_agent::runtime::errors::AgentError;
use aether_agent::runtime::executor::{decode_reply, request_payload, ExecutionStep, ParamValue};
use aether_agent::runtime::intent::IntentType;
use aether_agent::runtime::llm_provider::{decode_chat_completion, decode_ollama_reply, parse_structured};
use aether_agent::runtime::memory_store::{Persisted, ENVELOPE_VERSION};
use aether_agent::runtime::observation::{Observation, ObservationType};
use serde_json::Value;

fn object(members: Vec<(&str, Value)>) -> Value {
    let mut m = serde_json::Map::new();
    for (k, v) in members {
        m.insert(k.to_string(), v);
    }
    Value::Object(m)
}

fn text(s: &str) -> Value {
    Value::String(s.to_string())
}

// ---------------------------------------------------------------- requests

#[test]
fn control_payload_names_service_command_and_last_parameters() {
    let step = ExecutionStep::Control {
        service_id: "svc".to_string(),
        command: "launch".to_string(),
        parameters: vec![
            ("app".to_string(), ParamValue::Text("x".to_string())),
            ("n".to_string(), ParamValue::Number(3)),
            ("app".to_string(), ParamValue::Text("y".to_string())),
        ],
    };
    let expected = object(vec![
        ("service_id", text("svc")),
        ("command", text("launch")),
        ("parameters", object(vec![("app", text("y")), ("n", Value::from(3u64))])),
    ]);
    assert_eq!(request_payload(&step), expected);
}

#[test]
fn surface_payload_is_the_parameters_object() {
    let step = ExecutionStep::Surface { payload: vec![("k".to_string(), ParamValue::Null)] };
    assert_eq!(request_payload(&step), object(vec![("k", Value::Null)]));
}

#[test]
fn local_step_sends_an_empty_object() {
    assert_eq!(request_payload(&ExecutionStep::Local), object(vec![]));
}

// ---------------------------------------------------------------- replies

#[test]
fn empty_reply_names_the_service() {
    match decode_reply("", "") {
        Err(AgentError::Ipc(m)) => assert_eq!(m, "empty response"),
        other => panic!("unexpected {other:?}"),
    }
    match decode_reply("", "surface") {
        Err(AgentError::Ipc(m)) => assert_eq!(m, "empty surface response"),
        other => panic!("unexpected {other:?}"),
    }
}

#[test]
fn reply_line_is_trimmed_and_parsed() {
    let v = decode_reply("  {\"ok\":true}\n", "").unwrap();
    assert_eq!(v, object(vec![("ok", Value::Bool(true))]));
}

#[test]
fn undecodable_reply_is_an_ipc_error() {
    match decode_reply("not json\n", "surface") {
        Err(AgentError::Ipc(m)) => assert!(m.starts_with("decode: ")),
        other => panic!("unexpected {other:?}"),
    }
}

// ---------------------------------------------------------------- chat replies

#[test]
fn chat_completion_reads_content_model_tokens_and_reason() {
    let raw = " {\"model\":\"m1\",\"choices\":[{\"message\":{\"content\":\"hi\"},\"finish_reason\":\"length\"}],\"usage\":{\"total_tokens\":42}}\n";
    let c = decode_chat_completion(raw, "default").unwrap();
    assert_eq!(c.content, "hi");
    assert_eq!(c.model, "m1");
    assert_eq!(c.tokens_used, Some(42));
    assert_eq!(c.finish_reason, "length");
}

#[test]
fn chat_completion_defaults_model_and_reason() {
    let raw = "{\"choices\":[{\"message\":{\"content\":\"hello\"}}]}";
    let c = decode_chat_completion(raw, "gpt-default").unwrap();
    assert_eq!(c.content, "hello");
    assert_eq!(c.model, "gpt-default");
    assert_eq!(c.tokens_used, None);
    assert_eq!(c.finish_reason, "stop");
}

#[test]
fn chat_completion_token_count_is_cut_to_32_bits() {
    let raw = "{\"choices\":[{\"message\":{\"content\":\"x\"}}],\"usage\":{\"total_tokens\":4294967297}}";
    assert_eq!(decode_chat_completion(raw, "m").unwrap().tokens_used, Some(1));
}

#[test]
fn chat_completion_without_content_is_refused() {
    let raw = "{\"choices\":[]}";
    assert_eq!(decode_chat_completion(raw, "m").unwrap_err(), "missing choices[0].message.content");
}

#[test]
fn chat_completion_that_is_no_json_is_refused() {
    let e = decode_chat_completion("<html>", "m").unwrap_err();
    assert!(e.starts_with("bad openai json: "));
}

#[test]
fn ollama_reply_is_read_from_the_first_brace() {
    let raw = "HTTP noise {\"model\":\"llama\",\"message\":{\"content\":\"yo\"}}";
    let c = decode_ollama_reply(raw, "default").unwrap();
    assert_eq!(c.content, "yo");
    assert_eq!(c.model, "llama");
    assert_eq!(c.tokens_used, None);
    assert_eq!(c.finish_reason, "stop");
}

#[test]
fn ollama_reply_defaults_the_model() {
    let c = decode_ollama_reply("{\"message\":{\"content\":\"a\"}}", "llama3").unwrap();
    assert_eq!(c.model, "llama3");
}

#[test]
fn ollama_reply_errors() {
    assert_eq!(decode_ollama_reply("no brace here", "m").unwrap_err(), "no JSON in response");
    assert_eq!(
        decode_ollama_reply("{\"message\":{}}", "m").unwrap_err(),
        "missing message.content in ollama response"
    );
    assert!(decode_ollama_reply("{oops", "m").unwrap_err().starts_with("bad ollama json: "));
}

#[test]
fn structured_output_parses_json_content() {
    assert_eq!(parse_structured("{\"a\":1}").unwrap(), object(vec![("a", Value::from(1u64))]));
    assert!(parse_structured("plain words")
        .unwrap_err()
        .starts_with("Failed to parse structured output: "));
}

// ---------------------------------------------------------------- observations

fn observation(t: ObservationType, data: Value) -> Observation {
    Observation::new("a1", "s1".to_string(), t, data)
}

#[test]
fn normalized_application_start_keeps_the_application() {
    let obs = observation(
        ObservationType::ApplicationStarted { application_id: "calc".to_string() },
        object(vec![("secret", text("x"))]),
    );
    let expected = object(vec![
        ("success", Value::Bool(true)),
        ("type", text("Started")),
        ("application_id", text("calc")),
    ]);
    assert_eq!(obs.normalized("Started"), expected);
}

#[test]
fn normalized_failure_keeps_application_and_reason() {
    let obs = observation(
        ObservationType::ApplicationFailed { application_id: "calc".to_string(), reason: "gone".to_string() },
        Value::Null,
    );
    let n = obs.normalized("Failed");
    assert_eq!(n["application_id"], text("calc"));
    assert_eq!(n["reason"], text("gone"));
    assert_eq!(n["success"], Value::Bool(true));
}

#[test]
fn normalized_error_is_unsuccessful_and_carries_the_message() {
    let obs = observation(ObservationType::Error { message: "boom".to_string() }, Value::Null);
    let expected = object(vec![
        ("success", Value::Bool(false)),
        ("type", text("Error")),
        ("error", text("boom")),
    ]);
    assert_eq!(obs.normalized("Error"), expected);
}

#[test]
fn normalized_window_list_and_file_result() {
    let windows = Value::Array(vec![text("w1")]);
    let obs = observation(ObservationType::WindowList { windows: windows.clone() }, Value::Null);
    assert_eq!(obs.normalized("WindowList")["windows"], windows);
    let obs = observation(
        ObservationType::FilesystemResult { operation: "read".to_string(), data: text("body") },
        Value::Null,
    );
    let n = obs.normalized("Fs");
    assert_eq!(n["operation"], text("read"));
    assert_eq!(n["data"], text("body"));
}

#[test]
fn normalized_other_kinds_carry_the_observation_data() {
    let data = object(vec![("cpu", Value::from(3u64))]);
    let obs = observation(ObservationType::SystemStatus { data: Value::Null }, data.clone());
    let expected = object(vec![("success", Value::Bool(true)), ("type", text("S")), ("data", data)]);
    assert_eq!(obs.normalized("S"), expected);
}

// ---------------------------------------------------------------- envelopes

#[test]
fn envelope_carries_version_time_and_checksum() {
    let p = Persisted::new_at(5u32, b"5", 77);
    assert_eq!(p.version, ENVELOPE_VERSION);
    assert_eq!(p.saved_at_ms, 77);
    assert_eq!(p.content_checksum, "af63a84c86019430");
    assert_eq!(p.data, 5);
}

// ---------------------------------------------------------------- intents

#[test]
fn every_listed_slug_round_trips() {
    let slugs = IntentType::all_slugs();
    assert_eq!(slugs.len(), 28);
    for s in slugs {
        let t = IntentType::from_str(s).unwrap();
        assert_eq!(t.to_string(), *s);
    }
    assert_eq!(IntentType::from_str("application.launch"), Some(IntentType::ApplicationLaunch));
    assert_eq!(IntentType::from_str("agent.execute_shell"), None);
    assert_eq!(IntentType::from_str(""), None);
}

// ---------------------------------------------------------------- audit

#[test]
fn audit_log_length_is_records_up_to_capacity() {
    for capacity in 1..5usize {
        for n in 0..8usize {
            let mut log = AuditLog::new(capacity);
            for _ in 0..n {
                log.record("s", AuditEventType::ActionRequested, "d", true, "runtime");
            }
            assert_eq!(log.len(), n.min(capacity));
            assert_eq!(log.is_empty(), log.len() == 0);
        }
    }
}

#[test]
fn normalized_output() {
    let obs = observation(
        ObservationType::SystemStatus { data: object(vec![("ok", Value::Bool(true))]) },
        object(vec![("ok", Value::Bool(true))]),
    );
    let norm = obs.normalized("SystemStatus");
    assert!(norm["success"].as_bool().unwrap_or(false));
    assert!(norm["type"].as_str().is_some());
}
