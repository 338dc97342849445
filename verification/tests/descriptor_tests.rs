use temporal_template::descriptor::{
    ExecuteTemporalWorkflow, QueryTemporal, SignalTemporal, TemporalInteraction,
    TemporalWorkflowExecutionInfo,
};
use temporal_template::keys::{KeyMap, KeysToTemporalAction};
use temporal_template::responses::TemporalInteractionResponse;
use temporal_template::toolbox::{convert_role_to_env_var, host_env_var_name, port_env_var_name};

fn signal_example() -> TemporalInteraction {
    TemporalInteraction::Signal(SignalTemporal {
        namespace: "ns".to_string(),
        task_queue: "tq".to_string(),
        workflow_id: Some("w".to_string()),
        run_id: Some("r".to_string()),
        signal_name: "sig".to_string(),
        input: None,
        identity: None,
        request_id: None,
        control: None,
    })
}

#[test]
fn accessors_read_the_active_variant() {
    let signal = signal_example();
    assert_eq!(signal.to_type_string(), "Signal");
    assert_eq!(signal.namespace(), "ns");
    assert_eq!(signal.task_queue(), "tq");
    assert_eq!(signal.workflow_id(), "w");
}

#[test]
fn absent_workflow_id_reads_as_empty() {
    let query = TemporalInteraction::Query(QueryTemporal {
        namespace: "ns".to_string(),
        task_queue: "tq".to_string(),
        workflow_id: None,
        run_id: None,
        query_type: "state".to_string(),
        query_args: None,
    });
    assert_eq!(query.workflow_id(), "");
    assert_eq!(query.to_type_string(), "Query");
}

#[test]
fn signal_run_id_defaults_to_empty() {
    let with_run = SignalTemporal {
        namespace: "ns".to_string(),
        task_queue: "tq".to_string(),
        workflow_id: None,
        run_id: Some("r9".to_string()),
        signal_name: "sig".to_string(),
        input: None,
        identity: None,
        request_id: None,
        control: None,
    };
    assert_eq!(with_run.run_id(), "r9");
    let without_run = SignalTemporal { run_id: None, ..with_run };
    assert_eq!(without_run.run_id(), "");
}

#[test]
fn query_args_text_is_the_first_argument() {
    let query = QueryTemporal {
        namespace: "ns".to_string(),
        task_queue: "tq".to_string(),
        workflow_id: None,
        run_id: None,
        query_type: "state".to_string(),
        query_args: Some(vec![
            serde_json::Value::String("a".to_string()),
            serde_json::Value::Bool(true),
        ]),
    };
    // the textual form is compact JSON, so a string argument keeps its quotes
    assert_eq!(query.query_args(), "\"a\"");
}

#[test]
fn query_args_text_is_empty_without_arguments() {
    let none = QueryTemporal {
        namespace: "ns".to_string(),
        task_queue: "tq".to_string(),
        workflow_id: None,
        run_id: None,
        query_type: "state".to_string(),
        query_args: None,
    };
    assert_eq!(none.query_args(), "");
    let empty = QueryTemporal { query_args: Some(Vec::new()), ..none };
    assert_eq!(empty.query_args(), "");
    assert_eq!(empty.run_id(), "");
}

#[test]
fn add_data_args_replaces_the_payload_field() {
    let args = vec![serde_json::Value::String("saxon".to_string())];
    let signal = signal_example().add_data_args(Some(args.clone()));
    match signal {
        TemporalInteraction::Signal(s) => {
            assert_eq!(s.input, Some(args));
            assert_eq!(s.namespace, "ns");
        }
        other => panic!("the variant must be kept: {:?}", other),
    }
}

#[test]
fn add_data_args_can_clear_the_payload_field() {
    let execute = TemporalInteraction::Execute(ExecuteTemporalWorkflow {
        namespace: "ns".to_string(),
        task_queue: "tq".to_string(),
        workflow_id: "w".to_string(),
        workflow_type: "Greet".to_string(),
        args: Some(vec![serde_json::Value::Null]),
    });
    match execute.add_data_args(None) {
        TemporalInteraction::Execute(e) => assert_eq!(e.args, None),
        other => panic!("the variant must be kept: {:?}", other),
    }
}

#[test]
fn to_kv_joins_key_and_value() {
    assert_eq!(KeysToTemporalAction::E.to_kv("Signal"), "E:Signal");
    assert_eq!(KeysToTemporalAction::U.to_kv(""), "U:");
}

#[test]
fn all_keys_iterate_in_registry_order() {
    let letters: Vec<&str> = KeysToTemporalAction::all_keys()
        .iter()
        .map(|k| k.key_str())
        .collect();
    assert_eq!(letters, vec!["E", "W", "N", "T", "Y", "R", "S", "Q", "U"]);
}

#[test]
fn get_value_consumes_the_entry() {
    let mut map = KeyMap::new();
    map.set(KeysToTemporalAction::N, "ns".to_string());
    let first = KeysToTemporalAction::N.get_value(&mut map);
    assert_eq!(first, Ok("ns".to_string()));
    let second = KeysToTemporalAction::N.get_value(&mut map);
    assert!(second.is_err());
}

#[test]
fn set_overwrites_an_earlier_binding() {
    let mut map = KeyMap::new();
    map.set(KeysToTemporalAction::W, "old".to_string());
    map.set(KeysToTemporalAction::W, "new".to_string());
    assert_eq!(KeysToTemporalAction::W.get_value(&mut map), Ok("new".to_string()));
}

#[test]
fn execution_info_carries_its_ids() {
    let info = TemporalWorkflowExecutionInfo {
        workflow_id: "w".to_string(),
        run_id: "r".to_string(),
    };
    let copy = info.clone();
    assert_eq!(info, copy);
}

#[test]
fn responses_compare_by_contents() {
    let started = TemporalInteractionResponse::new_from_exec_response("run-1".to_string());
    let same = TemporalInteractionResponse::new_from_exec_response("run-1".to_string());
    let other = TemporalInteractionResponse::new_from_exec_response("run-2".to_string());
    assert_eq!(started, same);
    assert_ne!(started, other);
    let signaled = TemporalInteractionResponse::new_from_signal_response();
    assert_eq!(signaled, TemporalInteractionResponse::new_from_signal_response());
    assert_ne!(started, signaled);
}

#[test]
fn default_signal_has_every_field_empty_or_absent() {
    let signal = SignalTemporal {
        namespace: "ns".to_string(),
        task_queue: "tq".to_string(),
        signal_name: "sig".to_string(),
        ..Default::default()
    };
    assert_eq!(signal.workflow_id, None);
    assert_eq!(signal.run_id, None);
    assert_eq!(signal.input, None);
    assert_eq!(signal.identity, None);
    let execute = ExecuteTemporalWorkflow::default();
    assert_eq!(execute.namespace, "");
    assert_eq!(execute.args, None);
    let info = TemporalWorkflowExecutionInfo::default();
    assert_eq!(info.workflow_id, "");
    assert_eq!(info.run_id, "");
}

#[test]
fn role_names_become_env_var_names() {
    assert_eq!(convert_role_to_env_var("temporal"), "TEMPORAL");
    assert_eq!(convert_role_to_env_var("my-role"), "MY_ROLE");
    assert_eq!(host_env_var_name("temporal"), "TEMPORAL_SERVICE_HOST");
    assert_eq!(port_env_var_name("some-svc"), "SOME_SVC_SERVICE_PORT");
}
