use temporal_template::codec::{
    build_slack_info_string, decode_slack_info_string, DecodeError, SLACK_INFO_DELIMITER,
    TEMPORAL_KEY_DELIMITER,
};
use temporal_template::descriptor::{
    ExecuteTemporalWorkflow, QueryTemporal, SignalTemporal, TemporalInteraction,
};
use temporal_template::keys::KeysToTemporalAction;

fn example_execute() -> TemporalInteraction {
    TemporalInteraction::Execute(ExecuteTemporalWorkflow {
        namespace: "ns".to_string(),
        task_queue: "tq".to_string(),
        workflow_id: "wf1".to_string(),
        workflow_type: "Greet".to_string(),
        args: None,
    })
}

#[test]
fn execute_encodes_to_expected_token() {
    let token = build_slack_info_string(example_execute());
    assert_eq!(token, "E:Execute,W:wf1,N:ns,T:tq,Y:Greet");
}

#[test]
fn execute_round_trips() {
    let token = build_slack_info_string(example_execute());
    let decoded = decode_slack_info_string(&token).expect("the token must decode");
    assert_eq!(decoded, example_execute());
}

#[test]
fn encode_is_deterministic() {
    let first = build_slack_info_string(example_execute());
    let second = build_slack_info_string(example_execute());
    assert_eq!(first, second);
}

#[test]
fn to_slack_string_matches_free_function() {
    let token = example_execute().to_slack_string();
    assert_eq!(token, build_slack_info_string(example_execute()));
}

#[test]
fn signal_round_trips_with_all_fields() {
    let signal = TemporalInteraction::Signal(SignalTemporal {
        namespace: "default".to_string(),
        task_queue: "tq1".to_string(),
        workflow_id: Some("wf-123".to_string()),
        run_id: Some("run-9".to_string()),
        signal_name: "approve-signal".to_string(),
        input: None,
        identity: None,
        request_id: None,
        control: None,
    });
    let token = build_slack_info_string(TemporalInteraction::Signal(SignalTemporal {
        namespace: "default".to_string(),
        task_queue: "tq1".to_string(),
        workflow_id: Some("wf-123".to_string()),
        run_id: Some("run-9".to_string()),
        signal_name: "approve-signal".to_string(),
        input: None,
        identity: None,
        request_id: None,
        control: None,
    }));
    assert_eq!(token, "E:Signal,W:wf-123,N:default,T:tq1,R:run-9,S:approve-signal");
    assert_eq!(decode_slack_info_string(&token).expect("must decode"), signal);
}

#[test]
fn signal_absent_optionals_encode_empty_and_decode_absent() {
    let token = build_slack_info_string(TemporalInteraction::Signal(SignalTemporal {
        namespace: "ns".to_string(),
        task_queue: "tq".to_string(),
        workflow_id: None,
        run_id: None,
        signal_name: "go".to_string(),
        input: None,
        identity: None,
        request_id: None,
        control: None,
    }));
    assert_eq!(token, "E:Signal,W:,N:ns,T:tq,R:,S:go");
    let decoded = decode_slack_info_string(&token).expect("must decode");
    match decoded {
        TemporalInteraction::Signal(s) => {
            assert_eq!(s.workflow_id, None);
            assert_eq!(s.run_id, None);
            assert_eq!(s.signal_name, "go");
        }
        other => panic!("decoded to the wrong variant: {:?}", other),
    }
}

#[test]
fn signal_empty_some_decodes_as_absent() {
    // an empty present value encodes exactly as an absent one
    let token = build_slack_info_string(TemporalInteraction::Signal(SignalTemporal {
        namespace: "ns".to_string(),
        task_queue: "tq".to_string(),
        workflow_id: Some(String::new()),
        run_id: None,
        signal_name: "go".to_string(),
        input: None,
        identity: None,
        request_id: None,
        control: None,
    }));
    match decode_slack_info_string(&token).expect("must decode") {
        TemporalInteraction::Signal(s) => assert_eq!(s.workflow_id, None),
        other => panic!("decoded to the wrong variant: {:?}", other),
    }
}

#[test]
fn query_round_trips() {
    let query = TemporalInteraction::Query(QueryTemporal {
        namespace: "ns".to_string(),
        task_queue: "tq".to_string(),
        workflow_id: Some("w1".to_string()),
        run_id: Some("r1".to_string()),
        query_type: "state".to_string(),
        query_args: None,
    });
    let token = build_slack_info_string(TemporalInteraction::Query(QueryTemporal {
        namespace: "ns".to_string(),
        task_queue: "tq".to_string(),
        workflow_id: Some("w1".to_string()),
        run_id: Some("r1".to_string()),
        query_type: "state".to_string(),
        query_args: None,
    }));
    assert_eq!(token, "E:Query,W:w1,N:ns,T:tq,R:r1,Q:state,U:");
    assert_eq!(decode_slack_info_string(&token).expect("must decode"), query);
}

#[test]
fn query_token_carries_first_argument_text_only() {
    let token = build_slack_info_string(TemporalInteraction::Query(QueryTemporal {
        namespace: "ns".to_string(),
        task_queue: "tq".to_string(),
        workflow_id: None,
        run_id: None,
        query_type: "state".to_string(),
        query_args: Some(vec![
            serde_json::Value::Bool(true),
            serde_json::Value::Bool(false),
        ]),
    }));
    // lossy by design: only the first argument's textual form is emitted,
    // and decode does not reconstruct it
    assert_eq!(token, "E:Query,W:,N:ns,T:tq,R:,Q:state,U:true");
    match decode_slack_info_string(&token).expect("must decode") {
        TemporalInteraction::Query(q) => assert_eq!(q.query_args, None),
        other => panic!("decoded to the wrong variant: {:?}", other),
    }
}

#[test]
fn missing_required_key_is_reported() {
    let result = decode_slack_info_string("E:Signal,N:default,T:tq1");
    assert_eq!(result, Err(DecodeError::KeyMissing(KeysToTemporalAction::S)));
}

#[test]
fn unknown_variant_is_reported_with_its_name() {
    let result = decode_slack_info_string("E:Bogus,N:ns,T:tq");
    assert_eq!(result, Err(DecodeError::UnknownVariant("Bogus".to_string())));
}

#[test]
fn absent_event_type_reads_as_empty_variant_name() {
    let result = decode_slack_info_string("N:ns,T:tq");
    assert_eq!(result, Err(DecodeError::UnknownVariant(String::new())));
}

#[test]
fn pair_without_delimiter_is_malformed() {
    let result = decode_slack_info_string("E:Signal,ZZZ");
    assert_eq!(result, Err(DecodeError::MalformedPair("ZZZ".to_string())));
}

#[test]
fn empty_token_is_malformed() {
    let result = decode_slack_info_string("");
    assert_eq!(result, Err(DecodeError::MalformedPair(String::new())));
}

#[test]
fn lone_comma_is_two_malformed_pairs_and_the_first_is_reported() {
    let result = decode_slack_info_string(",");
    assert_eq!(result, Err(DecodeError::MalformedPair(String::new())));
}

#[test]
fn empty_key_is_unknown() {
    let result = decode_slack_info_string(":value");
    assert_eq!(result, Err(DecodeError::UnknownKey(String::new())));
}

#[test]
fn unregistered_key_is_reported() {
    let result = decode_slack_info_string("E:Signal,X:ignored");
    assert_eq!(result, Err(DecodeError::UnknownKey("X".to_string())));
}

#[test]
fn long_key_is_reported_as_unknown() {
    let result = decode_slack_info_string("E:Signal,AB:v");
    assert_eq!(result, Err(DecodeError::UnknownKey("AB".to_string())));
}

#[test]
fn extra_pair_under_unread_registered_key_is_ignored() {
    let decoded = decode_slack_info_string("E:Execute,W:wf1,N:ns,T:tq,Y:Greet,S:ignored")
        .expect("the extra S pair must not fail an Execute token");
    assert_eq!(decoded, example_execute());
}

#[test]
fn later_pair_overwrites_earlier_one() {
    let decoded = decode_slack_info_string("E:Execute,W:old,N:ns,T:tq,Y:Greet,W:wf1")
        .expect("must decode");
    assert_eq!(decoded, example_execute());
}

#[test]
fn value_may_contain_the_key_delimiter() {
    // only the first `:` of a field is significant
    let decoded =
        decode_slack_info_string("E:Execute,W:wf1,N:a:b,T:tq,Y:Greet").expect("must decode");
    match decoded {
        TemporalInteraction::Execute(e) => assert_eq!(e.namespace, "a:b"),
        other => panic!("decoded to the wrong variant: {:?}", other),
    }
}

#[test]
fn delimiters_are_the_documented_characters() {
    assert_eq!(SLACK_INFO_DELIMITER, ",");
    assert_eq!(TEMPORAL_KEY_DELIMITER, ":");
}
