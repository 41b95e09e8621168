use agent_shell::eval_result::{extract_cwd, DecodeError, EvalResult, PendingPrompt};
use agent_shell::invocation::{
    columns_command, invocation_request, method_parameters, read_reply, term_width,
    AgentInvocationMode, InvocationTarget,
};
use agent_shell::schema::SchemaValue;

/// Build the schema-value an agent would return for an `eval-result`.
fn eval_result_value(
    stdout: &str,
    stderr: &str,
    exit_code: u8,
    pending: Option<SchemaValue>,
) -> SchemaValue {
    SchemaValue::Record {
        fields: vec![
            SchemaValue::String(stdout.to_string()),
            SchemaValue::String(stderr.to_string()),
            SchemaValue::U8(exit_code),
            SchemaValue::Option {
                inner: pending.map(Box::new),
            },
        ],
    }
}

fn pending_prompt_value(question: &str, choices: Option<&[&str]>) -> SchemaValue {
    SchemaValue::Record {
        fields: vec![
            SchemaValue::String(question.to_string()),
            SchemaValue::Option {
                inner: choices.map(|choices| {
                    Box::new(SchemaValue::List {
                        elements: choices
                            .iter()
                            .map(|c| SchemaValue::String(c.to_string()))
                            .collect(),
                    })
                }),
            },
        ],
    }
}

#[test]
fn decodes_a_plain_result() {
    let value = eval_result_value("hi\n", "", 0, None);
    let result = EvalResult::from_value(&value).expect("decode");
    assert_eq!(result.stdout, "hi\n");
    assert_eq!(result.stderr, "");
    assert_eq!(result.exit_code, 0);
    assert!(result.pending_prompt.is_none());
}

#[test]
fn decodes_a_pending_prompt_with_choices() {
    let value = eval_result_value(
        "pick one\n",
        "",
        0,
        Some(pending_prompt_value("pick one", Some(&["alpha", "beta"]))),
    );
    let result = EvalResult::from_value(&value).expect("decode");
    let prompt = result.pending_prompt.expect("pending prompt");
    assert_eq!(prompt.question, "pick one");
    assert_eq!(
        prompt.choices.as_deref(),
        Some(["alpha".to_string(), "beta".to_string()].as_slice())
    );
}

#[test]
fn decodes_a_pending_prompt_without_choices() {
    let value = eval_result_value("q?\n", "", 0, Some(pending_prompt_value("q?", None)));
    let result = EvalResult::from_value(&value).expect("decode");
    let prompt = result.pending_prompt.expect("pending prompt");
    assert_eq!(prompt.question, "q?");
    assert!(prompt.choices.is_none());
}

#[test]
fn a_mismatched_shape_is_an_error() {
    let value = SchemaValue::Record {
        fields: vec![SchemaValue::String("only one field".to_string())],
    };
    assert!(EvalResult::from_value(&value).is_err());
}

/// Append a fifth `cwd` field to a 4-field eval-result record (what a cwd-reporting agent sends).
fn with_cwd(base: SchemaValue, cwd: &str) -> SchemaValue {
    let SchemaValue::Record { mut fields } = base else {
        unreachable!("eval_result_value builds a Record")
    };
    fields.push(SchemaValue::String(cwd.to_string()));
    SchemaValue::Record { fields }
}

#[test]
fn extract_cwd_reads_the_fifth_field() {
    let value = with_cwd(eval_result_value("hi\n", "", 0, None), "/app");
    assert_eq!(extract_cwd(&value), Some("/app".to_string()));
}

#[test]
fn extract_cwd_is_none_for_a_four_field_agent() {
    // The generic contract: an agent that omits cwd (four fields) yields None, never an error.
    let value = eval_result_value("hi\n", "", 0, None);
    assert_eq!(extract_cwd(&value), None);
}

#[test]
fn extract_cwd_treats_empty_as_absent() {
    let value = with_cwd(eval_result_value("", "", 0, None), "");
    assert_eq!(extract_cwd(&value), None);
}

#[test]
fn a_five_field_result_still_decodes_its_core_fields() {
    // The positional decoding ignores the trailing cwd field, so the core result is unchanged.
    let value = with_cwd(eval_result_value("out\n", "err\n", 3, None), "/tmp");
    let result = EvalResult::from_value(&value).expect("decode ignores the trailing field");
    assert_eq!(result.stdout, "out\n");
    assert_eq!(result.stderr, "err\n");
    assert_eq!(result.exit_code, 3);
    assert_eq!(extract_cwd(&value), Some("/tmp".to_string()));
}

#[test]
fn cwd_of_another_kind_or_of_no_record_is_absent() {
    let SchemaValue::Record { mut fields } = eval_result_value("", "", 0, None) else {
        unreachable!()
    };
    fields.push(SchemaValue::U8(7));
    assert_eq!(extract_cwd(&SchemaValue::Record { fields }), None);
    assert_eq!(extract_cwd(&SchemaValue::String("/app".to_string())), None);
}

fn error_of(fields: Vec<SchemaValue>) -> DecodeError {
    EvalResult::from_value(&SchemaValue::Record { fields }).unwrap_err()
}

fn text(s: &str) -> SchemaValue {
    SchemaValue::String(s.to_string())
}

fn some(value: SchemaValue) -> SchemaValue {
    SchemaValue::Option {
        inner: Some(Box::new(value)),
    }
}

fn none() -> SchemaValue {
    SchemaValue::Option { inner: None }
}

#[test]
fn each_part_of_a_result_that_does_not_fit_has_its_error() {
    let u8 = || SchemaValue::U8(0);
    assert_eq!(
        EvalResult::from_value(&SchemaValue::Other).unwrap_err(),
        DecodeError::ResultNotARecord
    );
    assert_eq!(
        error_of(vec![text("a"), text("b"), u8()]),
        DecodeError::ResultTooShort
    );
    assert_eq!(
        error_of(vec![u8(), text("b"), u8(), none()]),
        DecodeError::StdoutNotAString
    );
    assert_eq!(
        error_of(vec![text("a"), u8(), u8(), none()]),
        DecodeError::StderrNotAString
    );
    assert_eq!(
        error_of(vec![text("a"), text("b"), text("0"), none()]),
        DecodeError::ExitCodeNotAU8
    );
    assert_eq!(
        error_of(vec![text("a"), text("b"), u8(), text("q?")]),
        DecodeError::PendingPromptNotAnOption
    );
    let pending = |prompt: SchemaValue| error_of(vec![text("a"), text("b"), u8(), some(prompt)]);
    assert_eq!(pending(text("q?")), DecodeError::PromptNotARecord);
    let prompt = |fields: Vec<SchemaValue>| pending(SchemaValue::Record { fields });
    assert_eq!(prompt(vec![text("q?")]), DecodeError::PromptTooShort);
    assert_eq!(prompt(vec![u8(), none()]), DecodeError::QuestionNotAString);
    assert_eq!(prompt(vec![text("q?"), u8()]), DecodeError::ChoicesNotAnOption);
    assert_eq!(
        prompt(vec![text("q?"), some(u8())]),
        DecodeError::ChoicesNotAList
    );
    assert_eq!(
        prompt(vec![
            text("q?"),
            some(SchemaValue::List {
                elements: vec![text("a"), u8()]
            })
        ]),
        DecodeError::ChoiceNotAString
    );
}

#[test]
fn each_decode_error_has_its_message() {
    let messages = [
        (DecodeError::ResultNotARecord, "the result is not a record"),
        (DecodeError::ResultTooShort, "the result has fewer than four fields"),
        (DecodeError::StdoutNotAString, "`stdout` is not a string"),
        (DecodeError::StderrNotAString, "`stderr` is not a string"),
        (DecodeError::ExitCodeNotAU8, "`exit-code` is not a u8"),
        (DecodeError::PendingPromptNotAnOption, "`pending-prompt` is not an option"),
        (DecodeError::PromptNotARecord, "the pending prompt is not a record"),
        (DecodeError::PromptTooShort, "the pending prompt has fewer than two fields"),
        (DecodeError::QuestionNotAString, "`question` is not a string"),
        (DecodeError::ChoicesNotAnOption, "`choices` is not an option"),
        (DecodeError::ChoicesNotAList, "`choices` does not hold a list"),
        (DecodeError::ChoiceNotAString, "one of the `choices` is not a string"),
    ];
    for (error, message) in messages {
        assert_eq!(error.message(), message);
    }
}

#[test]
fn a_prompt_decodes_on_its_own() {
    let prompt = PendingPrompt::from_value(&pending_prompt_value("q?", Some(&[]))).unwrap();
    assert_eq!(prompt.question, "q?");
    assert_eq!(prompt.choices, Some(Vec::new()));
}

#[test]
fn a_reply_carries_the_result_and_the_directory() {
    let value = Some(with_cwd(eval_result_value("hi\n", "", 2, None), "/app"));
    let reply = read_reply("ClankAgent", "eval", &value).unwrap();
    assert_eq!(reply.result.stdout, "hi\n");
    assert_eq!(reply.result.exit_code, 2);
    assert_eq!(reply.cwd, Some("/app".to_string()));
}

#[test]
fn a_missing_value_is_an_error_of_the_reply() {
    let error = read_reply("ClankAgent", "eval", &None).unwrap_err();
    assert_eq!(
        error.to_string(),
        "Agent type ClankAgent returned no value from `eval`; `agent shell` requires it to return \
         an eval-result record."
    );
}

#[test]
fn an_undecodable_value_is_an_error_of_the_reply() {
    let error = read_reply("ClankAgent", "abort_prompt", &Some(SchemaValue::Other)).unwrap_err();
    assert_eq!(
        error.to_string(),
        "Could not decode the eval-result returned by `abort_prompt` on agent type ClankAgent: \
         the result is not a record"
    );
}

#[test]
fn parameters_hold_the_argument_alone() {
    assert!(matches!(
        method_parameters(None),
        SchemaValue::Record { fields } if fields.is_empty()
    ));
    let SchemaValue::Record { fields } = method_parameters(Some("ls".to_string())) else {
        panic!("not a record")
    };
    assert_eq!(fields.len(), 1);
    assert!(matches!(&fields[0], SchemaValue::String(s) if s == "ls"));
}

#[test]
fn a_request_names_its_target_and_awaits_its_result() {
    let target = InvocationTarget {
        app_name: "app".to_string(),
        env_name: "env".to_string(),
        agent_type_name: "ClankAgent".to_string(),
        parameters: 42u32,
        phantom_id: Some(7),
    };
    let request = invocation_request(target, "eval", Some("ls".to_string()), "key".to_string());
    assert_eq!(request.app_name, "app");
    assert_eq!(request.env_name, "env");
    assert_eq!(request.agent_type_name, "ClankAgent");
    assert_eq!(request.parameters, 42);
    assert_eq!(request.phantom_id, Some(7));
    assert_eq!(request.method_name, "eval");
    assert_eq!(request.mode, AgentInvocationMode::Await);
    assert_eq!(request.idempotency_key, Some("key".to_string()));
    assert!(request.config.is_none());
    assert!(request.schedule_at.is_none());
    assert!(request.deployment_revision.is_none());
    assert!(request.owner_account_email.is_none());
    assert!(matches!(
        &request.method_parameters,
        SchemaValue::Record { fields } if fields.len() == 1
    ));
}

#[test]
fn the_width_falls_back_to_eighty_columns() {
    assert_eq!(term_width(None), 80);
    assert_eq!(term_width(Some(132)), 132);
    assert_eq!(columns_command(132), "export COLUMNS=132");
    assert_eq!(columns_command(0), "export COLUMNS=0");
}
