use agent_shell::schema::{
    AgentMethodSchema, AgentMode, AgentTypeName, AgentTypeSchema, InputSchema, NamedField,
    SchemaType,
};
use agent_shell::surface::{
    single_string_parameter, validate_interactive_surface, zero_parameters, SurfaceError,
    ABORT_PROMPT, ANSWER_PROMPT, EVAL,
};

fn method(name: &str, params: Vec<NamedField>) -> AgentMethodSchema {
    AgentMethodSchema {
        name: name.to_string(),
        input_schema: InputSchema::Parameters(params),
    }
}

fn string_param(name: &str) -> NamedField {
    NamedField {
        name: name.to_string(),
        schema: SchemaType::String,
    }
}

fn u8_param(name: &str) -> NamedField {
    NamedField {
        name: name.to_string(),
        schema: SchemaType::U8,
    }
}

fn agent_type(mode: AgentMode, methods: Vec<AgentMethodSchema>) -> AgentTypeSchema {
    AgentTypeSchema {
        name: AgentTypeName("TestAgent".to_string()),
        methods,
        mode,
    }
}

fn shell_surface() -> Vec<AgentMethodSchema> {
    vec![
        method(EVAL, vec![string_param("cmd")]),
        method(ANSWER_PROMPT, vec![string_param("response")]),
        method(ABORT_PROMPT, Vec::new()),
    ]
}

#[test]
fn a_conforming_durable_surface_validates() {
    let agent = agent_type(AgentMode::Durable, shell_surface());
    assert!(validate_interactive_surface(&agent).is_ok());
}

#[test]
fn an_ephemeral_agent_is_rejected_up_front() {
    let agent = agent_type(AgentMode::Ephemeral, shell_surface());
    let err = validate_interactive_surface(&agent)
        .unwrap_err()
        .to_string();
    assert!(err.contains("ephemeral"), "err: {err}");
}

#[test]
fn an_abort_prompt_with_parameters_is_rejected_at_connect() {
    let agent = agent_type(
        AgentMode::Durable,
        vec![
            method(EVAL, vec![string_param("cmd")]),
            method(ANSWER_PROMPT, vec![string_param("response")]),
            method(ABORT_PROMPT, vec![string_param("reason")]),
        ],
    );
    let err = validate_interactive_surface(&agent)
        .unwrap_err()
        .to_string();
    assert!(
        err.contains("abort_prompt") && err.contains("no parameters"),
        "err: {err}"
    );
}

#[test]
fn a_wrong_typed_parameter_is_diagnosed_as_a_type_problem() {
    let agent = agent_type(
        AgentMode::Durable,
        vec![
            method(EVAL, vec![u8_param("cmd")]),
            method(ANSWER_PROMPT, vec![string_param("response")]),
            method(ABORT_PROMPT, Vec::new()),
        ],
    );
    let err = validate_interactive_surface(&agent)
        .unwrap_err()
        .to_string();
    assert!(err.contains("is not a string"), "err: {err}");
    assert!(!err.contains("takes 1"), "must not misreport arity: {err}");
}

#[test]
fn a_missing_method_is_named_in_the_error() {
    let agent = agent_type(
        AgentMode::Durable,
        vec![method(EVAL, vec![string_param("cmd")])],
    );
    let err = validate_interactive_surface(&agent)
        .unwrap_err()
        .to_string();
    assert!(
        err.contains("answer_prompt") && err.contains("abort_prompt"),
        "err: {err}"
    );
}

#[test]
fn the_messages_are_exact() {
    let ephemeral = agent_type(AgentMode::Ephemeral, Vec::new());
    assert_eq!(
        validate_interactive_surface(&ephemeral).unwrap_err().to_string(),
        "Agent type TestAgent cannot be used with `agent shell`: it is ephemeral, so each \
         invocation runs on a fresh instance — shell state would reset between lines and a \
         pending question could never be answered."
    );
    let bare = agent_type(AgentMode::Durable, Vec::new());
    assert_eq!(
        validate_interactive_surface(&bare).unwrap_err().to_string(),
        "Agent type TestAgent cannot be used with `agent shell`: it has no eval, answer_prompt, \
         abort_prompt method(s).\n`agent shell` requires an agent exposing `eval(string)`, \
         `answer_prompt(string)` and `abort_prompt()` (snake_case, matched verbatim), each \
         returning an eval-result record {stdout, stderr, exit-code, pending-prompt}."
    );
    let typed = agent_type(
        AgentMode::Durable,
        vec![
            method(EVAL, vec![string_param("cmd")]),
            method(ANSWER_PROMPT, vec![u8_param("response")]),
            method(ABORT_PROMPT, Vec::new()),
        ],
    );
    assert_eq!(
        validate_interactive_surface(&typed).unwrap_err().to_string(),
        "Agent type TestAgent cannot be used with `agent shell`: `answer_prompt` must take one \
         string parameter, but its parameter `response` is not a string."
    );
    let counted = agent_type(
        AgentMode::Durable,
        vec![
            method(EVAL, vec![string_param("cmd"), string_param("cwd")]),
            method(ANSWER_PROMPT, vec![u8_param("response")]),
            method(ABORT_PROMPT, Vec::new()),
        ],
    );
    assert_eq!(
        validate_interactive_surface(&counted).unwrap_err().to_string(),
        "Agent type TestAgent cannot be used with `agent shell`: `eval` must take exactly one \
         string parameter, but it takes 2 parameters."
    );
    let aborting = agent_type(
        AgentMode::Durable,
        vec![
            method(EVAL, vec![string_param("cmd")]),
            method(ANSWER_PROMPT, vec![string_param("response")]),
            method(ABORT_PROMPT, vec![string_param("a"), u8_param("b")]),
        ],
    );
    assert_eq!(
        validate_interactive_surface(&aborting).unwrap_err().to_string(),
        "Agent type TestAgent cannot be used with `agent shell`: `abort_prompt` must take no \
         parameters, but it takes 2."
    );
}

#[test]
fn a_message_can_be_highlighted() {
    let bare = agent_type(AgentMode::Durable, Vec::new());
    let error = validate_interactive_surface(&bare).unwrap_err();
    assert_eq!(error.agent_type(), "TestAgent");
    assert_eq!(error.missing(), "eval, answer_prompt, abort_prompt");
    let message = error.message("<TestAgent>", "<all>");
    assert!(message.starts_with("Agent type <TestAgent> cannot"));
    assert!(message.contains("it has no <all> method(s)."));
}

#[test]
fn names_are_matched_verbatim_and_further_methods_do_not_matter() {
    let mut methods = shell_surface();
    methods.push(method("evaluate", Vec::new()));
    methods.push(method(EVAL, Vec::new()));
    assert!(validate_interactive_surface(&agent_type(AgentMode::Durable, methods)).is_ok());
    let mut kebab = shell_surface();
    kebab[1].name = "answer-prompt".to_string();
    let error = validate_interactive_surface(&agent_type(AgentMode::Durable, kebab)).unwrap_err();
    assert!(matches!(
        error,
        SurfaceError::MissingMethods { missing, .. } if missing == vec!["answer_prompt"]
    ));
}

#[test]
fn the_parameter_checks_stand_alone() {
    let agent = agent_type(AgentMode::Durable, Vec::new());
    assert!(single_string_parameter(&agent, &method("m", vec![string_param("p")])).is_ok());
    assert!(matches!(
        single_string_parameter(&agent, &method("m", Vec::new())),
        Err(SurfaceError::NotOneParameter { count: 0, .. })
    ));
    assert!(zero_parameters(&agent, &method("m", Vec::new())).is_ok());
    assert!(matches!(
        zero_parameters(&agent, &method("m", vec![u8_param("p")])),
        Err(SurfaceError::NotZeroParameters { count: 1, .. })
    ));
}
