//! Invoking a method of the shell surface: the request that is sent and the reply that comes back.
use vstd::prelude::*;

use crate::eval_result::{extract_cwd, DecodeError, EvalResult};
#[allow(unused_imports)]
use crate::eval_result::{cwd_of, eval_result_of, EvalResultView};
use crate::schema::SchemaValue;
#[allow(unused_imports)]
use crate::text::{decimal, decimal_text, law_decimal_writes_the_number, number_in};

verus! {

/// The width that is taken for a terminal that cannot be measured, in columns.
pub const DEFAULT_COLUMNS: u16 = 80;

/// The width of the terminal, given what measuring it gave.
pub fn term_width(measured: Option<u16>) -> (r: u16)
    ensures
        r == match measured {
            Some(columns) => columns,
            None => DEFAULT_COLUMNS,
        },
        measured is None ==> r == 80,
{
    match measured {
        Some(columns) => columns,
        None => DEFAULT_COLUMNS,
    }
}

/// The command that tells the agent how wide the terminal is.
pub open spec fn columns_command_text(columns: u16) -> Seq<char> {
    "export COLUMNS="@ + decimal(columns as nat)
}

/// The command that tells the agent how wide the terminal is, so that its columnar output fills the
/// window: the agent has no terminal of its own to measure.
pub fn columns_command(columns: u16) -> (r: String)
    ensures
        r@ == columns_command_text(columns),
{
    let mut out = "export COLUMNS=".to_owned();
    out.append(decimal_text(columns as u64).as_str());
    out
}

/// How the invoker waits for an invocation.
#[derive(Debug, Clone, Copy, PartialEq, Eq, Structural)]
pub enum AgentInvocationMode {
    /// Until the result is there.
    Await,
}

/// The agent that a shell drives. `parameters` are those that its instance was made with.
#[derive(Debug)]
pub struct InvocationTarget<P> {
    pub app_name: String,
    pub env_name: String,
    pub agent_type_name: String,
    pub parameters: P,
    pub phantom_id: Option<u128>,
}

/// A request to invoke a method of an agent.
#[derive(Debug)]
pub struct AgentInvocationRequest<P> {
    pub app_name: String,
    pub env_name: String,
    pub agent_type_name: String,
    pub parameters: P,
    pub phantom_id: Option<u128>,
    pub config: Option<Vec<String>>,
    pub method_name: String,
    pub method_parameters: SchemaValue,
    pub mode: AgentInvocationMode,
    pub schedule_at: Option<String>,
    pub idempotency_key: Option<String>,
    pub deployment_revision: Option<u64>,
    pub owner_account_email: Option<String>,
}

/// Whether `value` is the parameter record that holds `argument` alone, or nothing.
pub open spec fn is_parameter_record(value: SchemaValue, argument: Option<Seq<char>>) -> bool {
    value matches SchemaValue::Record { fields } && match argument {
        Some(text) => fields@.len() == 1 && (fields@[0] matches SchemaValue::String(s) && s@
            == text),
        None => fields@.len() == 0,
    }
}

/// The parameter record of a method that takes one string, or nothing.
pub fn method_parameters(argument: Option<String>) -> (r: SchemaValue)
    ensures
        is_parameter_record(r, argument.deep_view()),
        argument is Some ==> (r matches SchemaValue::Record { fields } && fields@.len() == 1 && (
            fields@[0] matches SchemaValue::String(text) && text@ == argument->0@)),
        argument is None ==> (r matches SchemaValue::Record { fields } && fields@.len() == 0),
{
    let mut fields: Vec<SchemaValue> = Vec::new();
    match argument {
        Some(text) => fields.push(SchemaValue::String(text)),
        None => {},
    }
    SchemaValue::Record { fields }
}

/// The request to invoke `method` of `target` with an optional single string argument and to wait
/// for its result, under the key that makes it idempotent.
pub fn invocation_request<P>(
    target: InvocationTarget<P>,
    method: &str,
    argument: Option<String>,
    idempotency_key: String,
) -> (r: AgentInvocationRequest<P>)
    ensures
        r.app_name == target.app_name,
        r.env_name == target.env_name,
        r.agent_type_name == target.agent_type_name,
        r.parameters == target.parameters,
        r.phantom_id == target.phantom_id,
        r.method_name@ == method@,
        is_parameter_record(r.method_parameters, argument.deep_view()),
        argument is Some ==> (r.method_parameters matches SchemaValue::Record { fields } && fields@.len() == 1 && (
            fields@[0] matches SchemaValue::String(text) && text@ == argument->0@)),
        argument is None ==> (r.method_parameters matches SchemaValue::Record { fields } && fields@.len() == 0),
        r.mode == AgentInvocationMode::Await,
        r.idempotency_key == Some(idempotency_key),
        r.config is None,
        r.schedule_at is None,
        r.deployment_revision is None,
        r.owner_account_email is None,
{
    AgentInvocationRequest {
        app_name: target.app_name,
        env_name: target.env_name,
        agent_type_name: target.agent_type_name,
        parameters: target.parameters,
        phantom_id: target.phantom_id,
        config: None,
        method_name: method.to_owned(),
        method_parameters: method_parameters(argument),
        mode: AgentInvocationMode::Await,
        schedule_at: None,
        idempotency_key: Some(idempotency_key),
        deployment_revision: None,
        owner_account_email: None,
    }
}

/// What an invocation came back with: the result, and the working directory that it may report.
#[derive(Debug)]
pub struct Reply {
    pub result: EvalResult,
    pub cwd: Option<String>,
}

/// What a [`Reply`] holds.
pub struct ReplyView {
    pub result: EvalResultView,
    pub cwd: Option<Seq<char>>,
}

impl View for Reply {
    type V = ReplyView;

    open spec fn view(&self) -> ReplyView {
        ReplyView { result: self.result@, cwd: self.cwd.deep_view() }
    }
}

/// Why the value that an invocation came back with is no reply.
#[derive(Debug)]
pub enum ReplyError {
    /// There is no value.
    NoValue { agent_type: String, method: String },
    /// The value is not an `eval-result`.
    NotAnEvalResult { agent_type: String, method: String, error: DecodeError },
}

/// What a [`ReplyError`] holds.
pub enum ReplyErrorView {
    NoValue { agent_type: Seq<char>, method: Seq<char> },
    NotAnEvalResult { agent_type: Seq<char>, method: Seq<char>, error: DecodeError },
}

impl View for ReplyError {
    type V = ReplyErrorView;

    open spec fn view(&self) -> ReplyErrorView {
        match self {
            ReplyError::NoValue { agent_type, method } => ReplyErrorView::NoValue {
                agent_type: agent_type@,
                method: method@,
            },
            ReplyError::NotAnEvalResult { agent_type, method, error } => {
                ReplyErrorView::NotAnEvalResult {
                    agent_type: agent_type@,
                    method: method@,
                    error: *error,
                }
            },
        }
    }
}

impl ReplyErrorView {
    /// The message.
    pub open spec fn message(self) -> Seq<char> {
        match self {
            ReplyErrorView::NoValue { agent_type, method } => {
                "Agent type "@ + agent_type + " returned no value from `"@ + method
                    + "`; `agent shell` requires it to return an eval-result record."@
            },
            ReplyErrorView::NotAnEvalResult { agent_type, method, error } => {
                "Could not decode the eval-result returned by `"@ + method + "` on agent type "@
                    + agent_type + ": "@ + error.text()
            },
        }
    }
}

impl ReplyError {
    /// The message.
    pub fn to_string(&self) -> (r: String)
        ensures
            r@ == self@.message(),
    {
        let mut out = String::new();
        match self {
            ReplyError::NoValue { agent_type, method } => {
                out.append("Agent type ");
                out.append(agent_type.as_str());
                out.append(" returned no value from `");
                out.append(method.as_str());
                out.append("`; `agent shell` requires it to return an eval-result record.");
            },
            ReplyError::NotAnEvalResult { agent_type, method, error } => {
                out.append("Could not decode the eval-result returned by `");
                out.append(method.as_str());
                out.append("` on agent type ");
                out.append(agent_type.as_str());
                out.append(": ");
                out.append(error.message());
            },
        }
        assert(out@ =~= self@.message());
        out
    }
}

/// What `value`, which `method` of `agent_type` returned, is as a reply.
pub open spec fn reply_in(
    agent_type: Seq<char>,
    method: Seq<char>,
    value: Option<SchemaValue>,
) -> Result<ReplyView, ReplyErrorView> {
    match value {
        None => Err(ReplyErrorView::NoValue { agent_type, method }),
        Some(value) => match eval_result_of(value) {
            Ok(result) => Ok(ReplyView { result, cwd: cwd_of(value) }),
            Err(error) => Err(ReplyErrorView::NotAnEvalResult { agent_type, method, error }),
        },
    }
}

/// Decodes the value that `method` of `agent_type` returned, and pulls the working directory that
/// it may report.
pub fn read_reply(agent_type: &str, method: &str, value: &Option<SchemaValue>) -> (r: Result<
    Reply,
    ReplyError,
>)
    ensures
        match r {
            Ok(reply) => reply_in(agent_type@, method@, *value) == Ok::<_, ReplyErrorView>(reply@),
            Err(error) => reply_in(agent_type@, method@, *value) == Err::<ReplyView, _>(error@),
        },
{
    match value {
        None => Err(
            ReplyError::NoValue { agent_type: agent_type.to_owned(), method: method.to_owned() },
        ),
        Some(value) => match EvalResult::from_value(value) {
            Ok(result) => Ok(Reply { result, cwd: extract_cwd(value) }),
            Err(error) => Err(
                ReplyError::NotAnEvalResult {
                    agent_type: agent_type.to_owned(),
                    method: method.to_owned(),
                    error,
                },
            ),
        },
    }
}

/// The command that tells the width exports it as the number that it is, in decimal.
pub proof fn law_columns_command_exports_the_width(columns: u16)
    ensures
        columns_command_text(columns).take(15) == "export COLUMNS="@,
        columns_command_text(columns).len() > 15,
        forall|i: int|
            15 <= i < columns_command_text(columns).len() ==> '0'
                <= #[trigger] columns_command_text(columns)[i] <= '9',
        number_in(columns_command_text(columns).skip(15)) == columns,
        columns_command_text(columns)[15] == '0' ==> columns == 0
            && columns_command_text(columns).len() == 16,
{
    reveal_strlit("export COLUMNS=");
    law_decimal_writes_the_number(columns as nat);
    let text = columns_command_text(columns);
    let digits = decimal(columns as nat);
    assert(text.take(15) =~= "export COLUMNS="@);
    assert(text.skip(15) =~= digits);
    assert forall|i: int| 15 <= i < text.len() implies '0' <= #[trigger] text[i] <= '9' by {
        assert(text[i] == digits[i - 15]);
    }
    assert(text[15] == digits[0]);
}

/// A reply holds the result that the value decodes to and the working directory that it reports; no
/// value, and a value that does not decode, is an error that names the agent type and the method.
pub proof fn law_reply_is_what_came_back(
    agent_type: Seq<char>,
    method: Seq<char>,
    value: SchemaValue,
)
    ensures
        reply_in(agent_type, method, None) == Err::<ReplyView, _>(
            ReplyErrorView::NoValue { agent_type, method },
        ),
        eval_result_of(value) matches Ok(result) ==> (reply_in(agent_type, method, Some(value))
            matches Ok(reply) && reply.result == result && reply.cwd == cwd_of(value)),
        eval_result_of(value) matches Err(error) ==> reply_in(agent_type, method, Some(value))
            == Err::<ReplyView, _>(
            ReplyErrorView::NotAnEvalResult { agent_type, method, error },
        ),
{
}

/// The message of an error names the agent type and the method, and says what does not fit.
pub proof fn law_reply_message_tells_all_of_it(
    agent_type: Seq<char>,
    method: Seq<char>,
    error: DecodeError,
)
    ensures
        (ReplyErrorView::NoValue { agent_type, method }).message() == "Agent type "@ + agent_type
            + " returned no value from `"@ + method
            + "`; `agent shell` requires it to return an eval-result record."@,
        (ReplyErrorView::NotAnEvalResult { agent_type, method, error }).message()
            == "Could not decode the eval-result returned by `"@ + method + "` on agent type "@
            + agent_type + ": "@ + error.text(),
{
}

/// What is read of a reply and of an error is what they hold, field by field.
pub proof fn law_replies_are_read_as_they_are(
    reply: Reply,
    agent_type: String,
    method: String,
    error: DecodeError,
)
    ensures
        reply@.result == reply.result@,
        reply@.cwd is Some <==> reply.cwd is Some,
        reply.cwd matches Some(cwd) ==> reply@.cwd == Some(cwd@),
        (ReplyError::NoValue { agent_type, method })@ == (ReplyErrorView::NoValue {
            agent_type: agent_type@,
            method: method@,
        }),
        (ReplyError::NotAnEvalResult { agent_type, method, error })@ == (
        ReplyErrorView::NotAnEvalResult { agent_type: agent_type@, method: method@, error }),
{
}

} // verus!
