//! The shell surface: what an agent type must present before a shell can be driven on it.
//!
//! | Method | Signature | Role |
//! |---|---|---|
//! | `eval` | `(string) -> eval-result` | run one command line, return its output |
//! | `answer_prompt` | `(string) -> eval-result` | deliver a human answer to an outstanding question |
//! | `abort_prompt` | `() -> eval-result` | cancel an outstanding question |
//!
//! The names are matched verbatim. The agent type must be durable: on an ephemeral one each
//! invocation runs on a fresh instance, so session state could not persist between lines and a
//! pending question could never be answered.
use vstd::prelude::*;

use crate::schema::{AgentMethodSchema, AgentMode, AgentTypeSchema, InputSchema, SchemaType};
#[allow(unused_imports)]
use crate::text::{
    decimal, decimal_text, join, joined, law_joining_adds_part_by_part, same_text,
};

verus! {

/// Run one command line and return its output.
pub const EVAL: &'static str = "eval";

/// Deliver a human answer to an outstanding question raised by [`EVAL`].
pub const ANSWER_PROMPT: &'static str = "answer_prompt";

/// Cancel an outstanding question raised by [`EVAL`].
pub const ABORT_PROMPT: &'static str = "abort_prompt";

/// Why an agent type does not present the shell surface.
#[derive(Debug)]
pub enum SurfaceError {
    /// The agent type is ephemeral.
    Ephemeral { agent_type: String },
    /// The agent type lacks these methods of the surface.
    MissingMethods { agent_type: String, missing: Vec<String> },
    /// The only parameter of the method is not a string.
    ParameterNotAString { agent_type: String, method: String, parameter: String },
    /// The method takes this many parameters, where one is wanted.
    NotOneParameter { agent_type: String, method: String, count: usize },
    /// The method takes this many parameters, where none is wanted.
    NotZeroParameters { agent_type: String, method: String, count: usize },
}

/// What a [`SurfaceError`] holds.
pub enum SurfaceErrorView {
    Ephemeral { agent_type: Seq<char> },
    MissingMethods { agent_type: Seq<char>, missing: Seq<Seq<char>> },
    ParameterNotAString { agent_type: Seq<char>, method: Seq<char>, parameter: Seq<char> },
    NotOneParameter { agent_type: Seq<char>, method: Seq<char>, count: nat },
    NotZeroParameters { agent_type: Seq<char>, method: Seq<char>, count: nat },
}

impl View for SurfaceError {
    type V = SurfaceErrorView;

    open spec fn view(&self) -> SurfaceErrorView {
        match self {
            SurfaceError::Ephemeral { agent_type } => SurfaceErrorView::Ephemeral {
                agent_type: agent_type@,
            },
            SurfaceError::MissingMethods { agent_type, missing } => {
                SurfaceErrorView::MissingMethods {
                    agent_type: agent_type@,
                    missing: missing.deep_view(),
                }
            },
            SurfaceError::ParameterNotAString { agent_type, method, parameter } => {
                SurfaceErrorView::ParameterNotAString {
                    agent_type: agent_type@,
                    method: method@,
                    parameter: parameter@,
                }
            },
            SurfaceError::NotOneParameter { agent_type, method, count } => {
                SurfaceErrorView::NotOneParameter {
                    agent_type: agent_type@,
                    method: method@,
                    count: *count as nat,
                }
            },
            SurfaceError::NotZeroParameters { agent_type, method, count } => {
                SurfaceErrorView::NotZeroParameters {
                    agent_type: agent_type@,
                    method: method@,
                    count: *count as nat,
                }
            },
        }
    }
}

impl SurfaceErrorView {
    /// The name of the agent type that does not present the surface.
    pub open spec fn agent_type(self) -> Seq<char> {
        match self {
            SurfaceErrorView::Ephemeral { agent_type } => agent_type,
            SurfaceErrorView::MissingMethods { agent_type, .. } => agent_type,
            SurfaceErrorView::ParameterNotAString { agent_type, .. } => agent_type,
            SurfaceErrorView::NotOneParameter { agent_type, .. } => agent_type,
            SurfaceErrorView::NotZeroParameters { agent_type, .. } => agent_type,
        }
    }

    /// The names of the missing methods, separated by commas.
    pub open spec fn missing(self) -> Seq<char> {
        match self {
            SurfaceErrorView::MissingMethods { missing, .. } => joined(missing, ", "@),
            _ => Seq::empty(),
        }
    }

    /// The message, with the agent type and the missing methods shown as `agent_type` and
    /// `missing`.
    pub open spec fn message(self, agent_type: Seq<char>, missing: Seq<char>) -> Seq<char> {
        "Agent type "@ + agent_type + " cannot be used with `agent shell`: "@ + match self {
            SurfaceErrorView::Ephemeral { .. } => {
                "it is ephemeral, so each invocation runs on a fresh instance — shell state would reset between lines and a pending question could never be answered."@
            },
            SurfaceErrorView::MissingMethods { .. } => {
                "it has no "@ + missing + " method(s).\n`agent shell` requires an agent exposing `"@
                    + EVAL@ + "(string)`, `"@ + ANSWER_PROMPT@ + "(string)` and `"@ + ABORT_PROMPT@
                    + "()` (snake_case, matched verbatim), each returning an eval-result record {stdout, stderr, exit-code, pending-prompt}."@
            },
            SurfaceErrorView::ParameterNotAString { method, parameter, .. } => {
                "`"@ + method + "` must take one string parameter, but its parameter `"@ + parameter
                    + "` is not a string."@
            },
            SurfaceErrorView::NotOneParameter { method, count, .. } => {
                "`"@ + method + "` must take exactly one string parameter, but it takes "@
                    + decimal(count) + " parameters."@
            },
            SurfaceErrorView::NotZeroParameters { method, count, .. } => {
                "`"@ + method + "` must take no parameters, but it takes "@ + decimal(count) + "."@
            },
        }
    }
}

impl SurfaceError {
    /// The name of the agent type that does not present the surface.
    pub fn agent_type(&self) -> (r: &str)
        ensures
            r@ == self@.agent_type(),
    {
        match self {
            SurfaceError::Ephemeral { agent_type } => agent_type.as_str(),
            SurfaceError::MissingMethods { agent_type, .. } => agent_type.as_str(),
            SurfaceError::ParameterNotAString { agent_type, .. } => agent_type.as_str(),
            SurfaceError::NotOneParameter { agent_type, .. } => agent_type.as_str(),
            SurfaceError::NotZeroParameters { agent_type, .. } => agent_type.as_str(),
        }
    }

    /// The names of the missing methods, separated by commas; empty for any other error.
    pub fn missing(&self) -> (r: String)
        ensures
            r@ == self@.missing(),
    {
        match self {
            SurfaceError::MissingMethods { missing, .. } => join(missing, ", "),
            _ => String::new(),
        }
    }

    /// The message to show. `agent_type` and `missing` stand for the name of the agent type and for
    /// the list of missing methods, so that a caller can highlight them.
    pub fn message(&self, agent_type: &str, missing: &str) -> (r: String)
        ensures
            r@ == self@.message(agent_type@, missing@),
    {
        let mut objection = String::new();
        match self {
            SurfaceError::Ephemeral { .. } => {
                objection.append(
                    "it is ephemeral, so each invocation runs on a fresh instance — shell state would reset between lines and a pending question could never be answered.",
                );
            },
            SurfaceError::MissingMethods { .. } => {
                objection.append("it has no ");
                objection.append(missing);
                objection.append(" method(s).\n`agent shell` requires an agent exposing `");
                objection.append(EVAL);
                objection.append("(string)`, `");
                objection.append(ANSWER_PROMPT);
                objection.append("(string)` and `");
                objection.append(ABORT_PROMPT);
                objection.append(
                    "()` (snake_case, matched verbatim), each returning an eval-result record {stdout, stderr, exit-code, pending-prompt}.",
                );
            },
            SurfaceError::ParameterNotAString { method, parameter, .. } => {
                objection.append("`");
                objection.append(method.as_str());
                objection.append("` must take one string parameter, but its parameter `");
                objection.append(parameter.as_str());
                objection.append("` is not a string.");
            },
            SurfaceError::NotOneParameter { method, count, .. } => {
                objection.append("`");
                objection.append(method.as_str());
                objection.append("` must take exactly one string parameter, but it takes ");
                objection.append(decimal_text(*count as u64).as_str());
                objection.append(" parameters.");
            },
            SurfaceError::NotZeroParameters { method, count, .. } => {
                objection.append("`");
                objection.append(method.as_str());
                objection.append("` must take no parameters, but it takes ");
                objection.append(decimal_text(*count as u64).as_str());
                objection.append(".");
            },
        }
        let mut out = String::new();
        out.append("Agent type ");
        out.append(agent_type);
        out.append(" cannot be used with `agent shell`: ");
        out.append(objection.as_str());
        assert(out@ =~= self@.message(agent_type@, missing@));
        out
    }

    /// The message, without highlighting.
    pub fn to_string(&self) -> (r: String)
        ensures
            r@ == self@.message(self@.agent_type(), self@.missing()),
    {
        self.message(self.agent_type(), self.missing().as_str())
    }
}

/// The first method of `methods` that is called `name`.
pub open spec fn method_named(methods: Seq<AgentMethodSchema>, name: Seq<char>) -> Option<
    AgentMethodSchema,
>
    decreases methods.len(),
{
    if methods.len() == 0 {
        None
    } else if methods[0].name@ == name {
        Some(methods[0])
    } else {
        method_named(methods.skip(1), name)
    }
}

/// `name` alone where no method of `methods` is called so, else nothing.
pub open spec fn missing_name(methods: Seq<AgentMethodSchema>, name: Seq<char>) -> Seq<Seq<char>> {
    if method_named(methods, name) is None {
        seq![name]
    } else {
        Seq::empty()
    }
}

/// The methods of the surface that `methods` lacks, in the order of the surface.
pub open spec fn missing_methods(methods: Seq<AgentMethodSchema>) -> Seq<Seq<char>> {
    missing_name(methods, EVAL@) + missing_name(methods, ANSWER_PROMPT@) + missing_name(
        methods,
        ABORT_PROMPT@,
    )
}

/// The objection to `method` where it is to take exactly one string.
pub open spec fn single_string_objection(
    agent_type: Seq<char>,
    method: AgentMethodSchema,
) -> Option<SurfaceErrorView> {
    let parameters = method.parameters();
    if parameters.len() != 1 {
        Some(
            SurfaceErrorView::NotOneParameter {
                agent_type,
                method: method.name@,
                count: parameters.len(),
            },
        )
    } else if parameters[0].schema != SchemaType::String {
        Some(
            SurfaceErrorView::ParameterNotAString {
                agent_type,
                method: method.name@,
                parameter: parameters[0].name@,
            },
        )
    } else {
        None
    }
}

/// The objection to `method` where it is to take nothing.
pub open spec fn zero_parameters_objection(
    agent_type: Seq<char>,
    method: AgentMethodSchema,
) -> Option<SurfaceErrorView> {
    if method.parameters().len() != 0 {
        Some(
            SurfaceErrorView::NotZeroParameters {
                agent_type,
                method: method.name@,
                count: method.parameters().len(),
            },
        )
    } else {
        None
    }
}

/// The objection to `agent_type` as the agent type of a shell: the first that applies of being
/// ephemeral, lacking methods, and having a method of another signature.
pub open spec fn surface_objection(agent_type: AgentTypeSchema) -> Option<SurfaceErrorView> {
    let name = agent_type.name.0@;
    let methods = agent_type.methods@;
    if agent_type.mode == AgentMode::Ephemeral {
        Some(SurfaceErrorView::Ephemeral { agent_type: name })
    } else if missing_methods(methods).len() > 0 {
        Some(
            SurfaceErrorView::MissingMethods {
                agent_type: name,
                missing: missing_methods(methods),
            },
        )
    } else {
        let eval = single_string_objection(name, method_named(methods, EVAL@)->0);
        let answer = single_string_objection(name, method_named(methods, ANSWER_PROMPT@)->0);
        let abort = zero_parameters_objection(name, method_named(methods, ABORT_PROMPT@)->0);
        if eval is Some {
            eval
        } else if answer is Some {
            answer
        } else {
            abort
        }
    }
}

/// Whether `method` takes exactly one string.
pub open spec fn takes_one_string(method: AgentMethodSchema) -> bool {
    method.parameters().len() == 1 && method.parameters()[0].schema == SchemaType::String
}

/// Whether `agent_type` presents the shell surface.
pub open spec fn presents_surface(agent_type: AgentTypeSchema) -> bool {
    let methods = agent_type.methods@;
    &&& agent_type.mode == AgentMode::Durable
    &&& method_named(methods, EVAL@) matches Some(eval) && takes_one_string(eval)
    &&& method_named(methods, ANSWER_PROMPT@) matches Some(answer) && takes_one_string(answer)
    &&& method_named(methods, ABORT_PROMPT@) matches Some(abort) && abort.parameters().len() == 0
}

/// The first of `methods` that is called `name`.
fn find<'a>(methods: &'a Vec<AgentMethodSchema>, name: &str) -> (r: Option<&'a AgentMethodSchema>)
    ensures
        match r {
            Some(method) => method_named(methods@, name@) == Some(*method),
            None => method_named(methods@, name@) is None,
        },
{
    let mut i: usize = 0;
    assert(methods@.skip(0) =~= methods@);
    while i < methods.len()
        invariant
            i <= methods.len(),
            method_named(methods@, name@) == method_named(methods@.skip(i as int), name@),
        decreases methods.len() - i,
    {
        assert(methods@.skip(i as int)[0] == methods@[i as int]);
        if same_text(methods[i].name.as_str(), name) {
            return Some(&methods[i]);
        }
        assert(methods@.skip(i as int).skip(1) =~= methods@.skip(i + 1));
        i += 1;
    }
    None
}

/// Whether `agent_type` presents the shell surface, and why not if it doesn't.
pub fn validate_interactive_surface(agent_type: &AgentTypeSchema) -> (r: Result<(), SurfaceError>)
    ensures
        r is Ok <==> presents_surface(*agent_type),
        r is Ok <==> {
            let methods = agent_type.methods@;
            &&& agent_type.mode == AgentMode::Durable
            &&& exists|i: int|
                0 <= i < methods.len() && (#[trigger] methods[i]).name@ == "eval"@
                    && (forall|j: int| 0 <= j < i ==> (#[trigger] methods[j]).name@ != "eval"@)
                    && methods[i].input_schema->Parameters_0@.len() == 1
                    && methods[i].input_schema->Parameters_0@[0].schema == SchemaType::String
            &&& exists|i: int|
                0 <= i < methods.len() && (#[trigger] methods[i]).name@ == "answer_prompt"@
                    && (forall|j: int| 0 <= j < i ==> (#[trigger] methods[j]).name@ != "answer_prompt"@)
                    && methods[i].input_schema->Parameters_0@.len() == 1
                    && methods[i].input_schema->Parameters_0@[0].schema == SchemaType::String
            &&& exists|i: int|
                0 <= i < methods.len() && (#[trigger] methods[i]).name@ == "abort_prompt"@
                    && (forall|j: int| 0 <= j < i ==> (#[trigger] methods[j]).name@ != "abort_prompt"@)
                    && methods[i].input_schema->Parameters_0@.len() == 0
        },
        match r {
            Ok(()) => surface_objection(*agent_type) is None,
            Err(error) => surface_objection(*agent_type) == Some(error@),
        },
{
    proof {
        law_surface_is_three_methods(*agent_type);
    }
    if agent_type.mode == AgentMode::Ephemeral {
        return Err(SurfaceError::Ephemeral { agent_type: agent_type.name.0.clone() });
    }
    let eval = find(&agent_type.methods, EVAL);
    let answer = find(&agent_type.methods, ANSWER_PROMPT);
    let abort = find(&agent_type.methods, ABORT_PROMPT);
    match (eval, answer, abort) {
        (Some(eval), Some(answer), Some(abort)) => {
            match single_string_parameter(agent_type, eval) {
                Ok(()) => {},
                Err(error) => return Err(error),
            }
            match single_string_parameter(agent_type, answer) {
                Ok(()) => {},
                Err(error) => return Err(error),
            }
            zero_parameters(agent_type, abort)
        },
        _ => {
            let mut missing: Vec<String> = Vec::new();
            if eval.is_none() {
                missing.push(EVAL.to_owned());
            }
            if answer.is_none() {
                missing.push(ANSWER_PROMPT.to_owned());
            }
            if abort.is_none() {
                missing.push(ABORT_PROMPT.to_owned());
            }
            assert(missing.deep_view() =~= missing_methods(agent_type.methods@));
            Err(SurfaceError::MissingMethods { agent_type: agent_type.name.0.clone(), missing })
        },
    }
}

/// Checks that `method` takes exactly one `string` parameter; the error names the actual mismatch,
/// which is one of count or of type.
pub fn single_string_parameter(
    agent_type: &AgentTypeSchema,
    method: &AgentMethodSchema,
) -> (r: Result<(), SurfaceError>)
    ensures
        r is Ok <==> takes_one_string(*method),
        r is Ok <==> method.input_schema->Parameters_0@.len() == 1
            && method.input_schema->Parameters_0@[0].schema == SchemaType::String,
        match r {
            Ok(()) => single_string_objection(agent_type.name.0@, *method) is None,
            Err(error) => single_string_objection(agent_type.name.0@, *method) == Some(error@),
        },
{
    let InputSchema::Parameters(params) = &method.input_schema;
    if params.len() != 1 {
        return Err(
            SurfaceError::NotOneParameter {
                agent_type: agent_type.name.0.clone(),
                method: method.name.clone(),
                count: params.len(),
            },
        );
    }
    if params[0].schema == SchemaType::String {
        Ok(())
    } else {
        Err(
            SurfaceError::ParameterNotAString {
                agent_type: agent_type.name.0.clone(),
                method: method.name.clone(),
                parameter: params[0].name.clone(),
            },
        )
    }
}

/// Checks that `method` takes no parameters: the shell invokes it with an empty parameter record.
pub fn zero_parameters(agent_type: &AgentTypeSchema, method: &AgentMethodSchema) -> (r: Result<
    (),
    SurfaceError,
>)
    ensures
        r is Ok <==> method.parameters().len() == 0,
        r is Ok <==> method.input_schema->Parameters_0@.len() == 0,
        match r {
            Ok(()) => zero_parameters_objection(agent_type.name.0@, *method) is None,
            Err(error) => zero_parameters_objection(agent_type.name.0@, *method) == Some(error@),
        },
{
    let InputSchema::Parameters(params) = &method.input_schema;
    if params.len() == 0 {
        Ok(())
    } else {
        Err(
            SurfaceError::NotZeroParameters {
                agent_type: agent_type.name.0.clone(),
                method: method.name.clone(),
                count: params.len(),
            },
        )
    }
}

/// An ephemeral agent type is rejected up front, whatever its methods.
pub proof fn law_ephemeral_is_rejected_up_front(agent_type: AgentTypeSchema)
    requires
        agent_type.mode == AgentMode::Ephemeral,
    ensures
        surface_objection(agent_type) == Some(
            SurfaceErrorView::Ephemeral { agent_type: agent_type.name.0@ },
        ),
{
}

/// A method of the surface is named as missing exactly where no method of the agent type is called
/// by its very name.
pub proof fn law_missing_methods_are_named(methods: Seq<AgentMethodSchema>, name: Seq<char>)
    requires
        name == EVAL@ || name == ANSWER_PROMPT@ || name == ABORT_PROMPT@,
    ensures
        missing_methods(methods).contains(name) <==> forall|i: int|
            0 <= i < methods.len() ==> (#[trigger] methods[i]).name@ != name,
{
    reveal_strlit("eval");
    reveal_strlit("answer_prompt");
    reveal_strlit("abort_prompt");
    assert(EVAL@.len() == 4 && ANSWER_PROMPT@.len() == 13 && ABORT_PROMPT@.len() == 12);
    lemma_method_named(methods, name);
    let missing = missing_methods(methods);
    let eval = missing_name(methods, EVAL@);
    let answer = missing_name(methods, ANSWER_PROMPT@);
    if method_named(methods, name) is None {
        let at = if name == EVAL@ {
            0int
        } else if name == ANSWER_PROMPT@ {
            eval.len() as int
        } else {
            (eval.len() + answer.len()) as int
        };
        assert(missing[at] == name);
    }
}

proof fn lemma_method_named(methods: Seq<AgentMethodSchema>, name: Seq<char>)
    ensures
        method_named(methods, name) is None <==> forall|i: int|
            0 <= i < methods.len() ==> (#[trigger] methods[i]).name@ != name,
    decreases methods.len(),
{
    if methods.len() > 0 && methods[0].name@ != name {
        let rest = methods.skip(1);
        lemma_method_named(rest, name);
        if method_named(rest, name) is None {
            assert forall|i: int| 0 <= i < methods.len() implies (
            #[trigger] methods[i]).name@ != name by {
                if i > 0 {
                    assert(rest[i - 1] == methods[i]);
                }
            }
        } else {
            let i = choose|i: int| 0 <= i < rest.len() && (#[trigger] rest[i]).name@ == name;
            assert(methods[i + 1] == rest[i]);
        }
    }
}

proof fn lemma_method_stays_named(
    methods: Seq<AgentMethodSchema>,
    more: Seq<AgentMethodSchema>,
    name: Seq<char>,
)
    requires
        method_named(methods, name) is Some,
    ensures
        method_named(methods + more, name) == method_named(methods, name),
    decreases methods.len(),
{
    assert((methods + more)[0] == methods[0]);
    if methods[0].name@ != name {
        assert((methods + more).skip(1) =~= methods.skip(1) + more);
        lemma_method_stays_named(methods.skip(1), more, name);
    }
}

/// The surface is validated by its methods alone: an agent type that presents it still does with
/// any further methods.
pub proof fn law_further_methods_do_not_matter(a: AgentTypeSchema, b: AgentTypeSchema)
    requires
        presents_surface(a),
        b.mode == a.mode,
        a.methods@.is_prefix_of(b.methods@),
    ensures
        presents_surface(b),
        surface_objection(b) is None,
{
    let more = b.methods@.skip(a.methods@.len() as int);
    assert(b.methods@ =~= a.methods@ + more);
    lemma_method_stays_named(a.methods@, more, EVAL@);
    lemma_method_stays_named(a.methods@, more, ANSWER_PROMPT@);
    lemma_method_stays_named(a.methods@, more, ABORT_PROMPT@);
}

/// A parameter of the wrong type is diagnosed as a problem of type, and a wrong number of
/// parameters as one of count.
pub proof fn law_mismatch_is_diagnosed(agent_type: Seq<char>, method: AgentMethodSchema)
    ensures
        single_string_objection(agent_type, method) is None <==> takes_one_string(method),
        single_string_objection(agent_type, method) matches Some(
            SurfaceErrorView::ParameterNotAString { .. },
        ) ==> method.parameters().len() == 1,
        single_string_objection(agent_type, method) matches Some(
            SurfaceErrorView::NotOneParameter { count, .. },
        ) ==> count != 1 && count == method.parameters().len(),
{
}

/// The method that a name stands for is the first one that is called so.
pub proof fn law_first_method_of_a_name_counts(methods: Seq<AgentMethodSchema>, i: int)
    requires
        0 <= i < methods.len(),
        forall|j: int| 0 <= j < i ==> (#[trigger] methods[j]).name@ != methods[i].name@,
    ensures
        method_named(methods, methods[i].name@) == Some(methods[i]),
    decreases methods.len(),
{
    if i > 0 {
        let rest = methods.skip(1);
        assert(methods[0].name@ != methods[i].name@);
        assert forall|j: int| 0 <= j < i - 1 implies (#[trigger] rest[j]).name@ != rest[i
            - 1].name@ by {
            assert(rest[j] == methods[j + 1]);
        }
        law_first_method_of_a_name_counts(rest, i - 1);
    }
}

/// The first method that is called `name`, by its place.
proof fn lemma_first_place(methods: Seq<AgentMethodSchema>, name: Seq<char>) -> (i: int)
    requires
        method_named(methods, name) is Some,
    ensures
        0 <= i < methods.len(),
        methods[i].name@ == name,
        method_named(methods, name) == Some(methods[i]),
        forall|j: int| 0 <= j < i ==> (#[trigger] methods[j]).name@ != name,
    decreases methods.len(),
{
    if methods[0].name@ == name {
        0
    } else {
        let rest = methods.skip(1);
        let i = lemma_first_place(rest, name);
        assert forall|j: int| 0 <= j < i + 1 implies (#[trigger] methods[j]).name@ != name by {
            if j > 0 {
                assert(rest[j - 1] == methods[j]);
            }
        }
        i + 1
    }
}

/// An agent type presents the surface exactly where it is durable, the only parameter of its first
/// `eval` and of its first `answer_prompt` is a string, and its first `abort_prompt` has none.
pub proof fn law_surface_is_three_methods(agent_type: AgentTypeSchema)
    ensures
        presents_surface(agent_type) <==> {
            let methods = agent_type.methods@;
            &&& agent_type.mode == AgentMode::Durable
            &&& exists|i: int|
                0 <= i < methods.len() && (#[trigger] methods[i]).name@ == "eval"@
                    && (forall|j: int| 0 <= j < i ==> (#[trigger] methods[j]).name@ != "eval"@)
                    && methods[i].input_schema->Parameters_0@.len() == 1
                    && methods[i].input_schema->Parameters_0@[0].schema == SchemaType::String
            &&& exists|i: int|
                0 <= i < methods.len() && (#[trigger] methods[i]).name@ == "answer_prompt"@
                    && (forall|j: int| 0 <= j < i ==> (#[trigger] methods[j]).name@ != "answer_prompt"@)
                    && methods[i].input_schema->Parameters_0@.len() == 1
                    && methods[i].input_schema->Parameters_0@[0].schema == SchemaType::String
            &&& exists|i: int|
                0 <= i < methods.len() && (#[trigger] methods[i]).name@ == "abort_prompt"@
                    && (forall|j: int| 0 <= j < i ==> (#[trigger] methods[j]).name@ != "abort_prompt"@)
                    && methods[i].input_schema->Parameters_0@.len() == 0
        },
        presents_surface(agent_type) <==> surface_objection(agent_type) is None,
{
    let methods = agent_type.methods@;
    if method_named(methods, "eval"@) is Some {
        let _ = lemma_first_place(methods, "eval"@);
    }
    if method_named(methods, "answer_prompt"@) is Some {
        let _ = lemma_first_place(methods, "answer_prompt"@);
    }
    if method_named(methods, "abort_prompt"@) is Some {
        let _ = lemma_first_place(methods, "abort_prompt"@);
    }
    assert forall|i: int|
        0 <= i < methods.len() && (forall|j: int|
            0 <= j < i ==> (#[trigger] methods[j]).name@ != methods[i].name@) implies method_named(
        methods,
        (#[trigger] methods[i]).name@,
    ) == Some(methods[i]) by {
        law_first_method_of_a_name_counts(methods, i);
    }
}

/// A method that is to take one string is accepted exactly where it has one parameter and that is a
/// string; one of another number of parameters is reported with that number, and a parameter of
/// another type by its name. One that is to take nothing is accepted exactly where it has no parameter.
pub proof fn law_parameters_are_checked(agent_type: Seq<char>, method: AgentMethodSchema)
    ensures
        ({
            let parameters = method.input_schema->Parameters_0@;
            &&& single_string_objection(agent_type, method) is None <==> parameters.len() == 1
                && parameters[0].schema == SchemaType::String
            &&& parameters.len() != 1 ==> single_string_objection(agent_type, method) == Some(
                SurfaceErrorView::NotOneParameter {
                    agent_type,
                    method: method.name@,
                    count: parameters.len(),
                },
            )
            &&& parameters.len() == 1 && parameters[0].schema != SchemaType::String
                ==> single_string_objection(agent_type, method) == Some(
                SurfaceErrorView::ParameterNotAString {
                    agent_type,
                    method: method.name@,
                    parameter: parameters[0].name@,
                },
            )
            &&& zero_parameters_objection(agent_type, method) is None <==> parameters.len() == 0
            &&& parameters.len() != 0 ==> zero_parameters_objection(agent_type, method) == Some(
                SurfaceErrorView::NotZeroParameters {
                    agent_type,
                    method: method.name@,
                    count: parameters.len(),
                },
            )
        }),
{
}

/// Whether no method of `methods` is called `name`.
pub open spec fn lacks(methods: Seq<AgentMethodSchema>, name: Seq<char>) -> bool {
    forall|i: int| 0 <= i < methods.len() ==> (#[trigger] methods[i]).name@ != name
}

/// A durable agent type that lacks methods of the surface is told all of those and no others, in the
/// order of the surface, whatever the methods that it has take.
pub proof fn law_all_that_is_missing_is_told(agent_type: AgentTypeSchema)
    ensures
        ({
            let methods = agent_type.methods@;
            let eval = if lacks(methods, "eval"@) {
                seq!["eval"@]
            } else {
                Seq::empty()
            };
            let answer = if lacks(methods, "answer_prompt"@) {
                eval.push("answer_prompt"@)
            } else {
                eval
            };
            let missing = if lacks(methods, "abort_prompt"@) {
                answer.push("abort_prompt"@)
            } else {
                answer
            };
            &&& missing_methods(methods) == missing
            &&& agent_type.mode == AgentMode::Durable && missing.len() > 0 ==> surface_objection(
                agent_type,
            ) == Some(
                SurfaceErrorView::MissingMethods { agent_type: agent_type.name.0@, missing },
            )
        }),
{
    let methods = agent_type.methods@;
    lemma_method_named(methods, "eval"@);
    lemma_method_named(methods, "answer_prompt"@);
    lemma_method_named(methods, "abort_prompt"@);
    let eval = missing_name(methods, "eval"@);
    let answer = missing_name(methods, "answer_prompt"@);
    let abort = missing_name(methods, "abort_prompt"@);
    assert(eval + answer =~= if lacks(methods, "answer_prompt"@) {
        eval.push("answer_prompt"@)
    } else {
        eval
    });
    assert(eval + answer + abort =~= if lacks(methods, "abort_prompt"@) {
        (eval + answer).push("abort_prompt"@)
    } else {
        eval + answer
    });
}

/// Where nothing is missing, what `eval` takes is objected to before what `answer_prompt` takes, and
/// that before what `abort_prompt` takes.
pub proof fn law_first_objection_is_told(agent_type: AgentTypeSchema, i: int, j: int, k: int)
    requires
        agent_type.mode == AgentMode::Durable,
        0 <= i < agent_type.methods@.len(),
        0 <= j < agent_type.methods@.len(),
        0 <= k < agent_type.methods@.len(),
        method_named(agent_type.methods@, "eval"@) == Some(agent_type.methods@[i]),
        method_named(agent_type.methods@, "answer_prompt"@) == Some(agent_type.methods@[j]),
        method_named(agent_type.methods@, "abort_prompt"@) == Some(agent_type.methods@[k]),
    ensures
        ({
            let name = agent_type.name.0@;
            let eval = single_string_objection(name, agent_type.methods@[i]);
            let answer = single_string_objection(name, agent_type.methods@[j]);
            let abort = zero_parameters_objection(name, agent_type.methods@[k]);
            &&& eval is Some ==> surface_objection(agent_type) == eval
            &&& eval is None && answer is Some ==> surface_objection(agent_type) == answer
            &&& eval is None && answer is None ==> surface_objection(agent_type) == abort
        }),
{
}

/// What is read of an error is what it holds, field by field.
pub proof fn law_surface_errors_are_read_as_they_are(
    agent_type: String,
    method: String,
    parameter: String,
    missing: Vec<String>,
    count: usize,
)
    ensures
        (SurfaceError::Ephemeral { agent_type })@ == (SurfaceErrorView::Ephemeral {
            agent_type: agent_type@,
        }),
        (SurfaceError::MissingMethods { agent_type, missing })@ matches
            SurfaceErrorView::MissingMethods { agent_type: named, missing: listed } && named
            == agent_type@ && listed.len() == missing@.len() && forall|i: int|
            0 <= i < listed.len() ==> #[trigger] listed[i] == missing@[i]@,
        (SurfaceError::ParameterNotAString { agent_type, method, parameter })@ == (
        SurfaceErrorView::ParameterNotAString {
            agent_type: agent_type@,
            method: method@,
            parameter: parameter@,
        }),
        (SurfaceError::NotOneParameter { agent_type, method, count })@ == (
        SurfaceErrorView::NotOneParameter {
            agent_type: agent_type@,
            method: method@,
            count: count as nat,
        }),
        (SurfaceError::NotZeroParameters { agent_type, method, count })@ == (
        SurfaceErrorView::NotZeroParameters {
            agent_type: agent_type@,
            method: method@,
            count: count as nat,
        }),
{
}

/// An error names its agent type, and lists the methods that are missing, all of them.
pub proof fn law_errors_name_the_agent_type(
    agent_type: Seq<char>,
    method: Seq<char>,
    parameter: Seq<char>,
    missing: Seq<Seq<char>>,
    name: Seq<char>,
    count: nat,
)
    ensures
        (SurfaceErrorView::Ephemeral { agent_type }).agent_type() == agent_type,
        (SurfaceErrorView::MissingMethods { agent_type, missing }).agent_type() == agent_type,
        (SurfaceErrorView::ParameterNotAString { agent_type, method, parameter }).agent_type()
            == agent_type,
        (SurfaceErrorView::NotOneParameter { agent_type, method, count }).agent_type()
            == agent_type,
        (SurfaceErrorView::NotZeroParameters { agent_type, method, count }).agent_type()
            == agent_type,
        (SurfaceErrorView::MissingMethods { agent_type, missing: seq![name] }).missing() == name,
        missing.len() > 0 ==> (SurfaceErrorView::MissingMethods {
            agent_type,
            missing: missing.push(name),
        }).missing() == (SurfaceErrorView::MissingMethods { agent_type, missing }).missing()
            + seq![',', ' '] + name,
        (SurfaceErrorView::Ephemeral { agent_type }).missing().len() == 0,
        (SurfaceErrorView::ParameterNotAString { agent_type, method, parameter }).missing().len()
            == 0,
        (SurfaceErrorView::NotOneParameter { agent_type, method, count }).missing().len() == 0,
        (SurfaceErrorView::NotZeroParameters { agent_type, method, count }).missing().len() == 0,
{
    reveal_strlit(", ");
    assert(", "@ =~= seq![',', ' ']);
    law_joining_adds_part_by_part(missing, name, ", "@);
}

/// The message starts with the agent type, as it is to be shown, and says what is wrong with all that
/// the error holds: the methods that are missing as they are to be shown, the method, its parameter,
/// and the number of its parameters.
pub proof fn law_message_tells_all_of_it(
    agent_type: Seq<char>,
    method: Seq<char>,
    parameter: Seq<char>,
    names: Seq<Seq<char>>,
    count: nat,
    shown: Seq<char>,
    missing: Seq<char>,
)
    ensures
        ({
            let head = "Agent type "@ + shown + " cannot be used with `agent shell`: "@;
            let wants = head + "`"@ + method;
            &&& (SurfaceErrorView::Ephemeral { agent_type }).message(shown, missing) == head
                + "it is ephemeral, so each invocation runs on a fresh instance — shell state would reset between lines and a pending question could never be answered."@
            &&& (SurfaceErrorView::MissingMethods { agent_type, missing: names }).message(
                shown,
                missing,
            ) == head + "it has no "@ + missing
                + " method(s).\n`agent shell` requires an agent exposing `"@ + "eval"@
                + "(string)`, `"@ + "answer_prompt"@ + "(string)` and `"@ + "abort_prompt"@
                + "()` (snake_case, matched verbatim), each returning an eval-result record {stdout, stderr, exit-code, pending-prompt}."@
            &&& (SurfaceErrorView::ParameterNotAString { agent_type, method, parameter }).message(
                shown,
                missing,
            ) == wants + "` must take one string parameter, but its parameter `"@ + parameter
                + "` is not a string."@
            &&& (SurfaceErrorView::NotOneParameter { agent_type, method, count }).message(
                shown,
                missing,
            ) == wants + "` must take exactly one string parameter, but it takes "@ + decimal(count)
                + " parameters."@
            &&& (SurfaceErrorView::NotZeroParameters { agent_type, method, count }).message(
                shown,
                missing,
            ) == wants + "` must take no parameters, but it takes "@ + decimal(count) + "."@
        }),
{
}

} // verus!
