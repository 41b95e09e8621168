//! The `eval-result` record that every method of the shell surface returns.
//!
//! ```text
//! { stdout: string, stderr: string, exit-code: u8,
//!   pending-prompt: option<{ question: string, choices: option<list<string>> }> }
//! ```
//!
//! Records are decoded by position and fields behind the last expected one are ignored. An agent
//! may append a fifth field, `cwd: string`, which [`extract_cwd`] reads.
use vstd::prelude::*;

use crate::schema::SchemaValue;

verus! {

/// The record every method of the shell surface returns.
#[derive(Debug)]
pub struct EvalResult {
    pub stdout: String,
    pub stderr: String,
    pub exit_code: u8,
    /// `Some` when the command paused on a question that must be answered before any further
    /// command will run.
    pub pending_prompt: Option<PendingPrompt>,
}

/// A question the agent is waiting on.
#[derive(Debug)]
pub struct PendingPrompt {
    pub question: String,
    /// When present, the answer must be one of these.
    pub choices: Option<Vec<String>>,
}

/// What an [`EvalResult`] holds.
pub struct EvalResultView {
    pub stdout: Seq<char>,
    pub stderr: Seq<char>,
    pub exit_code: u8,
    pub pending_prompt: Option<PendingPromptView>,
}

/// What a [`PendingPrompt`] holds.
pub struct PendingPromptView {
    pub question: Seq<char>,
    pub choices: Option<Seq<Seq<char>>>,
}

impl View for PendingPrompt {
    type V = PendingPromptView;

    open spec fn view(&self) -> PendingPromptView {
        PendingPromptView { question: self.question@, choices: self.choices.deep_view() }
    }
}

impl View for EvalResult {
    type V = EvalResultView;

    open spec fn view(&self) -> EvalResultView {
        EvalResultView {
            stdout: self.stdout@,
            stderr: self.stderr@,
            exit_code: self.exit_code,
            pending_prompt: match self.pending_prompt {
                Some(prompt) => Some(prompt@),
                None => None,
            },
        }
    }
}

/// Why a value is not an `eval-result`: the first part of it that does not fit.
#[derive(Debug, Clone, Copy, PartialEq, Eq, Structural)]
pub enum DecodeError {
    ResultNotARecord,
    ResultTooShort,
    StdoutNotAString,
    StderrNotAString,
    ExitCodeNotAU8,
    PendingPromptNotAnOption,
    PromptNotARecord,
    PromptTooShort,
    QuestionNotAString,
    ChoicesNotAnOption,
    ChoicesNotAList,
    ChoiceNotAString,
}

impl DecodeError {
    /// What does not fit, in words.
    pub open spec fn text(self) -> Seq<char> {
        match self {
            DecodeError::ResultNotARecord => "the result is not a record"@,
            DecodeError::ResultTooShort => "the result has fewer than four fields"@,
            DecodeError::StdoutNotAString => "`stdout` is not a string"@,
            DecodeError::StderrNotAString => "`stderr` is not a string"@,
            DecodeError::ExitCodeNotAU8 => "`exit-code` is not a u8"@,
            DecodeError::PendingPromptNotAnOption => "`pending-prompt` is not an option"@,
            DecodeError::PromptNotARecord => "the pending prompt is not a record"@,
            DecodeError::PromptTooShort => "the pending prompt has fewer than two fields"@,
            DecodeError::QuestionNotAString => "`question` is not a string"@,
            DecodeError::ChoicesNotAnOption => "`choices` is not an option"@,
            DecodeError::ChoicesNotAList => "`choices` does not hold a list"@,
            DecodeError::ChoiceNotAString => "one of the `choices` is not a string"@,
        }
    }

    /// What does not fit, in words.
    pub fn message(&self) -> (r: &'static str)
        ensures
            r@ == self.text(),
    {
        match self {
            DecodeError::ResultNotARecord => "the result is not a record",
            DecodeError::ResultTooShort => "the result has fewer than four fields",
            DecodeError::StdoutNotAString => "`stdout` is not a string",
            DecodeError::StderrNotAString => "`stderr` is not a string",
            DecodeError::ExitCodeNotAU8 => "`exit-code` is not a u8",
            DecodeError::PendingPromptNotAnOption => "`pending-prompt` is not an option",
            DecodeError::PromptNotARecord => "the pending prompt is not a record",
            DecodeError::PromptTooShort => "the pending prompt has fewer than two fields",
            DecodeError::QuestionNotAString => "`question` is not a string",
            DecodeError::ChoicesNotAnOption => "`choices` is not an option",
            DecodeError::ChoicesNotAList => "`choices` does not hold a list",
            DecodeError::ChoiceNotAString => "one of the `choices` is not a string",
        }
    }
}

/// Whether every element of `elements` is a string.
pub open spec fn all_strings(elements: Seq<SchemaValue>) -> bool {
    forall|i: int| 0 <= i < elements.len() ==> #[trigger] elements[i] is String
}

/// The texts of `elements`, all of which are strings.
pub open spec fn string_texts(elements: Seq<SchemaValue>) -> Seq<Seq<char>> {
    Seq::new(elements.len(), |i: int| elements[i]->String_0@)
}

/// What `value` holds as the `choices` of a question.
pub open spec fn choices_of(value: SchemaValue) -> Result<Option<Seq<Seq<char>>>, DecodeError> {
    match value {
        SchemaValue::Option { inner: None } => Ok(None),
        SchemaValue::Option { inner: Some(list) } => match *list {
            SchemaValue::List { elements } => if all_strings(elements@) {
                Ok(Some(string_texts(elements@)))
            } else {
                Err(DecodeError::ChoiceNotAString)
            },
            _ => Err(DecodeError::ChoicesNotAList),
        },
        _ => Err(DecodeError::ChoicesNotAnOption),
    }
}

/// What `value` holds as a question.
pub open spec fn prompt_of(value: SchemaValue) -> Result<PendingPromptView, DecodeError> {
    match value {
        SchemaValue::Record { fields } => if fields@.len() < 2 {
            Err(DecodeError::PromptTooShort)
        } else if !(fields@[0] is String) {
            Err(DecodeError::QuestionNotAString)
        } else {
            match choices_of(fields@[1]) {
                Ok(choices) => Ok(
                    PendingPromptView { question: fields@[0]->String_0@, choices },
                ),
                Err(error) => Err(error),
            }
        },
        _ => Err(DecodeError::PromptNotARecord),
    }
}

/// What `value` holds as the `pending-prompt` of a result.
pub open spec fn pending_prompt_of(value: SchemaValue) -> Result<
    Option<PendingPromptView>,
    DecodeError,
> {
    match value {
        SchemaValue::Option { inner: None } => Ok(None),
        SchemaValue::Option { inner: Some(prompt) } => match prompt_of(*prompt) {
            Ok(prompt) => Ok(Some(prompt)),
            Err(error) => Err(error),
        },
        _ => Err(DecodeError::PendingPromptNotAnOption),
    }
}

/// What `value` holds as an `eval-result`.
pub open spec fn eval_result_of(value: SchemaValue) -> Result<EvalResultView, DecodeError> {
    match value {
        SchemaValue::Record { fields } => if fields@.len() < 4 {
            Err(DecodeError::ResultTooShort)
        } else if !(fields@[0] is String) {
            Err(DecodeError::StdoutNotAString)
        } else if !(fields@[1] is String) {
            Err(DecodeError::StderrNotAString)
        } else if !(fields@[2] is U8) {
            Err(DecodeError::ExitCodeNotAU8)
        } else {
            match pending_prompt_of(fields@[3]) {
                Ok(pending_prompt) => Ok(
                    EvalResultView {
                        stdout: fields@[0]->String_0@,
                        stderr: fields@[1]->String_0@,
                        exit_code: fields@[2]->U8_0,
                        pending_prompt,
                    },
                ),
                Err(error) => Err(error),
            }
        },
        _ => Err(DecodeError::ResultNotARecord),
    }
}

/// The working directory that `value` reports: its fifth field, where that is a text other than
/// the empty one.
pub open spec fn cwd_of(value: SchemaValue) -> Option<Seq<char>> {
    match value {
        SchemaValue::Record { fields } => if fields@.len() > 4 && fields@[4] is String
            && fields@[4]->String_0@.len() > 0 {
            Some(fields@[4]->String_0@)
        } else {
            None
        },
        _ => None,
    }
}

/// The texts of `elements`, where all of them are strings.
fn decode_texts(elements: &Vec<SchemaValue>) -> (r: Option<Vec<String>>)
    ensures
        match r {
            Some(texts) => all_strings(elements@) && texts.deep_view() == string_texts(elements@),
            None => !all_strings(elements@),
        },
        r matches Some(texts) ==> texts@.len() == elements@.len() && forall|i: int|
            0 <= i < elements@.len() ==> (#[trigger] elements@[i] matches SchemaValue::String(text)
                && texts@[i]@ == text@),
        r is None ==> exists|i: int|
            0 <= i < elements@.len() && !(#[trigger] elements@[i] is String),
{
    let mut texts: Vec<String> = Vec::new();
    let mut i: usize = 0;
    while i < elements.len()
        invariant
            i <= elements@.len(),
            texts@.len() == i,
            forall|j: int| 0 <= j < i ==> #[trigger] elements@[j] is String,
            forall|j: int| 0 <= j < i ==> (#[trigger] texts@[j])@ == elements@[j]->String_0@,
        decreases elements.len() - i,
    {
        match &elements[i] {
            SchemaValue::String(text) => texts.push(text.clone()),
            _ => {
                assert(!(elements@[i as int] is String));
                return None;
            },
        }
        i += 1;
    }
    assert(texts.deep_view() =~= string_texts(elements@));
    Some(texts)
}

/// Decodes the `choices` of a question.
fn decode_choices(value: &SchemaValue) -> (r: Result<Option<Vec<String>>, DecodeError>)
    ensures
        match r {
            Ok(choices) => choices_of(*value) == Ok::<_, DecodeError>(choices.deep_view()),
            Err(error) => choices_of(*value) == Err::<Option<Seq<Seq<char>>>, _>(error),
        },
{
    match value {
        SchemaValue::Option { inner: None } => Ok(None),
        SchemaValue::Option { inner: Some(list) } => match &**list {
            SchemaValue::List { elements } => match decode_texts(elements) {
                Some(choices) => Ok(Some(choices)),
                None => Err(DecodeError::ChoiceNotAString),
            },
            _ => Err(DecodeError::ChoicesNotAList),
        },
        _ => Err(DecodeError::ChoicesNotAnOption),
    }
}

impl PendingPrompt {
    /// Decodes a question.
    pub fn from_value(value: &SchemaValue) -> (r: Result<PendingPrompt, DecodeError>)
        ensures
            match r {
                Ok(prompt) => prompt_of(*value) == Ok::<_, DecodeError>(prompt@),
                Err(error) => prompt_of(*value) == Err::<PendingPromptView, _>(error),
            },
            r matches Ok(prompt) ==> (value matches SchemaValue::Record { fields } && fields@.len()
                >= 2 && (fields@[0] matches SchemaValue::String(text) && prompt.question@ == text@)
                && (fields@[1] matches SchemaValue::Option { inner } && inner is Some
                <==> prompt.choices is Some)),
    {
        let fields = match value {
            SchemaValue::Record { fields } => fields,
            _ => return Err(DecodeError::PromptNotARecord),
        };
        if fields.len() < 2 {
            return Err(DecodeError::PromptTooShort);
        }
        let question = match &fields[0] {
            SchemaValue::String(question) => question.clone(),
            _ => return Err(DecodeError::QuestionNotAString),
        };
        match decode_choices(&fields[1]) {
            Ok(choices) => Ok(PendingPrompt { question, choices }),
            Err(error) => Err(error),
        }
    }
}

impl EvalResult {
    /// Decodes a result.
    pub fn from_value(value: &SchemaValue) -> (r: Result<EvalResult, DecodeError>)
        ensures
            match r {
                Ok(result) => eval_result_of(*value) == Ok::<_, DecodeError>(result@),
                Err(error) => eval_result_of(*value) == Err::<EvalResultView, _>(error),
            },
            r matches Ok(result) ==> (value matches SchemaValue::Record { fields } && fields@.len()
                >= 4 && (fields@[0] matches SchemaValue::String(text) && result.stdout@ == text@)
                && (fields@[1] matches SchemaValue::String(text) && result.stderr@ == text@)
                && fields@[2] == SchemaValue::U8(result.exit_code)),
    {
        let fields = match value {
            SchemaValue::Record { fields } => fields,
            _ => return Err(DecodeError::ResultNotARecord),
        };
        if fields.len() < 4 {
            return Err(DecodeError::ResultTooShort);
        }
        let stdout = match &fields[0] {
            SchemaValue::String(stdout) => stdout.clone(),
            _ => return Err(DecodeError::StdoutNotAString),
        };
        let stderr = match &fields[1] {
            SchemaValue::String(stderr) => stderr.clone(),
            _ => return Err(DecodeError::StderrNotAString),
        };
        let exit_code: u8 = match &fields[2] {
            SchemaValue::U8(exit_code) => *exit_code,
            _ => return Err(DecodeError::ExitCodeNotAU8),
        };
        let pending_prompt = match &fields[3] {
            SchemaValue::Option { inner: None } => None,
            SchemaValue::Option { inner: Some(prompt) } => match PendingPrompt::from_value(prompt) {
                Ok(prompt) => Some(prompt),
                Err(error) => return Err(error),
            },
            _ => return Err(DecodeError::PendingPromptNotAnOption),
        };
        Ok(EvalResult { stdout, stderr, exit_code, pending_prompt })
    }
}

/// Pulls the working directory that an agent may report as a fifth field of its result. `None` for
/// an agent that omits it or reports an empty path.
pub fn extract_cwd(value: &SchemaValue) -> (r: Option<String>)
    ensures
        r.deep_view() == cwd_of(*value),
        r matches Some(cwd) ==> cwd@.len() > 0 && (value matches SchemaValue::Record { fields }
            && fields@.len() >= 5 && (fields@[4] matches SchemaValue::String(text) && cwd@
            == text@)),
{
    match value {
        SchemaValue::Record { fields } => {
            if fields.len() <= 4 {
                return None;
            }
            match &fields[4] {
                SchemaValue::String(cwd) => if cwd.as_str().is_empty() {
                    None
                } else {
                    Some(cwd.clone())
                },
                _ => None,
            }
        },
        _ => None,
    }
}

/// Fields behind the fourth do not matter to the result: an agent that appends some decodes as one
/// that does not.
pub proof fn law_trailing_fields_are_ignored(a: Vec<SchemaValue>, b: Vec<SchemaValue>)
    requires
        a@.len() >= 4,
        b@.len() >= 4,
        a@.take(4) == b@.take(4),
    ensures
        eval_result_of(SchemaValue::Record { fields: a }) == eval_result_of(
            SchemaValue::Record { fields: b },
        ),
{
    assert forall|i: int| 0 <= i < 4 implies #[trigger] a@[i] == b@[i] by {
        assert(a@[i] == a@.take(4)[i]);
        assert(b@[i] == b@.take(4)[i]);
    }
}

/// An agent that omits the working directory yields none, and one that appends it yields it,
/// unless it is empty; the result is the same either way.
pub proof fn law_cwd_is_optional(four: Vec<SchemaValue>, five: Vec<SchemaValue>, cwd: String)
    requires
        four@.len() == 4,
        five@ == four@.push(SchemaValue::String(cwd)),
    ensures
        cwd_of(SchemaValue::Record { fields: four }) is None,
        cwd_of(SchemaValue::Record { fields: five }) == if cwd@.len() == 0 {
            None
        } else {
            Some(cwd@)
        },
        eval_result_of(SchemaValue::Record { fields: four }) == eval_result_of(
            SchemaValue::Record { fields: five },
        ),
{
    assert(four@.take(4) =~= five@.take(4));
    law_trailing_fields_are_ignored(four, five);
}

/// A record is read back field by field, by position.
pub proof fn law_record_is_read_by_position(
    fields: Vec<SchemaValue>,
    stdout: String,
    stderr: String,
    exit_code: u8,
    pending_prompt: Option<PendingPromptView>,
)
    requires
        fields@.len() >= 4,
        fields@[0] == SchemaValue::String(stdout),
        fields@[1] == SchemaValue::String(stderr),
        fields@[2] == SchemaValue::U8(exit_code),
        pending_prompt_of(fields@[3]) == Ok::<_, DecodeError>(pending_prompt),
    ensures
        eval_result_of(SchemaValue::Record { fields }) == Ok::<_, DecodeError>(
            EvalResultView { stdout: stdout@, stderr: stderr@, exit_code, pending_prompt },
        ),
{
}

/// A question is read back whole: its text, and every one of its choices in its place.
pub proof fn law_prompt_is_read_whole(
    fields: Vec<SchemaValue>,
    question: String,
    elements: Vec<SchemaValue>,
    texts: Seq<String>,
)
    requires
        fields@.len() >= 2,
        fields@[0] == SchemaValue::String(question),
        fields@[1] == (SchemaValue::Option {
            inner: Some(Box::new(SchemaValue::List { elements })),
        }),
        elements@.len() == texts.len(),
        forall|i: int|
            0 <= i < texts.len() ==> #[trigger] elements@[i] == SchemaValue::String(texts[i]),
    ensures
        prompt_of(SchemaValue::Record { fields }) matches Ok(prompt) && {
            &&& prompt.question == question@
            &&& prompt.choices matches Some(choices)
            &&& choices.len() == texts.len()
            &&& forall|i: int| 0 <= i < texts.len() ==> #[trigger] choices[i] == texts[i]@
        },
{
    assert forall|i: int| 0 <= i < elements@.len() implies #[trigger] elements@[i] is String by {
        assert(elements@[i] == SchemaValue::String(texts[i]));
    }
    let choices = prompt_of(SchemaValue::Record { fields })->Ok_0.choices->0;
    assert forall|i: int| 0 <= i < texts.len() implies #[trigger] choices[i] == texts[i]@ by {
        assert(elements@[i] == SchemaValue::String(texts[i]));
    }
}

/// A question that takes any answer is read back as one.
pub proof fn law_open_prompt_is_read_whole(fields: Vec<SchemaValue>, question: String)
    requires
        fields@.len() >= 2,
        fields@[0] == SchemaValue::String(question),
        fields@[1] == (SchemaValue::Option { inner: None }),
    ensures
        prompt_of(SchemaValue::Record { fields }) matches Ok(prompt) && prompt.question
            == question@ && prompt.choices is None,
{
}

/// A question is rejected for the first part of it that does not fit: not being a record, lacking a
/// field, its text, and its choices, which are to be an option, of a list, of strings.
pub proof fn law_prompt_is_rejected_for_what_does_not_fit(value: SchemaValue)
    ensures
        ({
            let fields = value->Record_fields@;
            let choices = fields[1];
            let list = *(choices->inner->0);
            let elements = list->elements@;
            let error = prompt_of(value)->Err_0;
            &&& prompt_of(value) is Ok <==> {
                &&& value is Record && fields.len() >= 2
                &&& fields[0] is String
                &&& choices is Option
                &&& choices->inner is Some ==> list is List && forall|i: int|
                    0 <= i < elements.len() ==> #[trigger] elements[i] is String
            }
            &&& prompt_of(value) is Err ==> error == if !(value is Record) {
                DecodeError::PromptNotARecord
            } else if fields.len() < 2 {
                DecodeError::PromptTooShort
            } else if !(fields[0] is String) {
                DecodeError::QuestionNotAString
            } else if !(choices is Option) {
                DecodeError::ChoicesNotAnOption
            } else if !(list is List) {
                DecodeError::ChoicesNotAList
            } else {
                DecodeError::ChoiceNotAString
            }
        }),
{
}

/// A result is read back whole: what it wrote, its exit code, and its question where it carries one.
pub proof fn law_result_is_read_whole(
    fields: Vec<SchemaValue>,
    stdout: String,
    stderr: String,
    exit_code: u8,
    pending: Option<Box<SchemaValue>>,
)
    requires
        fields@.len() >= 4,
        fields@[0] == SchemaValue::String(stdout),
        fields@[1] == SchemaValue::String(stderr),
        fields@[2] == SchemaValue::U8(exit_code),
        fields@[3] == (SchemaValue::Option { inner: pending }),
    ensures
        match pending {
            None => eval_result_of(SchemaValue::Record { fields }) matches Ok(result)
                && result.stdout == stdout@ && result.stderr == stderr@ && result.exit_code
                == exit_code && result.pending_prompt is None,
            Some(value) => match prompt_of(*value) {
                Ok(prompt) => eval_result_of(SchemaValue::Record { fields }) matches Ok(result)
                    && result.stdout == stdout@ && result.stderr == stderr@ && result.exit_code
                    == exit_code && result.pending_prompt == Some(prompt),
                Err(error) => eval_result_of(SchemaValue::Record { fields }) == Err::<
                    EvalResultView,
                    _,
                >(error),
            },
        },
{
}

/// A result is rejected for the first part of it that does not fit, in the order of its fields.
pub proof fn law_result_is_rejected_for_what_does_not_fit(value: SchemaValue)
    ensures
        ({
            let fields = value->Record_fields@;
            let pending = fields[3];
            let error = eval_result_of(value)->Err_0;
            &&& eval_result_of(value) is Ok <==> {
                &&& value is Record && fields.len() >= 4
                &&& fields[0] is String && fields[1] is String && fields[2] is U8
                &&& pending is Option
                &&& pending->inner is Some ==> prompt_of(*(pending->inner->0)) is Ok
            }
            &&& eval_result_of(value) is Err ==> if !(value is Record) {
                error == DecodeError::ResultNotARecord
            } else if fields.len() < 4 {
                error == DecodeError::ResultTooShort
            } else if !(fields[0] is String) {
                error == DecodeError::StdoutNotAString
            } else if !(fields[1] is String) {
                error == DecodeError::StderrNotAString
            } else if !(fields[2] is U8) {
                error == DecodeError::ExitCodeNotAU8
            } else if !(pending is Option) {
                error == DecodeError::PendingPromptNotAnOption
            } else {
                prompt_of(*(pending->inner->0)) == Err::<PendingPromptView, _>(error)
            }
        }),
{
}

/// The working directory is the fifth field, whole, wherever there is one and it is a text that is
/// not empty, whatever follows it; anything else reports none.
pub proof fn law_cwd_is_the_fifth_field(fields: Vec<SchemaValue>, other: SchemaValue)
    requires
        !(other is Record),
    ensures
        cwd_of(SchemaValue::Record { fields }) is Some <==> fields@.len() >= 5
            && fields@[4] is String && fields@[4]->String_0@.len() != 0,
        cwd_of(SchemaValue::Record { fields }) matches Some(cwd) ==> cwd == fields@[4]->String_0@,
        cwd_of(other) is None,
{
}

/// What is read of a result and of a question is what they hold, field by field.
pub proof fn law_results_are_read_as_they_are(result: EvalResult, prompt: PendingPrompt)
    ensures
        result@.stdout == result.stdout@,
        result@.stderr == result.stderr@,
        result@.exit_code == result.exit_code,
        result@.pending_prompt is Some <==> result.pending_prompt is Some,
        result.pending_prompt matches Some(prompt) ==> result@.pending_prompt == Some(prompt@),
        prompt@.question == prompt.question@,
        prompt@.choices is Some <==> prompt.choices is Some,
        prompt.choices matches Some(choices) ==> prompt@.choices->0.len() == choices@.len()
            && forall|i: int|
            0 <= i < choices@.len() ==> #[trigger] prompt@.choices->0[i] == choices@[i]@,
{
}

} // verus!
