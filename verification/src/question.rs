//! The questions of an agent, and what a human makes of them.
use vstd::prelude::*;

use crate::eval_result::PendingPrompt;
#[allow(unused_imports)]
use crate::eval_result::PendingPromptView;
#[allow(unused_imports)]
use crate::text::{join, joined, law_joining_adds_part_by_part, same_text, trim, trimmed};

verus! {

/// Typed in at the answer prompt to cancel the outstanding question instead of answering it.
pub const ABORT_ANSWER: &'static str = ":abort";

/// A question as it is shown, followed by its allowed answers when it has them.
pub open spec fn question_text(prompt: PendingPromptView) -> Seq<char> {
    match prompt.choices {
        Some(choices) if choices.len() > 0 => prompt.question + " ["@ + joined(choices, ", "@)
            + "]"@,
        _ => prompt.question,
    }
}

/// Formats a pending question for display, appending its allowed answers when it has them.
pub fn format_question(prompt: &PendingPrompt) -> (r: String)
    ensures
        r@ == question_text(prompt@),
{
    match &prompt.choices {
        Some(choices) => if choices.len() > 0 {
            let mut out = prompt.question.clone();
            out.append(" [");
            out.append(join(choices, ", ").as_str());
            out.append("]");
            out
        } else {
            prompt.question.clone()
        },
        None => prompt.question.clone(),
    }
}

/// How the human is asked for an answer.
#[derive(Debug)]
pub enum AnswerPrompt {
    /// By a pick among `options`.
    Select { message: String, options: Vec<String> },
    /// By a line of text.
    Text { message: String },
}

/// What an [`AnswerPrompt`] holds.
pub enum AnswerPromptView {
    Select { message: Seq<char>, options: Seq<Seq<char>> },
    Text { message: Seq<char> },
}

impl View for AnswerPrompt {
    type V = AnswerPromptView;

    open spec fn view(&self) -> AnswerPromptView {
        match self {
            AnswerPrompt::Select { message, options } => AnswerPromptView::Select {
                message: message@,
                options: options.deep_view(),
            },
            AnswerPrompt::Text { message } => AnswerPromptView::Text { message: message@ },
        }
    }
}

/// The line that announces a question.
pub open spec fn question_line(prompt: PendingPromptView) -> Seq<char> {
    "⏸  "@ + question_text(prompt)
}

/// How `prompt` is put to the human: as a pick where it has choices, however few, with the abort
/// behind them, else as a line of text.
pub open spec fn answer_prompt_for(prompt: PendingPromptView) -> AnswerPromptView {
    match prompt.choices {
        Some(choices) => AnswerPromptView::Select {
            message: "answer:"@,
            options: choices.push(ABORT_ANSWER@),
        },
        None => AnswerPromptView::Text { message: "answer (`"@ + ABORT_ANSWER@ + "` to cancel):"@ },
    }
}

/// The line that announces the question and the prompt that asks for its answer.
pub fn ask_human(prompt: &PendingPrompt) -> (r: (String, AnswerPrompt))
    ensures
        r.0@ == question_line(prompt@),
        r.1@ == answer_prompt_for(prompt@),
{
    let mut line = "⏸  ".to_owned();
    line.append(format_question(prompt).as_str());
    match &prompt.choices {
        Some(choices) => {
            let mut options = copy_texts(choices);
            options.push(ABORT_ANSWER.to_owned());
            assert(options.deep_view() =~= choices.deep_view().push(ABORT_ANSWER@));
            (line, AnswerPrompt::Select { message: "answer:".to_owned(), options })
        },
        None => {
            let mut message = "answer (`".to_owned();
            message.append(ABORT_ANSWER);
            message.append("` to cancel):");
            (line, AnswerPrompt::Text { message })
        },
    }
}

/// The same texts again.
fn copy_texts(texts: &Vec<String>) -> (r: Vec<String>)
    ensures
        r.deep_view() == texts.deep_view(),
{
    let mut out: Vec<String> = Vec::new();
    let mut i: usize = 0;
    while i < texts.len()
        invariant
            i <= texts.len(),
            out@.len() == i,
            forall|j: int| 0 <= j < i ==> #[trigger] out@[j] == texts@[j],
        decreases texts.len() - i,
    {
        out.push(texts[i].clone());
        i += 1;
    }
    assert(out.deep_view() =~= texts.deep_view());
    out
}

/// What came of asking the human for a line.
#[derive(Debug)]
pub enum UserInput {
    /// The human submitted this text.
    Submitted(String),
    /// The human dismissed the prompt (Ctrl-D, Esc).
    Cancelled,
    /// The human interrupted the prompt (Ctrl-C).
    Interrupted,
    /// The prompt could not be shown or read, for this reason.
    Failed(String),
}

/// What a [`UserInput`] holds.
pub enum UserInputView {
    Submitted(Seq<char>),
    Cancelled,
    Interrupted,
    Failed(Seq<char>),
}

impl View for UserInput {
    type V = UserInputView;

    open spec fn view(&self) -> UserInputView {
        match self {
            UserInput::Submitted(text) => UserInputView::Submitted(text@),
            UserInput::Cancelled => UserInputView::Cancelled,
            UserInput::Interrupted => UserInputView::Interrupted,
            UserInput::Failed(reason) => UserInputView::Failed(reason@),
        }
    }
}

/// The answer in what the human did: `Ok(None)` means that the question is aborted, `Err` that no
/// answer could be read. Leaving the prompt aborts the question, not the shell.
pub open spec fn answer_in(input: UserInputView) -> Result<Option<Seq<char>>, Seq<char>> {
    match input {
        UserInputView::Submitted(text) => if trimmed(text) == ABORT_ANSWER@ {
            Ok(None)
        } else {
            Ok(Some(text))
        },
        UserInputView::Cancelled => Ok(None),
        UserInputView::Interrupted => Ok(None),
        UserInputView::Failed(reason) => Err(reason),
    }
}

/// The answer in what the human did. `Ok(None)` means "abort this question".
pub fn take_answer(input: UserInput) -> (r: Result<Option<String>, String>)
    ensures
        match r {
            Ok(answer) => answer_in(input@) == Ok::<_, Seq<char>>(answer.deep_view()),
            Err(reason) => answer_in(input@) == Err::<Option<Seq<char>>, _>(reason@),
        },
{
    match input {
        UserInput::Submitted(text) => if same_text(trim(text.as_str()), ABORT_ANSWER) {
            Ok(None)
        } else {
            Ok(Some(text))
        },
        UserInput::Cancelled => Ok(None),
        UserInput::Interrupted => Ok(None),
        UserInput::Failed(reason) => Err(reason),
    }
}

/// Every question can be aborted: the abort is the last option of a pick, and it aborts whether it
/// is picked or typed.
pub proof fn law_abort_is_always_on_offer(prompt: PendingPromptView)
    ensures
        answer_prompt_for(prompt) matches AnswerPromptView::Select { options, .. }
            ==> options.last() == ABORT_ANSWER@,
        answer_in(UserInputView::Submitted(ABORT_ANSWER@)) == Ok::<Option<Seq<char>>, Seq<char>>(
            None,
        ),
        answer_in(UserInputView::Cancelled) == Ok::<Option<Seq<char>>, Seq<char>>(None),
        answer_in(UserInputView::Interrupted) == Ok::<Option<Seq<char>>, Seq<char>>(None),
{
    reveal_strlit(":abort");
}

/// Every choice of a question is on offer, in order, and is delivered as it stands, unless it reads
/// as the abort.
pub proof fn law_choices_are_delivered_verbatim(prompt: PendingPromptView, i: int)
    requires
        prompt.choices is Some,
        0 <= i < prompt.choices->0.len(),
        trimmed(prompt.choices->0[i]) != ABORT_ANSWER@,
    ensures
        answer_prompt_for(prompt) matches AnswerPromptView::Select { options, .. }
            && options.len() == prompt.choices->0.len() + 1 && options[i] == prompt.choices->0[i]
            && answer_in(UserInputView::Submitted(options[i])) == Ok::<_, Seq<char>>(
            Some(prompt.choices->0[i]),
        ),
{
}

/// Where a question has choices the answer is one of them: whatever option is picked, what is
/// delivered is a choice of the question.
pub proof fn law_answer_is_one_of_the_choices(
    prompt: PendingPromptView,
    text: Seq<char>,
    answer: Seq<char>,
)
    requires
        answer_prompt_for(prompt) matches AnswerPromptView::Select { options, .. }
            && options.contains(text),
        answer_in(UserInputView::Submitted(text)) == Ok::<_, Seq<char>>(Some(answer)),
    ensures
        prompt.choices is Some,
        prompt.choices->0.contains(answer),
{
    law_abort_is_always_on_offer(prompt);
    let choices = prompt.choices->0;
    let options = choices.push(ABORT_ANSWER@);
    let i = choose|i: int| 0 <= i < options.len() && options[i] == text;
    assert(i < choices.len());
    assert(choices[i] == answer);
}

/// A question without choices takes any text but the abort as its answer.
pub proof fn law_free_form_answer_is_verbatim(prompt: PendingPromptView, text: Seq<char>)
    requires
        prompt.choices is None,
        trimmed(text) != ABORT_ANSWER@,
    ensures
        answer_prompt_for(prompt) is Text,
        answer_in(UserInputView::Submitted(text)) == Ok::<_, Seq<char>>(Some(text)),
{
}

/// A question is shown whole, and behind it every choice, whole and in order: the first choice opens
/// the brackets, each further one stands behind a comma and a space, and the last closes them. A
/// question without choices is shown as it is.
pub proof fn law_question_is_shown_whole(
    question: Seq<char>,
    choices: Seq<Seq<char>>,
    choice: Seq<char>,
    shown: Seq<char>,
)
    requires
        choices.len() > 0,
        question_text(PendingPromptView { question, choices: Some(choices) }) == shown.push(']'),
    ensures
        question_text(PendingPromptView { question, choices: None }) == question,
        question_text(PendingPromptView { question, choices: Some(Seq::empty()) }) == question,
        question_text(PendingPromptView { question, choices: Some(seq![choice]) }) == question
            + seq![' ', '['] + choice + seq![']'],
        question_text(PendingPromptView { question, choices: Some(choices.push(choice)) }) == shown
            + seq![',', ' '] + choice + seq![']'],
{
    reveal_strlit(" [");
    reveal_strlit("]");
    reveal_strlit(", ");
    law_joining_adds_part_by_part(choices, choice, ", "@);
    assert(" ["@ =~= seq![' ', '[']);
    assert("]"@ =~= seq![']']);
    assert(", "@ =~= seq![',', ' ']);
    let old_text = question + " ["@ + joined(choices, ", "@);
    assert(old_text =~= (old_text + "]"@).drop_last());
    assert(shown =~= shown.push(']').drop_last());
    let new_text = question_text(
        PendingPromptView { question, choices: Some(choices.push(choice)) },
    );
    assert(new_text =~= old_text + ", "@ + choice + "]"@);
}

/// What is shown of a question with choices ends in the bracket that closes them.
pub proof fn law_choices_are_bracketed(question: Seq<char>, choices: Seq<Seq<char>>)
    requires
        choices.len() > 0,
    ensures
        question_text(PendingPromptView { question, choices: Some(choices) }).len() > 0,
        question_text(PendingPromptView { question, choices: Some(choices) }).last() == ']',
{
    reveal_strlit("]");
}

/// A question is announced with all that is shown of it, and is put to the human with all of its
/// choices, each whole and in its place, and the abort behind them; without choices, as a line of text
/// whose prompt names the abort.
pub proof fn law_question_is_put_whole(prompt: PendingPromptView)
    ensures
        question_line(prompt) == seq!['⏸', ' ', ' '] + question_text(prompt),
        prompt.choices matches Some(choices) ==> {
            &&& answer_prompt_for(prompt) matches AnswerPromptView::Select { message, options }
            &&& message == "answer:"@
            &&& options.len() == choices.len() + 1
            &&& forall|i: int| 0 <= i < choices.len() ==> #[trigger] options[i] == choices[i]
            &&& options[choices.len() as int] == ":abort"@
        },
        prompt.choices is None ==> answer_prompt_for(prompt) == (AnswerPromptView::Text {
            message: "answer (`:abort` to cancel):"@,
        }),
{
    reveal_strlit("⏸  ");
    assert("⏸  "@ =~= seq!['⏸', ' ', ' ']);
    reveal_strlit("answer (`");
    reveal_strlit(":abort");
    reveal_strlit("` to cancel):");
    reveal_strlit("answer (`:abort` to cancel):");
    assert("answer (`"@ + ":abort"@ + "` to cancel):"@ =~= "answer (`:abort` to cancel):"@);
}

/// A text that the human submits is the answer itself, character for character, unless it reads
/// `:abort` once the white space around it is gone; that text, and leaving the prompt, is no answer. A
/// prompt that fails gives its reason.
pub proof fn law_submitted_text_is_the_answer(text: Seq<char>)
    ensures
        trimmed(text) != ":abort"@ ==> answer_in(UserInputView::Submitted(text)) == Ok::<
            _,
            Seq<char>,
        >(Some(text)),
        trimmed(text) == ":abort"@ ==> answer_in(UserInputView::Submitted(text)) == Ok::<
            Option<Seq<char>>,
            Seq<char>,
        >(None),
        answer_in(UserInputView::Cancelled) == Ok::<Option<Seq<char>>, Seq<char>>(None),
        answer_in(UserInputView::Interrupted) == Ok::<Option<Seq<char>>, Seq<char>>(None),
        answer_in(UserInputView::Failed(text)) == Err::<Option<Seq<char>>, _>(text),
{
}

/// What is read of a prompt and of an input is what they hold, field by field.
pub proof fn law_prompts_and_inputs_are_read_as_they_are(
    message: String,
    options: Vec<String>,
    text: String,
)
    ensures
        (AnswerPrompt::Text { message })@ == (AnswerPromptView::Text { message: message@ }),
        (AnswerPrompt::Select { message, options })@ matches AnswerPromptView::Select {
            message: shown,
            options: offered,
        } && shown == message@ && offered.len() == options@.len() && forall|i: int|
            0 <= i < offered.len() ==> #[trigger] offered[i] == options@[i]@,
        UserInput::Submitted(text)@ == UserInputView::Submitted(text@),
        UserInput::Failed(text)@ == UserInputView::Failed(text@),
        UserInput::Cancelled@ is Cancelled,
        UserInput::Interrupted@ is Interrupted,
{
}

} // verus!
