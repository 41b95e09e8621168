//! The command prompt: `clank [/cwd] ❯`.
//!
//! It is made of the agent's label, the working directory in blue brackets when the agent reports
//! one, and a `❯` marker right before the input that is green after a success and red after a
//! failure.
use vstd::prelude::*;

#[allow(unused_imports)]
use crate::text::{drop_suffix, without_suffix};

verus! {

/// Closes a colour span opened in a prompt segment.
pub const ANSI_RESET: &'static str = "\x1b[0m";

/// The kebab-case form of a text, as `heck` defines it.
pub uninterp spec fn kebab_case(s: Seq<char>) -> Seq<char>;

/// Calls `heck::ToKebabCase::to_kebab_case`, which splits `s` into words at characters that are not
/// alphanumeric and at changes of case, and writes the words in lower case with a hyphen between
/// neighbours. The result is a function of `s` alone, is named [`kebab_case`], is empty where `s` is,
/// and holds no `$`, which is neither alphanumeric, nor the lower case of a character that is, nor
/// the hyphen: what the words of a text are is left unsaid.
#[verifier::external_body]
fn to_kebab_case(s: &str) -> (r: String)
    ensures
        r@ == kebab_case(s@),
        s@.len() == 0 ==> r@.len() == 0,
        !r@.contains('$'),
{
    heck::ToKebabCase::to_kebab_case(s)
}

/// The label of an agent type whose name is `kebab` in kebab case.
pub open spec fn label_of_kebab(kebab: Seq<char>) -> Seq<char> {
    let stem = without_suffix(kebab, "-agent"@);
    if stem.len() == 0 {
        "agent"@
    } else {
        stem
    }
}

/// The label of an agent type whose name is `kebab` in kebab case: the name without a trailing
/// `-agent`, a suffix that carries no information at a prompt. Never empty.
pub fn kebab_prompt_label(kebab: &str) -> (r: String)
    ensures
        r@ == label_of_kebab(kebab@),
{
    let stem = drop_suffix(kebab, "-agent");
    if stem.is_empty() {
        "agent".to_owned()
    } else {
        stem.to_owned()
    }
}

/// The prompt label of the agent type called `name`, so that the surface reads as the agent's own:
/// `ClankAgent` gives `clank`, `RpcCounter` gives `rpc-counter`. A type called literally `Agent`
/// and one with an empty name give `agent`. The marker ends the prompt, so the label carries no `$`.
pub fn shell_prompt_label(name: &str) -> (r: String)
    ensures
        r@ == label_of_kebab(kebab_case(name@)),
        name@.len() == 0 ==> r@ == "agent"@,
        r@.len() > 0,
        !r@.contains('$'),
{
    let kebab = to_kebab_case(name);
    proof {
        reveal_strlit("-agent");
        law_label_is_never_empty(kebab@);
        law_label_brings_no_dollar(kebab@);
    }
    kebab_prompt_label(kebab.as_str())
}

/// The label as it is shown: bold and bright cyan where `color`, else plain.
pub open spec fn shown_label(label: Seq<char>, color: bool) -> Seq<char> {
    if color {
        "\x1b[1;96m"@ + label + ANSI_RESET@
    } else {
        label
    }
}

/// The agent label as the leading segment of the prompt.
pub fn label_prefix(label: &str, color: bool) -> (r: String)
    ensures
        r@ == shown_label(label@, color),
{
    if color {
        let mut out = "\x1b[1;96m".to_owned();
        out.append(label);
        out.append(ANSI_RESET);
        out
    } else {
        label.to_owned()
    }
}

/// The marker before the input: bright green after a success and bright red after a failure, plain
/// without `color`.
pub open spec fn shown_marker(ok: bool, color: bool) -> Seq<char> {
    if !color {
        "❯"@
    } else if ok {
        "\x1b[92m❯"@ + ANSI_RESET@
    } else {
        "\x1b[91m❯"@ + ANSI_RESET@
    }
}

/// The working directory in brackets, blue where `color`.
pub open spec fn shown_cwd(cwd: Seq<char>, color: bool) -> Seq<char> {
    if color {
        "\x1b[34m["@ + cwd + "]"@ + ANSI_RESET@
    } else {
        "["@ + cwd + "]"@
    }
}

/// The message of the prompt: the working directory, where there is one, then the marker.
pub open spec fn shown_message(cwd: Option<Seq<char>>, ok: bool, color: bool) -> Seq<char> {
    match cwd {
        Some(cwd) if cwd.len() > 0 => shown_cwd(cwd, color) + " "@ + shown_marker(ok, color),
        _ => shown_marker(ok, color),
    }
}

/// The prompt message that is shown right before the input: the working directory in brackets, when
/// there is one that is not empty, then the marker. `color` gates every escape.
pub fn prompt_message(cwd: Option<&str>, ok: bool, color: bool) -> (r: String)
    ensures
        r@ == shown_message(cwd.deep_view(), ok, color),
{
    let mut out = String::new();
    match cwd {
        Some(cwd) => if !cwd.is_empty() {
            out.append(if color { "\x1b[34m[" } else { "[" });
            out.append(cwd);
            out.append("]");
            if color {
                out.append(ANSI_RESET);
            }
            out.append(" ");
        },
        None => {},
    }
    if !color {
        out.append("❯");
    } else {
        out.append(if ok { "\x1b[92m❯" } else { "\x1b[91m❯" });
        out.append(ANSI_RESET);
    }
    assert(out@ =~= shown_message(cwd.deep_view(), ok, color));
    out
}

/// A colour of the terminal.
#[derive(Debug, Clone, Copy, PartialEq, Eq, Structural)]
pub enum Color {
    DarkYellow,
}

/// A text in a colour, or in that of the terminal.
#[derive(Debug)]
pub struct StyledText {
    pub content: String,
    pub foreground: Option<Color>,
}

/// How a prompt is styled. A part that is `None` keeps its default.
#[derive(Debug)]
pub struct PromptStyle {
    /// What leads the prompt.
    pub prompt_prefix: StyledText,
    /// What leads the prompt once it is answered.
    pub answered_prompt_prefix: Option<StyledText>,
}

/// The styling of the command prompt: the agent label leads it, with any escapes of its own. The
/// answered prefix reuses the label, so that submitted lines read identically.
pub fn shell_render_config(prefix: &str) -> (r: PromptStyle)
    ensures
        r.prompt_prefix.content@ == prefix@,
        r.prompt_prefix.foreground is None,
        r.answered_prompt_prefix matches Some(answered) && answered.content@ == prefix@
            && answered.foreground is None,
{
    PromptStyle {
        prompt_prefix: StyledText { content: prefix.to_owned(), foreground: None },
        answered_prompt_prefix: Some(
            StyledText { content: prefix.to_owned(), foreground: None },
        ),
    }
}

/// The styling of a human-answer prompt: the same marker in a neutral colour, visually distinct
/// from the command line, so it is clear that the shell is waiting on an answer, not a command.
pub fn answer_render_config() -> (r: PromptStyle)
    ensures
        r.prompt_prefix.content@ == "❯"@,
        r.prompt_prefix.foreground == Some(Color::DarkYellow),
        r.answered_prompt_prefix is None,
{
    PromptStyle {
        prompt_prefix: StyledText {
            content: "❯".to_owned(),
            foreground: Some(Color::DarkYellow),
        },
        answered_prompt_prefix: None,
    }
}

/// A label is never empty.
pub proof fn law_label_is_never_empty(kebab: Seq<char>)
    ensures
        label_of_kebab(kebab).len() > 0,
{
    reveal_strlit("agent");
}

/// A label holds no `$` that the name in kebab case does not hold.
pub proof fn law_label_brings_no_dollar(kebab: Seq<char>)
    requires
        !kebab.contains('$'),
    ensures
        !label_of_kebab(kebab).contains('$'),
{
    reveal_strlit("agent");
    let stem = without_suffix(kebab, "-agent"@);
    assert forall|i: int| 0 <= i < stem.len() implies #[trigger] stem[i] != '$' by {
        assert(stem[i] == kebab[i]);
    }
}

/// A trailing `-agent` is dropped, and any other name is kept whole.
pub proof fn law_label_drops_the_suffix(stem: Seq<char>, other: Seq<char>)
    requires
        stem.len() > 0,
        other.len() > 0,
        !"-agent"@.is_suffix_of(other),
    ensures
        label_of_kebab(stem + "-agent"@) == stem,
        label_of_kebab(other) == other,
{
    let kebab = stem + "-agent"@;
    assert(kebab.skip(stem.len() as int) =~= "-agent"@);
    assert("-agent"@.is_suffix_of(kebab));
    assert(kebab.take(stem.len() as int) =~= stem);
}

/// Whether `s` holds an escape character.
pub open spec fn has_escape(s: Seq<char>) -> bool {
    exists|i: int| 0 <= i < s.len() && #[trigger] s[i] == '\x1b'
}

/// What a terminal shows of `s`: all but the colour sequences, each of which runs from an escape
/// character to the next `m`. `escaped` tells whether `s` starts inside one.
pub open spec fn visible(s: Seq<char>, escaped: bool) -> Seq<char>
    decreases s.len(),
{
    if s.len() == 0 {
        Seq::empty()
    } else if escaped {
        visible(s.skip(1), s[0] != 'm')
    } else if s[0] == '\x1b' {
        visible(s.skip(1), true)
    } else {
        seq![s[0]] + visible(s.skip(1), false)
    }
}

/// Whether a text that starts inside a colour sequence where `escaped` ends inside one.
spec fn escaped_after(s: Seq<char>, escaped: bool) -> bool
    decreases s.len(),
{
    if s.len() == 0 {
        escaped
    } else if escaped {
        escaped_after(s.skip(1), s[0] != 'm')
    } else {
        escaped_after(s.skip(1), s[0] == '\x1b')
    }
}

proof fn lemma_visible_concat(a: Seq<char>, b: Seq<char>, escaped: bool)
    ensures
        visible(a + b, escaped) == visible(a, escaped) + visible(b, escaped_after(a, escaped)),
    decreases a.len(),
{
    if a.len() == 0 {
        assert(a + b =~= b);
        assert(visible(a, escaped) + visible(b, escaped) =~= visible(b, escaped));
    } else {
        assert((a + b).skip(1) =~= a.skip(1) + b);
        if escaped {
            lemma_visible_concat(a.skip(1), b, a[0] != 'm');
        } else {
            lemma_visible_concat(a.skip(1), b, a[0] == '\x1b');
            if a[0] != '\x1b' {
                let rest = visible(b, escaped_after(a, escaped));
                assert(seq![a[0]] + (visible(a.skip(1), false) + rest) =~= (seq![a[0]] + visible(
                    a.skip(1),
                    false,
                )) + rest);
            }
        }
    }
}

proof fn lemma_plain_is_visible(s: Seq<char>)
    requires
        !has_escape(s),
    ensures
        visible(s, false) == s,
        !escaped_after(s, false),
    decreases s.len(),
{
    if s.len() > 0 {
        let rest = s.skip(1);
        assert forall|i: int| 0 <= i < rest.len() implies #[trigger] rest[i] != '\x1b' by {
            assert(rest[i] == s[i + 1]);
        }
        lemma_plain_is_visible(rest);
        assert(s[0] != '\x1b');
        assert(seq![s[0]] + rest =~= s);
    }
}

proof fn lemma_sequence_is_invisible(s: Seq<char>, escaped: bool)
    requires
        s.len() > 0,
        escaped || (s.len() > 1 && s[0] == '\x1b'),
        s.last() == 'm',
        forall|i: int| 0 <= i < s.len() - 1 ==> #[trigger] s[i] != 'm',
    ensures
        visible(s, escaped) == Seq::<char>::empty(),
        !escaped_after(s, escaped),
    decreases s.len(),
{
    reveal_with_fuel(visible, 2);
    reveal_with_fuel(escaped_after, 2);
    let rest = s.skip(1);
    if s.len() > 1 {
        assert(s[0] != 'm');
        assert forall|i: int| 0 <= i < rest.len() - 1 implies #[trigger] rest[i] != 'm' by {
            assert(rest[i] == s[i + 1]);
        }
        lemma_sequence_is_invisible(rest, true);
    }
}

/// A colour sequence before a plain text leaves the text.
proof fn lemma_colour_then_plain(colour: Seq<char>, plain: Seq<char>)
    requires
        colour.len() > 1,
        colour[0] == '\x1b',
        colour.last() == 'm',
        forall|i: int| 0 <= i < colour.len() - 1 ==> #[trigger] colour[i] != 'm',
        !has_escape(plain),
    ensures
        visible(colour + plain + ANSI_RESET@, false) == plain,
        !escaped_after(colour + plain + ANSI_RESET@, false),
{
    reveal_strlit("\x1b[0m");
    lemma_sequence_is_invisible(colour, false);
    lemma_plain_is_visible(plain);
    lemma_sequence_is_invisible(ANSI_RESET@, false);
    lemma_visible_concat(colour, plain, false);
    lemma_escaped_concat(colour, plain, false);
    lemma_visible_concat(colour + plain, ANSI_RESET@, false);
    lemma_escaped_concat(colour + plain, ANSI_RESET@, false);
    assert(Seq::<char>::empty() + plain + Seq::<char>::empty() =~= plain);
}

proof fn lemma_escaped_concat(a: Seq<char>, b: Seq<char>, escaped: bool)
    ensures
        escaped_after(a + b, escaped) == escaped_after(b, escaped_after(a, escaped)),
    decreases a.len(),
{
    if a.len() == 0 {
        assert(a + b =~= b);
    } else {
        assert((a + b).skip(1) =~= a.skip(1) + b);
        if escaped {
            lemma_escaped_concat(a.skip(1), b, a[0] != 'm');
        } else {
            lemma_escaped_concat(a.skip(1), b, a[0] == '\x1b');
        }
    }
}

/// Without colour no segment of the prompt holds an escape that the label or the working directory
/// did not bring along.
pub proof fn law_plain_prompt_has_no_escape(label: Seq<char>, cwd: Option<Seq<char>>, ok: bool)
    requires
        !has_escape(label),
        cwd matches Some(path) ==> !has_escape(path),
    ensures
        !has_escape(shown_label(label, false)),
        !has_escape(shown_message(cwd, ok, false)),
{
    reveal_strlit("❯");
    reveal_strlit("[");
    reveal_strlit("]");
    reveal_strlit(" ");
    let message = shown_message(cwd, ok, false);
    if cwd is Some && cwd->0.len() > 0 {
        let path = cwd->0;
        assert forall|i: int| 0 <= i < message.len() implies #[trigger] message[i] != '\x1b' by {
            if 1 <= i <= path.len() {
                assert(message[i] == path[i - 1]);
            }
        }
    }
}

/// Colour changes nothing of what a prompt reads: a terminal shows the coloured label and message
/// as the plain ones.
pub proof fn law_colour_is_invisible(label: Seq<char>, cwd: Option<Seq<char>>, ok: bool)
    requires
        !has_escape(label),
        cwd matches Some(path) ==> !has_escape(path),
    ensures
        visible(shown_label(label, true), false) == shown_label(label, false),
        visible(shown_message(cwd, ok, true), false) == shown_message(cwd, ok, false),
{
    reveal_strlit("\x1b[1;96m");
    reveal_strlit("\x1b[92m");
    reveal_strlit("\x1b[91m");
    reveal_strlit("\x1b[34m");
    reveal_strlit("\x1b[92m❯");
    reveal_strlit("\x1b[91m❯");
    reveal_strlit("\x1b[34m[");
    reveal_strlit("❯");
    reveal_strlit("[");
    reveal_strlit("]");
    reveal_strlit(" ");
    lemma_colour_then_plain("\x1b[1;96m"@, label);
    let marker = shown_marker(ok, true);
    assert("\x1b[92m❯"@ =~= "\x1b[92m"@ + "❯"@);
    assert("\x1b[91m❯"@ =~= "\x1b[91m"@ + "❯"@);
    lemma_colour_then_plain("\x1b[92m"@, "❯"@);
    lemma_colour_then_plain("\x1b[91m"@, "❯"@);
    if cwd is Some && cwd->0.len() > 0 {
        let path = cwd->0;
        let plain = "["@ + path + "]"@;
        assert forall|i: int| 0 <= i < plain.len() implies #[trigger] plain[i] != '\x1b' by {
            if 1 <= i <= path.len() {
                assert(plain[i] == path[i - 1]);
            }
        }
        lemma_colour_then_plain("\x1b[34m"@, plain);
        assert(shown_cwd(path, true) =~= "\x1b[34m"@ + plain + ANSI_RESET@);
        lemma_plain_is_visible(" "@);
        lemma_visible_concat(shown_cwd(path, true), " "@, false);
        lemma_escaped_concat(shown_cwd(path, true), " "@, false);
        lemma_visible_concat(shown_cwd(path, true) + " "@, marker, false);
    }
}

/// The marker is the last thing before the input, and with colour it tells a success from a
/// failure.
pub proof fn law_marker_tracks_the_last_exit(cwd: Option<Seq<char>>, ok: bool, color: bool)
    ensures
        shown_marker(ok, color).is_suffix_of(shown_message(cwd, ok, color)),
        shown_message(cwd, true, true) != shown_message(cwd, false, true),
        shown_message(cwd, true, false) == shown_message(cwd, false, false),
{
    reveal_strlit("\x1b[92m❯");
    reveal_strlit("\x1b[91m❯");
    let message = shown_message(cwd, ok, color);
    let marker = shown_marker(ok, color);
    assert(message.skip(message.len() - marker.len()) =~= marker);
    let good = shown_message(cwd, true, true);
    let bad = shown_message(cwd, false, true);
    let at = good.len() - shown_marker(true, true).len() + 3;
    assert(good[at] == '2');
    assert(bad[at] == '1');
}

/// A label that would be empty is `agent`.
pub proof fn law_empty_label_is_agent()
    ensures
        label_of_kebab(Seq::empty()) == "agent"@,
        label_of_kebab("-agent"@) == "agent"@,
{
    reveal_strlit("-agent");
    assert("-agent"@.skip(0) =~= "-agent"@);
}

/// The prompt shows the label and the working directory whole: without colour the label stands as it
/// is and the directory between brackets, a space and the marker; with colour the escapes stand around
/// them and change nothing else. Without a directory, or with an empty one, the marker stands alone.
pub proof fn law_prompt_shows_all_of_it(label: Seq<char>, cwd: Seq<char>, ok: bool)
    requires
        cwd.len() > 0,
    ensures
        shown_label(label, false) == label,
        shown_label(label, true) == "\x1b[1;96m"@ + label + "\x1b[0m"@,
        shown_message(None, ok, false) == seq!['❯'],
        shown_message(Some(Seq::empty()), ok, false) == seq!['❯'],
        shown_message(Some(cwd), ok, false) == seq!['['] + cwd + seq![']', ' ', '❯'],
        ({
            let marker = if ok {
                "\x1b[92m❯\x1b[0m"@
            } else {
                "\x1b[91m❯\x1b[0m"@
            };
            &&& shown_message(None, ok, true) == marker
            &&& shown_message(Some(Seq::empty()), ok, true) == marker
            &&& shown_message(Some(cwd), ok, true) == "\x1b[34m["@ + cwd + "]\x1b[0m "@ + marker
        }),
{
    reveal_strlit("❯");
    reveal_strlit("[");
    reveal_strlit("]");
    reveal_strlit(" ");
    reveal_strlit("\x1b[0m");
    reveal_strlit("\x1b[92m❯");
    reveal_strlit("\x1b[91m❯");
    reveal_strlit("\x1b[92m❯\x1b[0m");
    reveal_strlit("\x1b[91m❯\x1b[0m");
    reveal_strlit("]\x1b[0m ");
    assert(shown_marker(ok, false) =~= seq!['❯']);
    assert(shown_marker(true, true) =~= "\x1b[92m❯\x1b[0m"@);
    assert(shown_marker(false, true) =~= "\x1b[91m❯\x1b[0m"@);
    assert(shown_message(Some(cwd), ok, false) =~= seq!['['] + cwd + seq![']', ' ', '❯']);
    assert("]"@ + "\x1b[0m"@ + " "@ =~= "]\x1b[0m "@);
    assert(shown_cwd(cwd, true) + " "@ =~= "\x1b[34m["@ + cwd + "]\x1b[0m "@);
}

} // verus!
