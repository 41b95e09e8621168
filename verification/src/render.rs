//! How the result of a command appears in the terminal.
use vstd::prelude::*;

use crate::eval_result::EvalResult;
#[allow(unused_imports)]
use crate::eval_result::EvalResultView;
#[allow(unused_imports)]
use crate::text::{decimal, decimal_text, law_decimal_writes_the_number, number_in};

verus! {

/// `s`, with a line feed behind it where it is not empty and does not end in one.
pub open spec fn terminated(s: Seq<char>) -> Seq<char> {
    if s.len() == 0 || s.last() == '\n' {
        s
    } else {
        s + "\n"@
    }
}

/// What a failure is noted as; nothing for a success.
pub open spec fn failure_note(exit_code: u8) -> Seq<char> {
    if exit_code == 0 {
        Seq::empty()
    } else {
        "exit "@ + decimal(exit_code as nat) + "\n"@
    }
}

/// The output of `result`: what it wrote, each part on lines of its own, then a note of a failure.
pub open spec fn rendered(result: EvalResultView) -> Seq<char> {
    terminated(result.stdout) + terminated(result.stderr) + failure_note(result.exit_code)
}

/// Appends `part` to `out` and terminates it.
fn push_terminated(out: &mut String, part: &str)
    ensures
        final(out)@ == old(out)@ + terminated(part@),
{
    out.append(part);
    let len: usize = part.unicode_len();
    if len > 0 && part.get_char(len - 1) != '\n' {
        out.append("\n");
    }
    assert(out@ =~= old(out)@ + terminated(part@));
}

/// Renders the output of `result` as it should appear in the terminal.
pub fn render(result: &EvalResult) -> (r: String)
    ensures
        r@ == rendered(result@),
{
    let mut out = String::new();
    push_terminated(&mut out, result.stdout.as_str());
    push_terminated(&mut out, result.stderr.as_str());
    if result.exit_code != 0 {
        out.append("exit ");
        out.append(decimal_text(result.exit_code as u64).as_str());
        out.append("\n");
    }
    assert(out@ =~= rendered(result@));
    out
}

/// A rendering is empty exactly for a success that wrote nothing, and otherwise ends its last line,
/// so whatever is printed next starts on a line of its own.
pub proof fn law_rendering_is_whole_lines(result: EvalResultView)
    ensures
        rendered(result).len() == 0 <==> result.stdout.len() == 0 && result.stderr.len() == 0
            && result.exit_code == 0,
        rendered(result).len() > 0 ==> rendered(result).last() == '\n',
{
    reveal_strlit("\n");
    reveal_strlit("exit ");
    let out = rendered(result);
    if result.exit_code != 0 {
        assert(out.last() == "\n"@.last());
    } else if result.stderr.len() > 0 {
        assert(out.last() == terminated(result.stderr).last());
    } else if result.stdout.len() > 0 {
        assert(out.last() == terminated(result.stdout).last());
    }
}

/// Standard output comes first and verbatim, standard error follows it verbatim.
pub proof fn law_rendering_keeps_output(result: EvalResultView)
    ensures
        result.stdout.is_prefix_of(rendered(result)),
        result.stderr.is_prefix_of(
            rendered(result).skip(terminated(result.stdout).len() as int),
        ),
{
    let out = rendered(result);
    let head = terminated(result.stdout).len() as int;
    assert(out.take(result.stdout.len() as int) =~= result.stdout);
    assert(out.skip(head) =~= terminated(result.stderr) + failure_note(result.exit_code));
}

/// Nothing of a result is lost or added in its rendering: it is standard output, standard error and a
/// note, in this order, with a line feed behind each of the first two exactly where it holds text that
/// does not end in one. The note is there exactly for a failure, and gives its exit code in decimal.
pub proof fn law_rendering_is_exact(result: EvalResultView)
    ensures
        ({
            let out = if result.stdout.len() > 0 && result.stdout.last() != '\n' {
                result.stdout.push('\n')
            } else {
                result.stdout
            };
            let err = if result.stderr.len() > 0 && result.stderr.last() != '\n' {
                result.stderr.push('\n')
            } else {
                result.stderr
            };
            let head = out + err;
            let note = rendered(result).skip(head.len() as int);
            &&& head.is_prefix_of(rendered(result))
            &&& result.exit_code == 0 <==> note.len() == 0
            &&& result.exit_code != 0 ==> note.take(5) == seq!['e', 'x', 'i', 't', ' ']
                && note.len() > 6 && note[5] != '0' && note.last() == '\n' && number_in(note.subrange(5, note.len() - 1))
                == result.exit_code
            &&& forall|i: int| 5 <= i < note.len() - 1 ==> '0' <= #[trigger] note[i] <= '9'
        }),
{
    reveal_strlit("\n");
    reveal_strlit("exit ");
    law_decimal_writes_the_number(result.exit_code as nat);
    let out = if result.stdout.len() > 0 && result.stdout.last() != '\n' {
        result.stdout.push('\n')
    } else {
        result.stdout
    };
    let err = if result.stderr.len() > 0 && result.stderr.last() != '\n' {
        result.stderr.push('\n')
    } else {
        result.stderr
    };
    let code = failure_note(result.exit_code);
    assert(terminated(result.stdout) =~= out);
    assert(terminated(result.stderr) =~= err);
    assert(rendered(result) =~= out + err + code);
    assert(rendered(result).take((out + err).len() as int) =~= out + err);
    assert(rendered(result).skip((out + err).len() as int) =~= code);
    if result.exit_code != 0 {
        let digits = decimal(result.exit_code as nat);
        assert(code.take(5) =~= seq!['e', 'x', 'i', 't', ' ']);
        assert(code.subrange(5, code.len() - 1) =~= digits);
        assert forall|i: int| 5 <= i < code.len() - 1 implies '0' <= #[trigger] code[i] <= '9' by {
            assert(code[i] == digits[i - 5]);
        }
    }
}

} // verus!
