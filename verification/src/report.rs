//! The exit adapter: from the outcome of a run to a process exit code and,
//! on failure, the one warning line to emit.

use vstd::prelude::*;
use crate::errors::Error;

verus! {

/// Whether a text begins, ignoring letter case, with the word `error`.
pub open spec fn starts_with_error(s: Seq<char>) -> bool {
    &&& s.len() >= 5
    &&& (s[0] == 'e' || s[0] == 'E')
    &&& (s[1] == 'r' || s[1] == 'R')
    &&& (s[2] == 'r' || s[2] == 'R')
    &&& (s[3] == 'o' || s[3] == 'O')
    &&& (s[4] == 'r' || s[4] == 'R')
}

/// The single line emitted on the warning channel for a failing run: the
/// message with a trailing newline, prefixed with `Error: ` unless the
/// message already starts with `error` in any letter case.
pub open spec fn failure_line_text(message: Seq<char>) -> Seq<char> {
    if starts_with_error(message) {
        message + "\n"@
    } else {
        "Error: "@ + message + "\n"@
    }
}

/// Format the warning line for a failure message.
pub fn failure_line(message: &str) -> (r: String)
    ensures
        r@ == failure_line_text(message@),
{
    let n = message.unicode_len();
    let mut prefixed = false;
    if n >= 5 {
        let c0 = message.get_char(0);
        let c1 = message.get_char(1);
        let c2 = message.get_char(2);
        let c3 = message.get_char(3);
        let c4 = message.get_char(4);
        prefixed = (c0 == 'e' || c0 == 'E') && (c1 == 'r' || c1 == 'R') && (c2 == 'r' || c2
            == 'R') && (c3 == 'o' || c3 == 'O') && (c4 == 'r' || c4 == 'R');
    }
    if prefixed {
        let mut out = message.to_owned();
        out.append("\n");
        out
    } else {
        let mut out = String::from_str("Error: ");
        out.append(message);
        out.append("\n");
        out
    }
}

/// Convert the outcome of a run into the process exit code and, for a
/// failure, the warning line to emit: code `0` and no line on success, code
/// `1` and exactly one line on failure.
pub fn report_outcome(outcome: &Result<(), Error>) -> (r: (u8, Option<String>))
    ensures
        outcome is Ok ==> r.0 == 0 && r.1 is None,
        outcome matches Err(e) ==> (r.0 == 1 && (r.1 matches Some(line) && line@
            == failure_line_text(e.message_view()))),
{
    match outcome {
        Ok(()) => (0, None),
        Err(e) => {
            let line = failure_line(e.message().as_str());
            (1, Some(line))
        },
    }
}

/// Every failure line ends with a newline; the message is kept verbatim when
/// it already starts with `error` in any letter case, and otherwise gains
/// the prefix `Error: `.
pub proof fn lemma_failure_line_form(message: Seq<char>)
    ensures
        failure_line_text(message).len() > 0,
        failure_line_text(message).last() == '\n',
        starts_with_error(message) ==> failure_line_text(message) == message + "\n"@,
        !starts_with_error(message) ==> failure_line_text(message) == "Error: "@ + message + "\n"@,
{
    reveal_strlit("\n");
    reveal_strlit("Error: ");
}

} // verus!
