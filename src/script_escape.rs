//! Escaping of text that is placed inside a single- or double-quoted
//! JavaScript string literal.
use vstd::prelude::*;
use crate::text::push_char;

verus! {

/// What one character becomes inside a JavaScript string literal.
pub open spec fn escape_js_char(c: char) -> Seq<char> {
    if c == '\\' {
        seq!['\\', '\\']
    } else if c == '\'' {
        seq!['\\', '\'']
    } else if c == '"' {
        seq!['\\', '"']
    } else if c == '\n' {
        seq!['\\', 'n']
    } else if c == '\r' {
        seq!['\\', 'r']
    } else if c == '\t' {
        seq!['\\', 't']
    } else {
        seq![c]
    }
}

/// The escaped form of a whole text: each character escaped in turn.
pub open spec fn escape_js(s: Seq<char>) -> Seq<char>
    decreases s.len(),
{
    if s.len() == 0 {
        Seq::empty()
    } else {
        escape_js(s.drop_last()) + escape_js_char(s.last())
    }
}

/// Escapes backslashes, both quote characters, and the newline, carriage
/// return and tab characters so that the text can be embedded in a script.
pub fn escape_for_java_script_string(message: &str) -> (r: String)
    ensures
        r@ == escape_js(message@),
{
    let n = message.unicode_len();
    let mut result = String::new();
    let mut i: usize = 0;
    while i < n
        invariant
            n == message@.len(),
            i <= n,
            result@ == escape_js(message@.subrange(0, i as int)),
        decreases n - i,
    {
        let ch = message.get_char(i);
        proof {
            let pre = message@.subrange(0, i as int);
            let next = message@.subrange(0, i + 1);
            assert(next.drop_last() =~= pre);
        }
        if ch == '\\' {
            push_char(&mut result, '\\');
            push_char(&mut result, '\\');
        } else if ch == '\'' {
            push_char(&mut result, '\\');
            push_char(&mut result, '\'');
        } else if ch == '"' {
            push_char(&mut result, '\\');
            push_char(&mut result, '"');
        } else if ch == '\n' {
            push_char(&mut result, '\\');
            push_char(&mut result, 'n');
        } else if ch == '\r' {
            push_char(&mut result, '\\');
            push_char(&mut result, 'r');
        } else if ch == '\t' {
            push_char(&mut result, '\\');
            push_char(&mut result, 't');
        } else {
            push_char(&mut result, ch);
        }
        i = i + 1;
    }
    assert(message@.subrange(0, n as int) =~= message@);
    result
}

} // verus!
