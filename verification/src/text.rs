//! Characters and strings as the interpreter sees them.

use vstd::prelude::*;

verus! {

/// The characters that separate words: the code points that Unicode marks
/// as White_Space, which are those that `char::is_whitespace` accepts.
pub open spec fn white_space(c: char) -> bool {
    ||| '\u{9}' <= c <= '\u{d}'
    ||| c == ' '
    ||| c == '\u{85}'
    ||| c == '\u{a0}'
    ||| c == '\u{1680}'
    ||| '\u{2000}' <= c <= '\u{200a}'
    ||| c == '\u{2028}'
    ||| c == '\u{2029}'
    ||| c == '\u{202f}'
    ||| c == '\u{205f}'
    ||| c == '\u{3000}'
}

/// Tells whether `c` separates words.
#[verifier::when_used_as_spec(white_space)]
pub fn is_whitespace(c: char) -> (b: bool)
    ensures
        b == white_space(c),
{
    ('\u{9}' <= c && c <= '\u{d}') || c == ' ' || c == '\u{85}' || c == '\u{a0}' || c == '\u{1680}'
        || ('\u{2000}' <= c && c <= '\u{200a}') || c == '\u{2028}' || c == '\u{2029}' || c
        == '\u{202f}' || c == '\u{205f}' || c == '\u{3000}'
}

/// `String::push` appends one character to the end of the string and
/// leaves the rest of it as it was.
pub assume_specification[ String::push ](s: &mut String, ch: char)
    ensures
        final(s)@ == old(s)@.push(ch),
;

/// The words of `parts` in order, with one space between neighbours.
pub open spec fn join_words(parts: Seq<Seq<char>>) -> Seq<char>
    decreases parts.len(),
{
    if parts.len() == 0 {
        Seq::empty()
    } else if parts.len() == 1 {
        parts[0]
    } else {
        join_words(parts.drop_last()) + seq![' '] + parts.last()
    }
}

/// Joins `parts` with single spaces.
pub fn join(parts: &Vec<String>) -> (line: String)
    ensures
        line@ == join_words(parts.deep_view()),
{
    let mut line = String::new();
    let mut i: usize = 0;
    while i < parts.len()
        invariant
            i <= parts.len(),
            line@ == join_words(parts.deep_view().take(i as int)),
        decreases parts.len() - i,
    {
        assert(parts.deep_view().take(i + 1).drop_last() == parts.deep_view().take(i as int));
        if i > 0 {
            line.push(' ');
        }
        line.append(parts[i].as_str());
        i += 1;
    }
    assert(parts.deep_view().take(parts.len() as int) == parts.deep_view());
    line
}

/// What follows a leading `~`, where `text` begins with one.
pub open spec fn after_tilde(text: Seq<char>) -> Option<Seq<char>> {
    if text.len() > 0 && text[0] == '~' {
        Some(text.skip(1))
    } else {
        None
    }
}

/// Takes a leading `~` off `text`, if it has one.
pub fn strip_tilde(text: &str) -> (rest: Option<String>)
    ensures
        match rest {
            Some(rest) => after_tilde(text@) == Some(rest@),
            None => after_tilde(text@) is None,
        },
{
    let mut rest = String::new();
    let mut first = true;
    for c in iter: text.chars()
        invariant
            iter.seq() == text@,
            first <==> iter.index() == 0,
            first ==> rest@.len() == 0,
            !first ==> text@[0] == '~' && rest@ == text@.subrange(1, iter.index()),
    {
        if first {
            if c != '~' {
                return None;
            }
            first = false;
        } else {
            rest.push(c);
        }
    }
    if first {
        None
    } else {
        Some(rest)
    }
}

/// `line` without the whitespace at its end.
pub open spec fn trimmed(line: Seq<char>) -> Seq<char>
    decreases line.len(),
{
    if line.len() > 0 && white_space(line.last()) {
        trimmed(line.drop_last())
    } else {
        line
    }
}

/// Takes the whitespace off the end of `line`, and with it the line end.
pub fn trim_end(line: &str) -> (kept: String)
    ensures
        kept@ == trimmed(line@),
{
    let mut kept = String::new();
    let mut gap = String::new();
    for c in iter: line.chars()
        invariant
            iter.seq() == line@,
            kept@ == trimmed(line@.take(iter.index())),
            kept@ + gap@ == line@.take(iter.index()),
    {
        assert(line@.take(iter.index() + 1).drop_last() == line@.take(iter.index()));
        if is_whitespace(c) {
            gap.push(c);
        } else {
            kept.append(gap.as_str());
            kept.push(c);
            gap = String::new();
        }
    }
    assert(line@.take(line@.len() as int) == line@);
    kept
}

} // verus!
