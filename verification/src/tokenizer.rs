//! Splitting a line into words.

use vstd::prelude::*;
use crate::text::{is_whitespace, join_words, white_space};

verus! {

/// The quoting context the scanner is in.
#[derive(Clone, Copy, Debug, PartialEq, Eq, Structural)]
pub enum Quote {
    Unquoted,
    SingleQuoted,
    DoubleQuoted,
}

/// What the scanner does with one character.
#[derive(Clone, Copy, Debug, PartialEq, Eq, Structural)]
pub enum Action {
    /// Add the character to the word being built.
    Push(char),
    /// End the word being built, if there is one.
    Flush,
    /// Enter or leave a quoted stretch.
    SetQuote(Quote),
    /// Remember that the next character is escaped.
    StartEscape,
    /// Take the character that follows a backslash.
    Consume(char),
}

/// What the scanner does with the character `c` when it is in the quoting
/// context `quote` and `escaped` tells whether a backslash waits for its
/// character. A backslash that waits takes whatever comes. Without one,
/// single quotes end only at the next single quote and hold everything
/// else as it is; double quotes end at the next double quote and let a
/// backslash escape; outside quotes a backslash escapes, either quote
/// opens its stretch and whitespace ends the word.
pub open spec fn spec_step(quote: Quote, escaped: bool, c: char) -> Action {
    if escaped {
        Action::Consume(c)
    } else {
        match quote {
            Quote::Unquoted => if c == '\\' {
                Action::StartEscape
            } else if c == '\'' {
                Action::SetQuote(Quote::SingleQuoted)
            } else if c == '"' {
                Action::SetQuote(Quote::DoubleQuoted)
            } else if white_space(c) {
                Action::Flush
            } else {
                Action::Push(c)
            },
            Quote::SingleQuoted => if c == '\'' {
                Action::SetQuote(Quote::Unquoted)
            } else {
                Action::Push(c)
            },
            Quote::DoubleQuoted => if c == '"' {
                Action::SetQuote(Quote::Unquoted)
            } else if c == '\\' {
                Action::StartEscape
            } else {
                Action::Push(c)
            },
        }
    }
}

/// Tells what the scanner does with `c`.
#[verifier::when_used_as_spec(spec_step)]
pub fn step(quote: Quote, escaped: bool, c: char) -> (action: Action)
    ensures
        action == spec_step(quote, escaped, c),
{
    if escaped {
        return Action::Consume(c);
    }
    match quote {
        Quote::Unquoted => {
            if c == '\\' {
                Action::StartEscape
            } else if c == '\'' {
                Action::SetQuote(Quote::SingleQuoted)
            } else if c == '"' {
                Action::SetQuote(Quote::DoubleQuoted)
            } else if is_whitespace(c) {
                Action::Flush
            } else {
                Action::Push(c)
            }
        },
        Quote::SingleQuoted => {
            if c == '\'' {
                Action::SetQuote(Quote::Unquoted)
            } else {
                Action::Push(c)
            }
        },
        Quote::DoubleQuoted => {
            if c == '"' {
                Action::SetQuote(Quote::Unquoted)
            } else if c == '\\' {
                Action::StartEscape
            } else {
                Action::Push(c)
            }
        },
    }
}

/// The scanner between two characters: the words that are finished, the
/// word being built, the quoting context and whether a backslash waits for
/// its character.
pub struct Scan {
    pub tokens: Seq<Seq<char>>,
    pub current: Seq<char>,
    pub quote: Quote,
    pub escaped: bool,
}

impl Scan {
    /// The scanner before the first character.
    pub open spec fn start() -> Scan {
        Scan { tokens: Seq::empty(), current: Seq::empty(), quote: Quote::Unquoted, escaped: false }
    }

    /// The scanner after it has carried out `action`. An escaped character
    /// is taken as it stands, but between double quotes only `"` and `\`
    /// are: before any other character the backslash is kept too. (Between
    /// single quotes no backslash ever waits, as `lemma_inv` shows.)
    pub open spec fn apply(self, action: Action) -> Scan {
        match action {
            Action::Push(c) => Scan { current: self.current.push(c), ..self },
            Action::Flush => if self.current.len() > 0 {
                Scan { tokens: self.tokens.push(self.current), current: Seq::empty(), ..self }
            } else {
                self
            },
            Action::SetQuote(quote) => Scan { quote, ..self },
            Action::StartEscape => Scan { escaped: true, ..self },
            Action::Consume(c) => Scan {
                current: if self.quote == Quote::DoubleQuoted && c != '"' && c != '\\' {
                    self.current.push('\\').push(c)
                } else {
                    self.current.push(c)
                },
                escaped: false,
                ..self
            },
        }
    }

    /// The scanner after the character `c`.
    pub open spec fn feed(self, c: char) -> Scan {
        self.apply(spec_step(self.quote, self.escaped, c))
    }

    /// The scanner after the characters of `input`, taken from left to right.
    pub open spec fn feed_all(self, input: Seq<char>) -> Scan
        decreases input.len(),
    {
        if input.len() == 0 {
            self
        } else {
            self.feed_all(input.drop_last()).feed(input.last())
        }
    }

    /// The words at the end of the input: a backslash that still waits is
    /// kept as it stands, and the word being built ends if it has a
    /// character.
    pub open spec fn finish(self) -> Seq<Seq<char>> {
        let current = if self.escaped {
            self.current.push('\\')
        } else {
            self.current
        };
        if current.len() > 0 {
            self.tokens.push(current)
        } else {
            self.tokens
        }
    }
}

/// The words of `input`.
pub open spec fn tokenize(input: Seq<char>) -> Seq<Seq<char>> {
    Scan::start().feed_all(input).finish()
}

/// Splits `input` into words. Whitespace outside quotes separates words;
/// single quotes keep everything between them as it is; double quotes do
/// too, but for a backslash before `"` or `\`; outside quotes a backslash
/// keeps the character after it. A quote left open runs to the end of the
/// input.
pub fn parse_args(input: &str) -> (tokens: Vec<String>)
    ensures
        tokens.deep_view() == tokenize(input@),
        forall|i: int| 0 <= i < tokens.len() ==> (#[trigger] tokens[i])@.len() > 0,
{
    let mut tokens: Vec<String> = Vec::new();
    let mut current = String::new();
    let mut quote = Quote::Unquoted;
    let mut escaped = false;
    assert(tokens.deep_view() == Seq::<Seq<char>>::empty());
    for c in iter: input.chars()
        invariant
            iter.seq() == input@,
            Scan::start().feed_all(input@.take(iter.index())) == (Scan {
                tokens: tokens.deep_view(),
                current: current@,
                quote,
                escaped,
            }),
    {
        let ghost before = Scan::start().feed_all(input@.take(iter.index()));
        assert(input@.take(iter.index() + 1).drop_last() == input@.take(iter.index()));
        match step(quote, escaped, c) {
            Action::Push(ch) => {
                current.push(ch);
            },
            Action::Flush => {
                if !current.as_str().is_empty() {
                    tokens.push(current);
                    current = String::new();
                }
            },
            Action::SetQuote(next) => {
                quote = next;
            },
            Action::StartEscape => {
                escaped = true;
            },
            Action::Consume(ch) => {
                match quote {
                    Quote::DoubleQuoted => {
                        if ch != '"' && ch != '\\' {
                            current.push('\\');
                        }
                    },
                    _ => {},
                }
                current.push(ch);
                escaped = false;
            },
        }
        assert(tokens.deep_view() == before.feed(c).tokens);
    }
    assert(input@.take(input@.len() as int) == input@);
    if escaped {
        current.push('\\');
    }
    if !current.as_str().is_empty() {
        tokens.push(current);
    }
    proof {
        lemma_tokens_not_empty(input@);
        assert forall|i: int| 0 <= i < tokens.len() implies (#[trigger] tokens[i])@.len() > 0 by {
            assert(tokenize(input@)[i].len() > 0);
        }
    }
    tokens
}

/// A character that the scanner takes as it stands wherever it meets it:
/// neither a quote nor a backslash.
pub open spec fn plain(c: char) -> bool {
    c != '\'' && c != '"' && c != '\\'
}

/// A word as unquoted input spells it: not empty, and made of plain
/// characters that are not whitespace.
pub open spec fn plain_word(word: Seq<char>) -> bool {
    &&& word.len() > 0
    &&& forall|i: int| 0 <= i < word.len() ==> plain(#[trigger] word[i]) && !white_space(word[i])
}

impl Scan {
    /// What holds of the scanner after any input: no finished word is
    /// empty, and inside single quotes no backslash waits for its character.
    pub open spec fn inv(self) -> bool {
        &&& forall|i: int| 0 <= i < self.tokens.len() ==> (#[trigger] self.tokens[i]).len() > 0
        &&& !(self.quote == Quote::SingleQuoted && self.escaped)
    }

    /// `inv` holds before the first character and after every further one.
    pub proof fn lemma_inv(input: Seq<char>)
        ensures
            Scan::start().feed_all(input).inv(),
        decreases input.len(),
    {
        if input.len() > 0 {
            Scan::lemma_inv(input.drop_last());
        }
    }

    /// Scanning `a + b` is scanning `a` and then `b`.
    pub proof fn lemma_feed_all_add(self, a: Seq<char>, b: Seq<char>)
        ensures
            self.feed_all(a + b) == self.feed_all(a).feed_all(b),
        decreases b.len(),
    {
        if b.len() > 0 {
            assert((a + b).drop_last() == a + b.drop_last());
            self.lemma_feed_all_add(a, b.drop_last());
        }
    }

    /// Outside quotes, characters that are plain and not whitespace go to the
    /// word being built and change nothing else.
    proof fn lemma_feed_word(self, word: Seq<char>)
        requires
            self.quote == Quote::Unquoted,
            !self.escaped,
            forall|i: int|
                0 <= i < word.len() ==> plain(#[trigger] word[i]) && !white_space(word[i]),
        ensures
            self.feed_all(word) == (Scan { current: self.current + word, ..self }),
        decreases word.len(),
    {
        if word.len() > 0 {
            self.lemma_feed_word(word.drop_last());
            assert(self.current + word == (self.current + word.drop_last()).push(word.last()));
        }
    }

    /// Inside single quotes every character but the closing quote goes to
    /// the word being built and changes nothing else.
    proof fn lemma_feed_single_quoted(self, text: Seq<char>)
        requires
            self.quote == Quote::SingleQuoted,
            !self.escaped,
            forall|i: int| 0 <= i < text.len() ==> text[i] != '\'',
        ensures
            self.feed_all(text) == (Scan { current: self.current + text, ..self }),
        decreases text.len(),
    {
        if text.len() > 0 {
            self.lemma_feed_single_quoted(text.drop_last());
            assert(self.current + text == (self.current + text.drop_last()).push(text.last()));
        }
    }

    /// Input without quotes and backslashes leaves the scanner outside
    /// quotes, and every word it builds is a plain word.
    proof fn lemma_feed_plain(input: Seq<char>)
        requires
            forall|i: int| 0 <= i < input.len() ==> plain(#[trigger] input[i]),
        ensures
            ({
                let scan = Scan::start().feed_all(input);
                &&& scan.quote == Quote::Unquoted
                &&& !scan.escaped
                &&& forall|j: int|
                    0 <= j < scan.tokens.len() ==> plain_word(#[trigger] scan.tokens[j])
                &&& forall|i: int|
                    0 <= i < scan.current.len() ==> plain(#[trigger] scan.current[i])
                        && !white_space(scan.current[i])
            }),
        decreases input.len(),
    {
        if input.len() > 0 {
            Scan::lemma_feed_plain(input.drop_last());
        }
    }

    /// After plain words joined by single spaces the scanner has finished
    /// all of them but the last, which it is still building.
    proof fn lemma_feed_joined(parts: Seq<Seq<char>>)
        requires
            forall|j: int| 0 <= j < parts.len() ==> plain_word(#[trigger] parts[j]),
        ensures
            Scan::start().feed_all(join_words(parts)) == if parts.len() == 0 {
                Scan::start()
            } else {
                Scan { tokens: parts.drop_last(), current: parts.last(), ..Scan::start() }
            },
        decreases parts.len(),
    {
        let start = Scan::start();
        if parts.len() == 1 {
            start.lemma_feed_word(parts[0]);
            assert(parts.drop_last() == Seq::<Seq<char>>::empty());
        } else if parts.len() > 1 {
            // The words before the last, the space after them, the last word.
            let front = parts.drop_last();
            let head = join_words(front);
            Scan::lemma_feed_joined(front);
            start.lemma_feed_all_add(head + seq![' '], parts.last());
            start.lemma_feed_all_add(head, seq![' ']);
            let at_word = start.feed_all(head);
            assert(at_word.feed_all(seq![' ']) == at_word.feed(' ')) by {
                reveal_with_fuel(Scan::feed_all, 2);
            }
            let at_gap = at_word.feed(' ');
            assert(at_gap.tokens == front);
            at_gap.lemma_feed_word(parts.last());
        }
    }
}

/// No word of the result is empty.
pub proof fn lemma_tokens_not_empty(input: Seq<char>)
    ensures
        forall|i: int| 0 <= i < tokenize(input).len() ==> (#[trigger] tokenize(input)[i]).len() > 0,
{
    Scan::lemma_inv(input);
}

/// Words that unquoted input spells come back unchanged when they are
/// joined by single spaces and split again.
pub proof fn lemma_split_joined(parts: Seq<Seq<char>>)
    requires
        forall|j: int| 0 <= j < parts.len() ==> plain_word(#[trigger] parts[j]),
    ensures
        tokenize(join_words(parts)) == parts,
{
    Scan::lemma_feed_joined(parts);
}

/// Splitting is idempotent on input without quotes and backslashes: the
/// words of such an input, joined by single spaces and split again, are
/// the same words.
pub proof fn lemma_tokenize_round_trip(input: Seq<char>)
    requires
        forall|i: int| 0 <= i < input.len() ==> plain(#[trigger] input[i]),
    ensures
        tokenize(join_words(tokenize(input))) == tokenize(input),
{
    Scan::lemma_feed_plain(input);
    lemma_split_joined(tokenize(input));
}

/// Between single quotes nothing is special: whatever stands there, a
/// backslash too, is the word, character for character.
pub proof fn lemma_single_quotes_keep_all(text: Seq<char>)
    requires
        forall|i: int| 0 <= i < text.len() ==> text[i] != '\'',
    ensures
        tokenize(seq!['\''] + text + seq!['\'']) == if text.len() > 0 {
            seq![text]
        } else {
            Seq::empty()
        },
{
    let start = Scan::start();
    let opened = start.feed('\'');
    assert(start.feed_all(seq!['\'']) == opened) by {
        reveal_with_fuel(Scan::feed_all, 2);
    }
    start.lemma_feed_all_add(seq!['\''], text);
    opened.lemma_feed_single_quoted(text);
    let quoted = seq!['\''] + text;
    assert((quoted + seq!['\'']).drop_last() == quoted);
}

/// Between double quotes a backslash takes the next character only where
/// that is a double quote or a backslash; before any other character it
/// stands for itself, and both are kept.
pub proof fn lemma_escape_in_double_quotes(scan: Scan, c: char)
    requires
        scan.quote == Quote::DoubleQuoted,
        !scan.escaped,
    ensures
        scan.feed('\\').feed(c) == (Scan {
            current: if c == '"' || c == '\\' {
                scan.current.push(c)
            } else {
                scan.current.push('\\').push(c)
            },
            ..scan
        }),
{
}

/// Outside quotes a backslash takes the next character, whatever it is: a
/// space after it does not end the word.
pub proof fn lemma_escape_outside_quotes(scan: Scan, c: char)
    requires
        scan.quote == Quote::Unquoted,
        !scan.escaped,
    ensures
        scan.feed('\\').feed(c) == (Scan { current: scan.current.push(c), ..scan }),
{
}

/// A backslash at the end of the input is kept: where nothing is left for
/// it to escape, it is the last character of the last word.
pub proof fn lemma_trailing_backslash(input: Seq<char>)
    ensures
        tokenize(input.push('\\')) == Scan::start().feed_all(input).tokens.push(
            Scan::start().feed_all(input).current.push('\\'),
        ),
{
    assert(input.push('\\').drop_last() == input);
}

} // verus!
