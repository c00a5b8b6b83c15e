//! Text without carriage returns, line feeds or tabs.

use crate::strings::push_char;
use crate::validation::{Outcome, PathStep, Validate, ValidationContext, ValidationResult};
use vstd::prelude::*;

verus! {

/// Whether `c` is one of the characters that normalized text does not hold:
/// a carriage return, a line feed or a tab.
pub open spec fn is_line_control(c: char) -> bool {
    c == '\r' || c == '\n' || c == '\t'
}

/// Whether `text` holds no carriage return, line feed or tab.
pub open spec fn is_normalized(text: Seq<char>) -> bool {
    forall|i: int| 0 <= i < text.len() ==> !is_line_control(#[trigger] text[i])
}

/// `text` with each carriage return that a line feed follows replaced,
/// together with that line feed, by one space.
pub open spec fn collapse_crlf(text: Seq<char>) -> Seq<char>
    decreases text.len(),
{
    if text.len() == 0 {
        Seq::empty()
    } else if text.len() >= 2 && text[0] == '\r' && text[1] == '\n' {
        seq![' '] + collapse_crlf(text.skip(2))
    } else {
        seq![text[0]] + collapse_crlf(text.skip(1))
    }
}

/// `text` with each carriage return, line feed and tab replaced by a space.
pub open spec fn blank_line_controls(text: Seq<char>) -> Seq<char> {
    text.map_values(
        |c: char|
            if is_line_control(c) {
                ' '
            } else {
                c
            },
    )
}

/// The normalized form of `text`: first each carriage return with the line
/// feed after it becomes one space, then each carriage return, line feed
/// and tab that is left becomes a space.
pub open spec fn normalize(text: Seq<char>) -> Seq<char> {
    blank_line_controls(collapse_crlf(text))
}

/// The normalized form of `text` where the character before it was a
/// carriage return that already gave its space: a line feed at the front
/// belongs to that carriage return and gives none.
spec fn normalize_after(text: Seq<char>, after_cr: bool) -> Seq<char> {
    if after_cr && text.len() > 0 && text[0] == '\n' {
        normalize(text.skip(1))
    } else {
        normalize(text)
    }
}

/// The message of the violation that text with a carriage return, line
/// feed or tab gives.
pub open spec fn invalid_characters_message() -> Seq<char> {
    "NormalizedString contains invalid characters \\r \\n \\t or \\r\\n"@
}

/// A string that is meant to hold no carriage return, line feed or tab.
#[derive(Debug, Eq)]
pub struct NormalizedString(pub String);

impl View for NormalizedString {
    type V = Seq<char>;

    open spec fn view(&self) -> Seq<char> {
        self.0@
    }
}

impl DeepView for NormalizedString {
    type V = Seq<char>;

    open spec fn deep_view(&self) -> Seq<char> {
        self@
    }
}

impl Clone for NormalizedString {
    fn clone(&self) -> (copy: Self)
        ensures
            copy@ == self@,
    {
        NormalizedString(self.0.clone())
    }
}

impl Default for NormalizedString {
    fn default() -> (empty: Self)
        ensures
            empty@ == Seq::<char>::empty(),
    {
        NormalizedString(String::new())
    }
}

impl PartialEq for NormalizedString {
    fn eq(&self, other: &Self) -> (equal: bool) {
        self.0 == other.0
    }
}

impl vstd::std_specs::cmp::PartialEqSpecImpl for NormalizedString {
    open spec fn obeys_eq_spec() -> bool {
        true
    }

    open spec fn eq_spec(&self, other: &Self) -> bool {
        self@ == other@
    }
}

impl ToString for NormalizedString {
    /// A copy of the text.
    fn to_string(&self) -> (text: String)
        ensures
            text@ == self@,
    {
        self.0.clone()
    }
}

impl core::ops::Deref for NormalizedString {
    type Target = str;

    fn deref(&self) -> (text: &str)
        ensures
            text@ == self@,
    {
        self.0.as_str()
    }
}

impl AsRef<str> for NormalizedString {
    fn as_ref(&self) -> (text: &str)
        ensures
            text@ == self@,
    {
        self.0.as_str()
    }
}

proof fn lemma_normalize_step(text: Seq<char>, i: int, after_cr: bool)
    requires
        0 <= i < text.len(),
        after_cr ==> i > 0 && text[i - 1] == '\r',
    ensures
        text[i] == '\r' ==> normalize_after(text.skip(i), after_cr) == seq![' '] + normalize_after(
            text.skip(i + 1),
            true,
        ),
        text[i] == '\n' && after_cr ==> normalize_after(text.skip(i), after_cr) == normalize_after(
            text.skip(i + 1),
            false,
        ),
        text[i] == '\n' && !after_cr ==> normalize_after(text.skip(i), after_cr) == seq![' ']
            + normalize_after(text.skip(i + 1), false),
        text[i] == '\t' ==> normalize_after(text.skip(i), after_cr) == seq![' '] + normalize_after(
            text.skip(i + 1),
            false,
        ),
        !is_line_control(text[i]) ==> normalize_after(text.skip(i), after_cr) == seq![text[i]]
            + normalize_after(text.skip(i + 1), false),
{
    let rest = text.skip(i);
    assert(rest[0] == text[i]);
    assert(rest.skip(1) =~= text.skip(i + 1));
    if rest.len() >= 2 {
        assert(rest[1] == text[i + 1]);
        assert(rest.skip(2) =~= text.skip(i + 1).skip(1));
    }
    let head = if rest.len() >= 2 && rest[0] == '\r' && rest[1] == '\n' {
        seq![' ']
    } else {
        seq![rest[0]]
    };
    let tail = if rest.len() >= 2 && rest[0] == '\r' && rest[1] == '\n' {
        collapse_crlf(rest.skip(2))
    } else {
        collapse_crlf(rest.skip(1))
    };
    assert(collapse_crlf(rest) == head + tail);
    assert(blank_line_controls(head + tail) =~= blank_line_controls(head) + blank_line_controls(
        tail,
    ));
    if text[i] == '\r' {
        assert(blank_line_controls(head) =~= seq![' ']);
    } else if text[i] == '\n' {
        assert(blank_line_controls(head) =~= seq![' ']);
    } else if text[i] == '\t' {
        assert(blank_line_controls(head) =~= seq![' ']);
    } else {
        assert(blank_line_controls(head) =~= seq![text[i]]);
    }
}

impl NormalizedString {
    /// Builds normalized text from any text: a carriage return with the
    /// line feed after it becomes one space, and so does each carriage
    /// return, line feed and tab that stands alone. Nothing else changes.
    pub fn new(value: &str) -> (normalized: Self)
        ensures
            normalized@ == normalize(value@),
            is_normalized(normalized@),
    {
        let mut text = String::new();
        let mut after_cr = false;
        proof {
            assert(value@.skip(0) =~= value@);
        }
        for c in it: value.chars()
            invariant
                it.seq() == value@,
                after_cr ==> it.index() > 0 && value@[it.index() - 1] == '\r',
                text@ + normalize_after(value@.skip(it.index() as int), after_cr) == normalize(
                    value@,
                ),
                is_normalized(text@),
        {
            proof {
                lemma_normalize_step(value@, it.index() as int, after_cr);
            }
            let ghost rest = normalize_after(value@.skip(it.index() + 1), c == '\r');
            if c == '\r' {
                push_char(&mut text, ' ');
                after_cr = true;
            } else if c == '\n' {
                if !after_cr {
                    push_char(&mut text, ' ');
                }
                after_cr = false;
            } else if c == '\t' {
                push_char(&mut text, ' ');
                after_cr = false;
            } else {
                push_char(&mut text, c);
                after_cr = false;
            }
            proof {
                assert(text@ + rest =~= normalize(value@));
            }
        }
        proof {
            assert(value@.skip(value@.len() as int) =~= Seq::<char>::empty());
            assert(text@ + Seq::<char>::empty() =~= text@);
        }
        NormalizedString(text)
    }

    /// Takes text as it is, whatever it holds. This is for text that comes
    /// from another source: whether it is normalized shows when it is
    /// validated.
    pub fn new_unchecked(value: String) -> (raw: Self)
        ensures
            raw.0 == value,
    {
        NormalizedString(value)
    }

    /// The text itself.
    pub fn as_str(&self) -> (text: &str)
        ensures
            text@ == self@,
    {
        self.0.as_str()
    }

    /// Whether the text holds no carriage return, line feed or tab.
    pub fn is_valid(&self) -> (valid: bool)
        ensures
            valid == is_normalized(self@),
    {
        let text = self.0.as_str();
        for c in it: text.chars()
            invariant
                it.seq() == self@,
                is_normalized(self@.take(it.index() as int)),
        {
            if c == '\r' || c == '\n' || c == '\t' {
                assert(is_line_control(self@[it.index() as int]));
                return false;
            }
            assert(is_normalized(self@.take(it.index() + 1))) by {
                assert forall|i: int| 0 <= i < it.index() + 1 implies !is_line_control(
                    #[trigger] self@.take(it.index() + 1)[i],
                ) by {
                    if i < it.index() {
                        assert(self@.take(it.index() as int)[i] == self@[i]);
                    }
                }
            }
        }
        assert(self@.take(self@.len() as int) =~= self@);
        true
    }
}

impl Validate for NormalizedString {
    open spec fn spec_validate(&self, path: Seq<PathStep>) -> Outcome {
        if is_normalized(self@) {
            Outcome::Passed
        } else {
            Outcome::failure(invalid_characters_message(), path)
        }
    }

    proof fn lemma_validate_located(&self, path: Seq<PathStep>) {
    }

    proof fn lemma_passes_anywhere(&self, path: Seq<PathStep>, other: Seq<PathStep>) {
    }

    fn validate_with_context(&self, context: ValidationContext) -> (result: ValidationResult) {
        if self.is_valid() {
            ValidationResult::Passed
        } else {
            ValidationResult::failure(
                "NormalizedString contains invalid characters \\r \\n \\t or \\r\\n",
                context,
            )
        }
    }
}

/// Text without carriage returns, line feeds and tabs is its own
/// normalized form.
pub proof fn lemma_normalize_keeps_normalized(text: Seq<char>)
    requires
        is_normalized(text),
    ensures
        normalize(text) == text,
    decreases text.len(),
{
    if text.len() > 0 {
        assert(!is_line_control(text[0]));
        assert(is_normalized(text.skip(1))) by {
            assert forall|i: int| 0 <= i < text.skip(1).len() implies !is_line_control(
                #[trigger] text.skip(1)[i],
            ) by {
                assert(text.skip(1)[i] == text[i + 1]);
            }
        }
        lemma_normalize_keeps_normalized(text.skip(1));
        assert(collapse_crlf(text) == seq![text[0]] + collapse_crlf(text.skip(1)));
        assert(normalize(text) =~= seq![text[0]] + normalize(text.skip(1)));
        assert(seq![text[0]] + text.skip(1) =~= text);
    } else {
        assert(normalize(text) =~= text);
    }
}

/// The number of places in `text` where a line feed follows a carriage
/// return.
pub open spec fn count_crlf(text: Seq<char>) -> nat
    decreases text.len(),
{
    if text.len() < 2 {
        0
    } else if text[0] == '\r' && text[1] == '\n' {
        1 + count_crlf(text.skip(2))
    } else {
        count_crlf(text.skip(1))
    }
}

/// Normalized text holds no carriage return, line feed or tab, and it is
/// shorter than the text it was made from by exactly one character for each
/// carriage return that a line feed follows: such a pair gives one space,
/// not two, and every other character gives one character.
pub proof fn lemma_normalize_removes_line_controls(text: Seq<char>)
    ensures
        is_normalized(normalize(text)),
        normalize(text).len() + count_crlf(text) == text.len(),
    decreases text.len(),
{
    if text.len() >= 2 && text[0] == '\r' && text[1] == '\n' {
        lemma_normalize_removes_line_controls(text.skip(2));
    } else if text.len() > 0 {
        lemma_normalize_removes_line_controls(text.skip(1));
        if text.len() < 2 {
            assert(text.skip(1).len() < 2);
        }
    }
}

} // verus!
