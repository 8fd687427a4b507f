//! Text handling for the interpreter: the characters of a line, its tokens,
//! lower case and comparison.

use vstd::prelude::*;

verus! {

/// Whether a character is white space in the sense of Unicode (White_Space):
/// the name for what `char::is_whitespace` of the standard library returns.
pub uninterp spec fn white_space(c: char) -> bool;

/// Calls `char::is_whitespace`. Nothing is proved of it; the contract only
/// gives its answer the name `white_space`, so that the tokens of a line can
/// be stated over it.
#[verifier::external_body]
fn is_white_space(c: char) -> (white: bool)
    ensures
        white == white_space(c),
{
    c.is_whitespace()
}

/// The lower-case form of a text under the Unicode case mappings: the name
/// for what `str::to_lowercase` of the standard library returns.
pub uninterp spec fn lowercase_of(text: Seq<char>) -> Seq<char>;

/// Calls `str::to_lowercase`. Nothing is proved of it; the contract only
/// gives its result the name `lowercase_of`.
#[verifier::external_body]
pub(crate) fn to_lowercase(text: &str) -> (lowered: String)
    ensures
        lowered@ == lowercase_of(text@),
{
    text.to_lowercase()
}

/// The characters of a text, one by one.
pub fn chars_of(text: &str) -> (chars: Vec<char>)
    ensures
        chars@ == text@,
{
    let mut chars: Vec<char> = Vec::new();
    for c in it: text.chars()
        invariant
            chars@ == it.seq().take(it.index()),
            it.seq() == text@,
    {
        chars.push(c);
    }
    chars
}

/// Whether two texts hold the same characters.
pub fn same_text(left: &str, right: &str) -> (same: bool)
    ensures
        same == (left@ == right@),
{
    let a = chars_of(left);
    let b = chars_of(right);
    if a.len() != b.len() {
        return false;
    }
    let mut i: usize = 0;
    while i < a.len()
        invariant
            a@ == left@,
            b@ == right@,
            a@.len() == b@.len(),
            i <= a.len(),
            forall|k: int| 0 <= k < i ==> a@[k] == b@[k],
        decreases a.len() - i,
    {
        if a[i] != b[i] {
            return false;
        }
        i += 1;
    }
    assert(a@ =~= b@);
    true
}

/// Whether position `i` of a text is marked as a gap. Positions that the
/// marks do not reach are not.
pub open spec fn marked(gaps: Seq<bool>, i: int) -> bool {
    0 <= i < gaps.len() && gaps[i]
}

/// The runs of a text: its maximal stretches of characters at positions
/// that are not marked as gaps, from left to right.
///
/// The text is read character by character. A gap adds nothing. A character
/// that follows another run character extends the last run. Any other
/// character starts a new run.
pub open spec fn runs(text: Seq<char>, gaps: Seq<bool>) -> Seq<Seq<char>>
    decreases text.len(),
{
    if text.len() == 0 {
        Seq::empty()
    } else {
        let before = runs(text.drop_last(), gaps);
        let last = text.len() - 1;
        if marked(gaps, last) {
            before
        } else if marked(gaps, last - 1) || last == 0 {
            before.push(seq![text[last]])
        } else {
            before.drop_last().push(before.last().push(text[last]))
        }
    }
}

/// The gaps of a line: the positions of its white-space characters.
pub open spec fn white_marks(line: Seq<char>) -> Seq<bool> {
    Seq::new(line.len(), |i: int| white_space(line[i]))
}

/// The tokens of a line: its maximal runs of characters that are not white
/// space, from left to right.
pub open spec fn tokens(line: Seq<char>) -> Seq<Seq<char>> {
    runs(line, white_marks(line))
}

/// What a list of strings says, string by string.
pub open spec fn texts(words: Seq<String>) -> Seq<Seq<char>> {
    Seq::new(words.len(), |i: int| words[i]@)
}

/// Splits a text into its runs between the positions marked as gaps.
pub fn split_runs(text: &str, gaps: &Vec<bool>) -> (words: Vec<String>)
    ensures
        texts(words@) == runs(text@, gaps@),
{
    let length = text.unicode_len();
    let mut words: Vec<String> = Vec::new();
    let mut start: usize = 0;
    let mut inside = false;
    let mut i: usize = 0;
    while i < length
        invariant
            length == text@.len(),
            i <= length,
            inside <==> (i > 0 && !marked(gaps@, i - 1)),
            inside ==> start < i,
            !inside ==> texts(words@) == runs(text@.take(i as int), gaps@),
            inside ==> texts(words@).push(text@.subrange(start as int, i as int)) == runs(
                text@.take(i as int),
                gaps@,
            ),
        decreases length - i,
    {
        let gap = i < gaps.len() && gaps[i];
        assert(text@.take(i + 1).drop_last() =~= text@.take(i as int));
        if gap {
            if inside {
                words.push(String::from_str(text.substring_char(start, i)));
                inside = false;
            }
        } else if inside {
            assert(text@.subrange(start as int, i as int).push(text@[i as int])
                =~= text@.subrange(start as int, i + 1));
        } else {
            start = i;
            inside = true;
            assert(seq![text@[i as int]] =~= text@.subrange(i as int, i + 1));
        }
        i += 1;
    }
    assert(text@.take(i as int) =~= text@);
    if inside {
        words.push(String::from_str(text.substring_char(start, i)));
    }
    words
}

/// Marks the white-space characters of a line.
pub fn mark_white_space(line: &str) -> (gaps: Vec<bool>)
    ensures
        gaps@ == white_marks(line@),
{
    let chars = chars_of(line);
    let mut gaps: Vec<bool> = Vec::new();
    let mut i: usize = 0;
    while i < chars.len()
        invariant
            chars@ == line@,
            i <= chars.len(),
            gaps@.len() == i,
            forall|k: int| 0 <= k < i ==> gaps@[k] == white_space(line@[k]),
        decreases chars.len() - i,
    {
        gaps.push(is_white_space(chars[i]));
        i += 1;
    }
    gaps
}

/// Splits a line into its tokens.
pub fn tokenize(line: &str) -> (words: Vec<String>)
    ensures
        texts(words@) == tokens(line@),
{
    let gaps = mark_white_space(line);
    split_runs(line, &gaps)
}

/// The runs of a text depend on the marks of its own positions only.
pub proof fn runs_ignore_other_marks(text: Seq<char>, gaps: Seq<bool>, others: Seq<bool>)
    requires
        forall|i: int| 0 <= i < text.len() ==> marked(gaps, i) == marked(others, i),
    ensures
        runs(text, gaps) == runs(text, others),
    decreases text.len(),
{
    if text.len() > 0 {
        runs_ignore_other_marks(text.drop_last(), gaps, others);
    }
}

/// How the tokens of a line come from those of the line without its last
/// character: white space adds nothing, a character after a token character
/// extends the last token, any other character starts a new token.
pub proof fn tokens_by_last_character(line: Seq<char>)
    requires
        line.len() > 0,
    ensures
        tokens(line) == ({
            let before = tokens(line.drop_last());
            let c = line.last();
            if white_space(c) {
                before
            } else if line.len() >= 2 && !white_space(line[line.len() - 2]) {
                before.drop_last().push(before.last().push(c))
            } else {
                before.push(seq![c])
            }
        }),
{
    runs_ignore_other_marks(line.drop_last(), white_marks(line), white_marks(line.drop_last()));
}

/// A line that ends in a token character has a token.
pub proof fn token_follows_its_last_character(line: Seq<char>)
    requires
        line.len() > 0,
        !white_space(line.last()),
    ensures
        tokens(line).len() > 0,
    decreases line.len(),
{
    tokens_by_last_character(line);
    if line.len() >= 2 && !white_space(line[line.len() - 2]) {
        token_follows_its_last_character(line.drop_last());
    }
}

/// Every token holds at least one character, and none of its characters is
/// white space.
pub proof fn tokens_hold_no_white_space(line: Seq<char>, n: int)
    requires
        0 <= n < tokens(line).len(),
    ensures
        tokens(line)[n].len() > 0,
        forall|k: int|
            0 <= k < tokens(line)[n].len() ==> !white_space(#[trigger] tokens(line)[n][k]),
    decreases line.len(),
{
    if line.len() > 0 {
        tokens_by_last_character(line);
        let before = tokens(line.drop_last());
        let c = line.last();
        if white_space(c) {
            tokens_hold_no_white_space(line.drop_last(), n);
        } else if line.len() >= 2 && !white_space(line[line.len() - 2]) {
            token_follows_its_last_character(line.drop_last());
            if n < before.len() - 1 {
                tokens_hold_no_white_space(line.drop_last(), n);
            } else {
                tokens_hold_no_white_space(line.drop_last(), before.len() - 1);
            }
        } else {
            if n < before.len() {
                tokens_hold_no_white_space(line.drop_last(), n);
            }
        }
    }
}

/// A run of characters without white space is its own single token.
pub proof fn word_is_one_token(word: Seq<char>)
    requires
        word.len() > 0,
        forall|k: int| 0 <= k < word.len() ==> !white_space(#[trigger] word[k]),
    ensures
        tokens(word) == seq![word],
    decreases word.len(),
{
    tokens_by_last_character(word);
    if word.len() == 1 {
        assert(seq![word.last()] =~= word);
    } else {
        let shorter = word.drop_last();
        word_is_one_token(shorter);
        assert(shorter.push(word.last()) =~= word);
    }
}

/// White space separates: the tokens of two texts joined by a white-space
/// character are the tokens of the first followed by those of the second.
pub proof fn white_space_separates(left: Seq<char>, gap: char, right: Seq<char>)
    requires
        white_space(gap),
    ensures
        tokens(left.push(gap) + right) == tokens(left) + tokens(right),
    decreases right.len(),
{
    let line = left.push(gap) + right;
    tokens_by_last_character(line);
    if right.len() == 0 {
        assert(line.drop_last() =~= left);
    } else {
        tokens_by_last_character(right);
        let shorter = right.drop_last();
        let c = right.last();
        white_space_separates(left, gap, shorter);
        assert(line.drop_last() =~= left.push(gap) + shorter);
        if !white_space(c) && shorter.len() > 0 && !white_space(shorter.last()) {
            token_follows_its_last_character(shorter);
        }
    }
}

/// A line of white space alone, the empty line among them, has no token.
pub proof fn blank_line_has_no_token(line: Seq<char>)
    requires
        forall|k: int| 0 <= k < line.len() ==> white_space(#[trigger] line[k]),
    ensures
        tokens(line).len() == 0,
    decreases line.len(),
{
    if line.len() > 0 {
        tokens_by_last_character(line);
        blank_line_has_no_token(line.drop_last());
    }
}

} // verus!
