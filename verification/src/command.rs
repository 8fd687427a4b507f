//! The command interpreter: from a line of text to a command.
//!
//! The first token of a line, in lower case, selects the command. The second
//! token, in lower case, is kept as the pending argument, whatever the
//! command is; `play` later reads its track index from there. `volume` takes
//! its gain from the second token directly. Further tokens are ignored.

use vstd::prelude::*;
use crate::gain::Gain;
use crate::text::{chars_of, lowercase_of, same_text, to_lowercase, tokenize, tokens};

verus! {

/// What the operator can ask for.
#[derive(Clone, Copy, Debug, PartialEq, Eq)]
pub enum Command {
    /// Play the track that the pending argument names.
    Play,
    /// Suspend the track that is playing.
    Pause,
    /// Go on with a suspended track.
    Resume,
    /// End playback.
    Stop,
    /// Show the catalog.
    List,
    /// Show the session.
    Status,
    /// Show the usage text.
    Help,
    /// Release everything and leave.
    Exit,
    /// Set the output gain.
    Volume(Gain),
    /// A first token that names no command.
    Invalid,
}

/// Why a `volume` line gave no command.
#[derive(Clone, Copy, Debug, PartialEq, Eq)]
pub enum VolumeParseError {
    /// The line has no second token.
    Missing,
    /// The second token is not a number.
    Malformed,
}

/// What a line of input amounts to.
#[derive(Clone, Copy, Debug, PartialEq, Eq)]
pub enum Parsed {
    /// No token at all: nothing is dispatched and nothing is reported.
    Empty,
    /// A `volume` line without a usable gain: reported, not dispatched.
    VolumeParseError(VolumeParseError),
    /// A command to dispatch.
    Command(Command),
}

/// A parsed line together with the argument it leaves pending.
pub struct ParsedLine {
    /// What the line amounts to.
    pub outcome: Parsed,
    /// The line's second token in lower case, if it has one.
    pub argument: Option<String>,
}

/// Whether a character is one of the ten decimal digits.
pub open spec fn is_digit(c: char) -> bool {
    '0' <= c && c <= '9'
}

/// The number that a decimal digit stands for.
pub open spec fn digit_value(c: char) -> int {
    c as int - '0' as int
}

/// Whether a text consists of decimal digits only.
pub open spec fn all_digits(text: Seq<char>) -> bool {
    forall|k: int| 0 <= k < text.len() ==> is_digit(#[trigger] text[k])
}

/// The number that a run of decimal digits denotes; leading zeros count for
/// nothing.
pub open spec fn decimal_value(digits: Seq<char>) -> int
    decreases digits.len(),
{
    if digits.len() == 0 {
        0
    } else {
        10 * decimal_value(digits.drop_last()) + digit_value(digits.last())
    }
}

/// Whether a text begins with a plus or minus sign.
pub open spec fn has_sign(text: Seq<char>) -> bool {
    text.len() > 0 && (text[0] == '+' || text[0] == '-')
}

/// The track index that a text denotes: an optional sign, then at least one
/// decimal digit and nothing else, with a value that fits 32 bits. Any other
/// text denotes no index.
pub open spec fn index_of(text: Seq<char>) -> Option<i32> {
    let digits = if has_sign(text) {
        text.drop_first()
    } else {
        text
    };
    let magnitude = decimal_value(digits);
    let value = if has_sign(text) && text[0] == '-' {
        -magnitude
    } else {
        magnitude
    };
    if digits.len() > 0 && all_digits(digits) && i32::MIN <= value <= i32::MAX {
        Some(value as i32)
    } else {
        None
    }
}

/// A run of digits denotes at least as much as each of its prefixes, and
/// never a negative number.
pub proof fn decimal_value_grows(digits: Seq<char>, k: int)
    requires
        all_digits(digits),
        0 <= k <= digits.len(),
    ensures
        0 <= decimal_value(digits.take(k)) <= decimal_value(digits),
    decreases digits.len(),
{
    if digits.len() > 0 {
        if k == digits.len() {
            assert(digits.take(k) =~= digits);
            decimal_value_grows(digits.drop_last(), 0);
        } else {
            assert(digits.drop_last().take(k) =~= digits.take(k));
            decimal_value_grows(digits.drop_last(), k);
        }
    }
}

/// Reads a track index from a text.
pub fn parse_index(text: &str) -> (index: Option<i32>)
    ensures
        index == index_of(text@),
{
    let chars = chars_of(text);
    let n = chars.len();
    if n == 0 {
        return None;
    }
    let negative = chars[0] == '-';
    let first: usize = if negative || chars[0] == '+' {
        1
    } else {
        0
    };
    let ghost digits = if has_sign(text@) {
        text@.drop_first()
    } else {
        text@
    };
    if first == n {
        return None;
    }
    let mut magnitude: i64 = 0;
    let mut i: usize = first;
    while i < n
        invariant
            chars@ == text@,
            n == chars.len(),
            first <= i <= n,
            digits == text@.subrange(first as int, n as int),
            digits == if has_sign(text@) {
                text@.drop_first()
            } else {
                text@
            },
            negative == (has_sign(text@) && text@[0] == '-'),
            all_digits(digits.take(i - first)),
            magnitude == decimal_value(digits.take(i - first)),
            0 <= magnitude <= 2147483648,
        decreases n - i,
    {
        let c = chars[i];
        assert(c == digits[i - first]);
        if !(c >= '0' && c <= '9') {
            return None;
        }
        let digit: i64 = (c as u32 - '0' as u32) as i64;
        assert(digits.take(i - first + 1).drop_last() =~= digits.take(i - first));
        magnitude = magnitude * 10 + digit;
        if magnitude > 2147483648 {
            proof {
                if all_digits(digits) {
                    decimal_value_grows(digits, i - first + 1);
                }
            }
            return None;
        }
        i += 1;
    }
    assert(digits.take(i - first) =~= digits);
    if negative {
        Some((-magnitude) as i32)
    } else if magnitude == 2147483648 {
        None
    } else {
        Some(magnitude as i32)
    }
}

/// The meaning of a command word that is already in lower case.
/// `has_argument` says whether the line has a second token, and `reading` is
/// that token read as a gain, or `None` where it is no number.
pub open spec fn meaning(word: Seq<char>, has_argument: bool, reading: Option<Gain>) -> Parsed {
    if word == "play"@ {
        Parsed::Command(Command::Play)
    } else if word == "pause"@ {
        Parsed::Command(Command::Pause)
    } else if word == "list"@ {
        Parsed::Command(Command::List)
    } else if word == "resume"@ {
        Parsed::Command(Command::Resume)
    } else if word == "stop"@ {
        Parsed::Command(Command::Stop)
    } else if word == "volume"@ {
        if !has_argument {
            Parsed::VolumeParseError(VolumeParseError::Missing)
        } else {
            match reading {
                Some(gain) => Parsed::Command(Command::Volume(gain)),
                None => Parsed::VolumeParseError(VolumeParseError::Malformed),
            }
        }
    } else if word == "status"@ {
        Parsed::Command(Command::Status)
    } else if word == "help"@ {
        Parsed::Command(Command::Help)
    } else if word == "exit"@ {
        Parsed::Command(Command::Exit)
    } else {
        Parsed::Command(Command::Invalid)
    }
}

/// Maps a command word that is already in lower case to its meaning.
pub fn interpret(word: &str, has_argument: bool, reading: Option<Gain>) -> (parsed: Parsed)
    ensures
        parsed == meaning(word@, has_argument, reading),
{
    if same_text(word, "play") {
        Parsed::Command(Command::Play)
    } else if same_text(word, "pause") {
        Parsed::Command(Command::Pause)
    } else if same_text(word, "list") {
        Parsed::Command(Command::List)
    } else if same_text(word, "resume") {
        Parsed::Command(Command::Resume)
    } else if same_text(word, "stop") {
        Parsed::Command(Command::Stop)
    } else if same_text(word, "volume") {
        if !has_argument {
            Parsed::VolumeParseError(VolumeParseError::Missing)
        } else {
            match reading {
                Some(gain) => Parsed::Command(Command::Volume(gain)),
                None => Parsed::VolumeParseError(VolumeParseError::Malformed),
            }
        }
    } else if same_text(word, "status") {
        Parsed::Command(Command::Status)
    } else if same_text(word, "help") {
        Parsed::Command(Command::Help)
    } else if same_text(word, "exit") {
        Parsed::Command(Command::Exit)
    } else {
        Parsed::Command(Command::Invalid)
    }
}

/// What a line amounts to: nothing if it has no token, else the meaning of
/// its first token in lower case.
pub open spec fn parsed_line(line: Seq<char>, reading: Option<Gain>) -> Parsed {
    let words = tokens(line);
    if words.len() == 0 {
        Parsed::Empty
    } else {
        meaning(lowercase_of(words[0]), words.len() >= 2, reading)
    }
}

/// The argument that a line leaves pending: its second token in lower case.
pub open spec fn pending_argument(line: Seq<char>) -> Option<Seq<char>> {
    let words = tokens(line);
    if words.len() >= 2 {
        Some(lowercase_of(words[1]))
    } else {
        None
    }
}

/// The second token of a line as it was typed, which is what a `volume`
/// line's gain is read from.
pub fn gain_token(raw_line: &str) -> (token: Option<String>)
    ensures
        token is Some <==> tokens(raw_line@).len() >= 2,
        token matches Some(text) ==> text@ == tokens(raw_line@)[1],
{
    let mut words = tokenize(raw_line);
    if words.len() >= 2 {
        Some(words.swap_remove(1))
    } else {
        None
    }
}

/// Parses one line of input. `reading` is the line's second token read as a
/// gain by the caller, `None` where the line has no second token or the
/// token is no number; only a `volume` line looks at it.
pub fn parse(raw_line: &str, reading: Option<Gain>) -> (line: ParsedLine)
    ensures
        line.outcome == parsed_line(raw_line@, reading),
        line.argument is Some <==> pending_argument(raw_line@) is Some,
        line.argument matches Some(text) ==> Some(text@) == pending_argument(raw_line@),
{
    let words = tokenize(raw_line);
    if words.len() == 0 {
        return ParsedLine { outcome: Parsed::Empty, argument: None };
    }
    let word = to_lowercase(words[0].as_str());
    let argument = if words.len() >= 2 {
        Some(to_lowercase(words[1].as_str()))
    } else {
        None
    };
    let outcome = interpret(word.as_str(), words.len() >= 2, reading);
    ParsedLine { outcome, argument }
}

} // verus!
