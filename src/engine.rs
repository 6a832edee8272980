use vstd::prelude::*;
use vstd::string::StringExecFns;
use vstd::utf8::{decode_utf8, encode_utf8, valid_utf8};

use crate::config::{aggregate_token, Config};
use crate::count::{
    count_bytes, count_lines, count_locale_chars, count_words, line_count, word_count,
};

verus! {

/// The metric a run computes.
#[derive(Debug, Clone, Copy, PartialEq, Eq, Structural)]
pub enum Mode {
    Bytes,
    Lines,
    Words,
    Chars,
    Aggregate,
}

/// The mode that an option token selects, or `None` for a token that selects
/// none.
pub open spec fn mode_of(option: Seq<char>) -> Option<Mode> {
    if option == seq!['-', 'c'] {
        Some(Mode::Bytes)
    } else if option == seq!['-', 'l'] {
        Some(Mode::Lines)
    } else if option == seq!['-', 'w'] {
        Some(Mode::Words)
    } else if option == seq!['-', 'm'] {
        Some(Mode::Chars)
    } else if option == aggregate_token() {
        Some(Mode::Aggregate)
    } else {
        None
    }
}

/// Whether a mode reads its input as text.
pub open spec fn needs_text(mode: Mode) -> bool {
    mode != Mode::Bytes
}

/// The digit character for `d < 10`.
pub open spec fn digit(d: nat) -> char {
    if d == 0 {
        '0'
    } else if d == 1 {
        '1'
    } else if d == 2 {
        '2'
    } else if d == 3 {
        '3'
    } else if d == 4 {
        '4'
    } else if d == 5 {
        '5'
    } else if d == 6 {
        '6'
    } else if d == 7 {
        '7'
    } else if d == 8 {
        '8'
    } else {
        '9'
    }
}

/// `n` written in decimal, without leading zeros.
pub open spec fn decimal(n: nat) -> Seq<char>
    decreases n,
{
    if n < 10 {
        seq![digit(n)]
    } else {
        decimal(n / 10).push(digit(n % 10))
    }
}

/// The formatted metric(s) of `mode` on the input bytes `data`, whose text is
/// `decode_utf8(data)` where the mode reads text.
pub open spec fn metrics(mode: Mode, data: Seq<u8>) -> Seq<char> {
    let text = decode_utf8(data);
    match mode {
        Mode::Bytes => decimal(data.len()),
        Mode::Lines => decimal(line_count(text)),
        Mode::Words => decimal(word_count(text)),
        Mode::Chars => decimal(text.len()),
        Mode::Aggregate => decimal(line_count(text)) + seq![' '] + decimal(word_count(text))
            + seq![' '] + decimal(data.len()),
    }
}

/// The line a run reports: the metric(s), a space, and the source's name.
pub open spec fn report(mode: Mode, data: Seq<u8>, file_path: Seq<char>) -> Seq<char> {
    metrics(mode, data) + seq![' '] + file_path
}

/// The option token selects no mode.
#[derive(Debug)]
pub struct UnknownOptionError;

impl UnknownOptionError {
    /// The message shown to the user.
    pub fn message(&self) -> (r: String)
        ensures
            r@ == "unknownOption"@,
    {
        "unknownOption".to_string()
    }
}

/// Why a run failed.
#[derive(Debug)]
pub enum RunError {
    /// The mode reads text and the input is not valid UTF-8.
    InvalidEncoding,
    /// The option token selects no mode.
    UnknownOption(UnknownOptionError),
}

/// Selects the mode named by `option`.
pub fn parse_mode(option: &str) -> (r: Option<Mode>)
    ensures
        r == mode_of(option@),
{
    let mut it = option.chars();
    let a = it.next();
    let b = it.next();
    let c = it.next();
    proof {
        reveal_strlit("*");
        if option@.len() == 2 {
            assert(option@ == seq![option@[0], option@[1]]);
        }
        if option@.len() == 1 {
            assert(option@ == seq![option@[0]]);
        }
    }
    match (a, b, c) {
        (Some('-'), Some('c'), None) => Some(Mode::Bytes),
        (Some('-'), Some('l'), None) => Some(Mode::Lines),
        (Some('-'), Some('w'), None) => Some(Mode::Words),
        (Some('-'), Some('m'), None) => Some(Mode::Chars),
        (Some('*'), None, _) => Some(Mode::Aggregate),
        _ => None,
    }
}

/// Relies on `std::str::from_utf8`: it succeeds exactly on valid UTF-8, and
/// the text it gives is made of those same bytes.
#[verifier::external_body]
fn text_of(data: &[u8]) -> (r: Option<&str>)
    ensures
        r is Some <==> valid_utf8(data@),
        r matches Some(s) ==> encode_utf8(s@) == data@,
{
    std::str::from_utf8(data).ok()
}

/// Relies on `usize`'s `ToString`: the value in decimal digits.
#[verifier::external_body]
fn decimal_string(n: usize) -> (r: String)
    ensures
        r@ == decimal(n as nat),
{
    n.to_string()
}

/// Input bytes together with the configuration that says how to count them.
pub struct Ccwc {
    pub config: Config,
    pub data: Vec<u8>,
}

impl Ccwc {
    /// Pairs a configuration with the bytes read from its source.
    pub fn new(config: Config, data: Vec<u8>) -> (r: Ccwc)
        ensures
            r.config == config,
            r.data == data,
    {
        Ccwc { config, data }
    }

    /// Counts the input as the configured mode asks, and reports it followed
    /// by a space and the file path (empty for standard input).
    pub fn run(self) -> (r: Result<String, RunError>)
        ensures
            match mode_of(self.config.option@) {
                None => r matches Err(RunError::UnknownOption(_)),
                Some(mode) => if needs_text(mode) && !valid_utf8(self.data@) {
                    r matches Err(RunError::InvalidEncoding)
                } else {
                    r matches Ok(out) && out@ == report(mode, self.data@, self.config.file_path@)
                },
            },
    {
        proof {
            reveal_strlit(" ");
        }
        let mode = match parse_mode(self.config.option.as_str()) {
            Some(m) => m,
            None => return Err(RunError::UnknownOption(UnknownOptionError)),
        };
        let mut out = if mode == Mode::Bytes {
            decimal_string(self.data.len())
        } else {
            let text = match text_of(self.data.as_slice()) {
                Some(t) => t,
                None => return Err(RunError::InvalidEncoding),
            };
            proof {
                vstd::utf8::encode_utf8_decode_utf8(text@);
            }
            match mode {
                Mode::Lines => decimal_string(count_lines(text)),
                Mode::Words => decimal_string(count_words(text)),
                Mode::Chars => decimal_string(count_locale_chars(text)),
                _ => {
                    let mut s = decimal_string(count_lines(text));
                    s.append(" ");
                    s.append(decimal_string(count_words(text)).as_str());
                    s.append(" ");
                    s.append(decimal_string(self.data.len()).as_str());
                    s
                },
            }
        };
        out.append(" ");
        out.append(self.config.file_path.as_str());
        Ok(out)
    }
}

} // verus!
