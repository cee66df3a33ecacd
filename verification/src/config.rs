//! What the process must know before it may serve: the credential for the
//! completion API and the port to listen on.
//!
//! Looking the values up is left to the caller; the functions here take what
//! was found there.

use vstd::prelude::*;
use vstd::string::StrSliceExecFns;

verus! {

/// The port that is used where none is configured.
pub const DEFAULT_PORT: u16 = 8080;

/// The largest port number.
pub const MAX_PORT: u32 = 65535;

/// The value of a decimal digit.
pub open spec fn digit_of(c: char) -> Option<int> {
    if 48 <= c as u32 <= 57 {
        Some(c as u32 - 48)
    } else {
        None
    }
}

/// The number that a run of decimal digits denotes; the empty run denotes zero.
/// A run that holds anything but digits denotes nothing.
pub open spec fn digits_value(digits: Seq<char>) -> Option<int>
    decreases digits.len(),
{
    if digits.len() == 0 {
        Some(0)
    } else {
        match (digits_value(digits.drop_last()), digit_of(digits.last())) {
            (Some(high), Some(low)) => Some(10 * high + low),
            _ => None,
        }
    }
}

/// The digits of a port's text: the text itself, without a leading plus sign.
pub open spec fn port_digits(text: Seq<char>) -> Seq<char> {
    if text.len() > 0 && text[0] == '+' {
        text.skip(1)
    } else {
        text
    }
}

/// The port that a text denotes: one or more decimal digits, after an optional
/// plus sign, whose number is at most 65535. Leading zeros are allowed; blanks,
/// a minus sign and an empty run of digits are not.
pub open spec fn port_of(text: Seq<char>) -> Option<u16> {
    let digits = port_digits(text);
    if digits.len() == 0 {
        None
    } else {
        match digits_value(digits) {
            Some(value) => if value <= 65535 {
                Some(value as u16)
            } else {
                None
            },
            None => None,
        }
    }
}

/// A run of digits that denotes a number has prefixes that denote numbers too,
/// none of them larger.
pub proof fn lemma_digits_value_prefix(digits: Seq<char>, k: int)
    requires
        0 <= k <= digits.len(),
    ensures
        digits_value(digits) matches Some(value) ==> (digits_value(digits.take(k)) matches Some(
            high,
        ) && 0 <= high <= value),
    decreases digits.len(),
{
    if k == digits.len() {
        assert(digits.take(k) =~= digits);
        lemma_digits_value_nonnegative(digits);
    } else {
        assert(digits.drop_last().take(k) =~= digits.take(k));
        lemma_digits_value_prefix(digits.drop_last(), k);
    }
}

/// No run of digits denotes a negative number.
pub proof fn lemma_digits_value_nonnegative(digits: Seq<char>)
    ensures
        digits_value(digits) matches Some(value) ==> 0 <= value,
    decreases digits.len(),
{
    if digits.len() > 0 {
        lemma_digits_value_nonnegative(digits.drop_last());
    }
}

/// Reads a port number.
pub fn parse_port(text: &str) -> (port: Option<u16>)
    ensures
        port == port_of(text@),
{
    let n = text.unicode_len();
    let mut i: usize = 0;
    if n > 0 && text.get_char(0) == '+' {
        i = 1;
    }
    if i == n {
        return None;
    }
    let start = i;
    let ghost digits = port_digits(text@);
    let mut value: u32 = 0;
    assert(digits.take(0) =~= Seq::<char>::empty());
    while i < n
        invariant
            n == text@.len(),
            start <= i <= n,
            digits == text@.skip(start as int),
            digits == port_digits(text@),
            digits_value(digits.take(i - start)) == Some(value as int),
            value <= MAX_PORT,
        decreases n - i,
    {
        let code = text.get_char(i) as u32;
        proof {
            lemma_digits_value_prefix(digits, i - start + 1);
            assert(digits.take(i - start + 1).drop_last() =~= digits.take(i - start));
            assert(digits.take(i - start + 1).last() == text@[i as int]);
        }
        if code < 48 || code > 57 {
            return None;
        }
        value = value * 10 + (code - 48);
        if value > MAX_PORT {
            return None;
        }
        i += 1;
    }
    assert(digits.take(i - start) =~= digits);
    Some(value as u16)
}

/// What the process serves with.
#[derive(Debug, Clone, PartialEq, Eq)]
pub struct Settings {
    /// The credential for the completion API.
    pub api_key: String,
    /// The port to listen on, on the loopback address.
    pub port: u16,
}

/// Settings as a mathematical value.
pub struct SettingsView {
    pub api_key: Seq<char>,
    pub port: u16,
}

impl View for Settings {
    type V = SettingsView;

    open spec fn view(&self) -> SettingsView {
        SettingsView { api_key: self.api_key@, port: self.port }
    }
}

/// Why the process must not start to serve.
#[derive(Debug, Clone, Copy, PartialEq, Eq, Structural)]
pub enum StartupError {
    /// The credential for the completion API is not configured.
    MissingCredential,
    /// A port is configured, but its text denotes no port.
    InvalidPort,
}

/// The settings that a configuration yields. The credential is required, and
/// its absence is reported before anything else; the port defaults to 8080.
pub open spec fn settings_of(api_key: Option<Seq<char>>, port: Option<Seq<char>>) -> Result<
    SettingsView,
    StartupError,
> {
    match api_key {
        None => Err(StartupError::MissingCredential),
        Some(api_key) => match port {
            None => Ok(SettingsView { api_key, port: DEFAULT_PORT }),
            Some(text) => match port_of(text) {
                Some(port) => Ok(SettingsView { api_key, port }),
                None => Err(StartupError::InvalidPort),
            },
        },
    }
}

/// An optional text as a mathematical value.
pub open spec fn text_of(text: Option<String>) -> Option<Seq<char>> {
    match text {
        Some(text) => Some(text@),
        None => None,
    }
}

/// A startup result with its settings taken as a mathematical value.
pub open spec fn started(result: Result<Settings, StartupError>) -> Result<
    SettingsView,
    StartupError,
> {
    match result {
        Ok(settings) => Ok(settings@),
        Err(error) => Err(error),
    }
}

/// Decides whether the process may serve, and with which settings.
pub fn startup(api_key: Option<String>, port: Option<String>) -> (result: Result<
    Settings,
    StartupError,
>)
    ensures
        started(result) == settings_of(text_of(api_key), text_of(port)),
{
    let api_key = match api_key {
        Some(api_key) => api_key,
        None => {
            return Err(StartupError::MissingCredential);
        },
    };
    match port {
        None => Ok(Settings { api_key, port: DEFAULT_PORT }),
        Some(text) => match parse_port(text.as_str()) {
            Some(port) => Ok(Settings { api_key, port }),
            None => Err(StartupError::InvalidPort),
        },
    }
}

} // verus!
