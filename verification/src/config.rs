//! Backend and power-preference selection.
//!
//! Two independent configuration values, each optional, are resolved into
//! enums before any device work starts: a backend identifier and a power
//! preference. An unrecognized value is a configuration error; an absent
//! value falls back to the platform's primary backend set, respectively the
//! backend-defined default power preference.
//!
//! Matching is ASCII case-insensitive, and deliberately only that: the
//! recognized identifiers are ASCII keywords, so only ASCII letters take
//! part in the case folding. A spelling that only a full Unicode case
//! folding would map onto a keyword (one written with the Kelvin sign, say)
//! is refused as unrecognized rather than accepted by accident.

use vstd::prelude::*;

verus! {

/// One concrete graphics/compute backend that an adapter can report.
#[derive(Clone, Copy, Debug, PartialEq, Eq, Structural)]
pub enum Backend {
    /// wgpu's stub testing backend: buffers, copies and mapping are real,
    /// passes execute nothing. Never produced by configuration parsing; an
    /// adapter reports it only when a context was acquired through the
    /// dedicated testing constructor.
    Noop,
    Vulkan,
    Metal,
    Dx12,
    Gl,
    /// WebGPU hosted by a browser.
    BrowserWebgpu,
}

/// The resolved backend configuration: either the platform's default
/// "primary" backend set, or one explicitly requested backend.
#[derive(Clone, Copy, Debug, PartialEq, Eq, Structural)]
pub enum BackendChoice {
    Primary,
    Specific(Backend),
}

/// The resolved power preference for adapter selection.
#[derive(Clone, Copy, Debug, PartialEq, Eq, Structural)]
pub enum PowerChoice {
    /// No preference was configured; the backend picks its default.
    Unspecified,
    LowPower,
    HighPerformance,
}

/// A configuration value that matches no recognized identifier.
#[derive(Clone, Copy, Debug, PartialEq, Eq, Structural)]
pub enum ConfigError {
    UnknownBackend,
    UnknownPowerPreference,
}

/// The view of an optional configuration value.
pub open spec fn opt_chars(value: Option<&str>) -> Option<Seq<char>> {
    match value {
        Some(s) => Some(s@),
        None => None,
    }
}

/// ASCII lowering of one character; everything outside 'A'..'Z' is unchanged.
pub open spec fn lower_char(c: char) -> char {
    match c {
        'A' => 'a',
        'B' => 'b',
        'C' => 'c',
        'D' => 'd',
        'E' => 'e',
        'F' => 'f',
        'G' => 'g',
        'H' => 'h',
        'I' => 'i',
        'J' => 'j',
        'K' => 'k',
        'L' => 'l',
        'M' => 'm',
        'N' => 'n',
        'O' => 'o',
        'P' => 'p',
        'Q' => 'q',
        'R' => 'r',
        'S' => 's',
        'T' => 't',
        'U' => 'u',
        'V' => 'v',
        'W' => 'w',
        'X' => 'x',
        'Y' => 'y',
        'Z' => 'z',
        _ => c,
    }
}

/// `s` equals the (already lower-case) keyword `kw` up to ASCII case.
pub open spec fn matches_keyword(s: Seq<char>, kw: Seq<char>) -> bool {
    s.len() == kw.len() && forall|i: int| 0 <= i < s.len() ==> lower_char(s[i]) == kw[i]
}

/// The backend named by `s`, if any.
pub open spec fn spec_backend_of(s: Seq<char>) -> Option<Backend> {
    if matches_keyword(s, "vulkan"@) {
        Some(Backend::Vulkan)
    } else if matches_keyword(s, "metal"@) {
        Some(Backend::Metal)
    } else if matches_keyword(s, "dx12"@) {
        Some(Backend::Dx12)
    } else if matches_keyword(s, "gl"@) {
        Some(Backend::Gl)
    } else if matches_keyword(s, "webgpu"@) {
        Some(Backend::BrowserWebgpu)
    } else {
        None
    }
}

/// What `parse_backend` must return for a given configuration value.
pub open spec fn spec_parse_backend(value: Option<Seq<char>>) -> Result<
    BackendChoice,
    ConfigError,
> {
    match value {
        None => Ok(BackendChoice::Primary),
        Some(s) => match spec_backend_of(s) {
            Some(b) => Ok(BackendChoice::Specific(b)),
            None => Err(ConfigError::UnknownBackend),
        },
    }
}

/// What `parse_power_preference` must return for a given configuration value.
pub open spec fn spec_parse_power(value: Option<Seq<char>>) -> Result<PowerChoice, ConfigError> {
    match value {
        None => Ok(PowerChoice::Unspecified),
        Some(s) => if matches_keyword(s, "low"@) {
            Ok(PowerChoice::LowPower)
        } else if matches_keyword(s, "high"@) {
            Ok(PowerChoice::HighPerformance)
        } else {
            Err(ConfigError::UnknownPowerPreference)
        },
    }
}

/// ASCII lowering of one character.
fn char_lower(c: char) -> (r: char)
    ensures
        r == lower_char(c),
{
    match c {
        'A' => 'a',
        'B' => 'b',
        'C' => 'c',
        'D' => 'd',
        'E' => 'e',
        'F' => 'f',
        'G' => 'g',
        'H' => 'h',
        'I' => 'i',
        'J' => 'j',
        'K' => 'k',
        'L' => 'l',
        'M' => 'm',
        'N' => 'n',
        'O' => 'o',
        'P' => 'p',
        'Q' => 'q',
        'R' => 'r',
        'S' => 's',
        'T' => 't',
        'U' => 'u',
        'V' => 'v',
        'W' => 'w',
        'X' => 'x',
        'Y' => 'y',
        'Z' => 'z',
        _ => c,
    }
}

/// `s` equals the lower-case keyword `kw` up to ASCII case.
fn str_matches_keyword(s: &str, kw: &str) -> (r: bool)
    ensures
        r == matches_keyword(s@, kw@),
{
    let n = s.unicode_len();
    if n != kw.unicode_len() {
        return false;
    }
    let mut i: usize = 0;
    while i < n
        invariant
            n == s@.len(),
            n == kw@.len(),
            0 <= i <= n,
            forall|j: int| 0 <= j < i ==> lower_char(s@[j]) == kw@[j],
        decreases n - i,
    {
        if char_lower(s.get_char(i)) != kw.get_char(i) {
            return false;
        }
        i = i + 1;
    }
    true
}

/// Resolves the optional backend identifier.
///
/// A recognized name selects that backend alone; an absent value selects the
/// platform's primary backend set; anything else is a configuration error
/// (never a silent default).
pub fn parse_backend(value: Option<&str>) -> (r: Result<BackendChoice, ConfigError>)
    ensures
        r == spec_parse_backend(opt_chars(value)),
{
    match value {
        None => Ok(BackendChoice::Primary),
        Some(s) => {
            if str_matches_keyword(s, "vulkan") {
                Ok(BackendChoice::Specific(Backend::Vulkan))
            } else if str_matches_keyword(s, "metal") {
                Ok(BackendChoice::Specific(Backend::Metal))
            } else if str_matches_keyword(s, "dx12") {
                Ok(BackendChoice::Specific(Backend::Dx12))
            } else if str_matches_keyword(s, "gl") {
                Ok(BackendChoice::Specific(Backend::Gl))
            } else if str_matches_keyword(s, "webgpu") {
                Ok(BackendChoice::Specific(Backend::BrowserWebgpu))
            } else {
                Err(ConfigError::UnknownBackend)
            }
        },
    }
}

/// Resolves the optional power preference.
///
/// "low" and "high" are the recognized values; an absent value leaves the
/// choice to the backend; anything else is a configuration error.
pub fn parse_power_preference(value: Option<&str>) -> (r: Result<PowerChoice, ConfigError>)
    ensures
        r == spec_parse_power(opt_chars(value)),
{
    match value {
        None => Ok(PowerChoice::Unspecified),
        Some(s) => {
            if str_matches_keyword(s, "low") {
                Ok(PowerChoice::LowPower)
            } else if str_matches_keyword(s, "high") {
                Ok(PowerChoice::HighPerformance)
            } else {
                Err(ConfigError::UnknownPowerPreference)
            }
        },
    }
}

} // verus!
