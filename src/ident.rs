//! Identification of the SoC: the revision field of the kernel's CPU
//! description, with the SoC id string as fallback where that field is zero.
//! Reading the two sources is left to the caller; this module decides what
//! they say.

use vstd::prelude::*;
use vstd::string::*;
use crate::hex::{hex_numeral_value, parse_hex};

verus! {

/// Why the SoC could not be identified.
#[derive(Clone, Copy, Debug, PartialEq, Eq, Structural)]
pub enum IdentError {
    /// A source could not be opened.
    OpenFailed,
    /// A source could not be read, was empty, or filled the whole buffer.
    ReadFailed,
    /// The CPU description holds no readable revision field.
    ParseFailed,
    /// The SoC id names no known SoC.
    UnknownSocId,
}

/// Size of the buffer that each source is read into.
pub const READ_BUFFER_LEN: usize = 2048;

/// Pattern of the revision field; its first group holds the hex digits.
pub const REVISION_PATTERN: &'static str = "Revision\\s*:\\s*([a-fA-F0-9]+)";

/// Codes that stand for the SoCs known by their id string.
pub const SOC_IMX6Q: u32 = 0x63000;
pub const SOC_IMX6DL: u32 = 0x61000;
pub const SOC_IMX6SL: u32 = 0x60000;

/// Text of the first capture group of the leftmost match of `pattern` in
/// `text`, or `None` where the pattern does not compile, does not match, or
/// its first group takes no part in the match.
pub uninterp spec fn first_capture_of(pattern: Seq<char>, text: Seq<char>) -> Option<Seq<char>>;

/// Relies on `regex::Regex::new` and `regex::Regex::captures` (with
/// `Captures::get` and `Match::as_str`): the result depends on the pattern
/// and the text alone.
#[verifier::external_body]
fn first_capture(pattern: &str, text: &str) -> (r: Option<String>)
    ensures
        r matches Some(g) ==> first_capture_of(pattern@, text@) == Some(g@),
        r is None ==> first_capture_of(pattern@, text@) is None,
{
    let re = regex::Regex::new(pattern).ok()?;
    let caps = re.captures(text)?;
    let group = caps.get(1)?;
    Some(group.as_str().to_string())
}

/// What a captured revision field says: `Ok(Some(rev))` for a nonzero
/// revision, `Ok(None)` for zero, where the SoC id must decide.
pub open spec fn revision_outcome(capture: Option<Seq<char>>) -> Result<Option<u32>, IdentError> {
    match capture {
        None => Err(IdentError::ParseFailed),
        Some(g) => match hex_numeral_value(g) {
            None => Err(IdentError::ParseFailed),
            Some(v) => if v == 0 {
                Ok(None)
            } else {
                Ok(Some(v))
            },
        },
    }
}

/// Reads the digits captured from the revision field.
pub fn revision_from_capture(capture: Option<String>) -> (r: Result<Option<u32>, IdentError>)
    ensures
        r == revision_outcome(
            match capture {
                Some(g) => Some(g@),
                None => None,
            },
        ),
{
    match capture {
        None => Err(IdentError::ParseFailed),
        Some(g) => match parse_hex(g.as_str()) {
            None => Err(IdentError::ParseFailed),
            Some(v) => if v == 0 {
                Ok(None)
            } else {
                Ok(Some(v))
            },
        },
    }
}

/// The revision that a CPU description gives: `Ok(Some(rev))` where its
/// revision field is nonzero, `Ok(None)` where it is zero.
pub fn cpuinfo_revision(text: &str) -> (r: Result<Option<u32>, IdentError>)
    ensures
        r == revision_outcome(first_capture_of(REVISION_PATTERN@, text@)),
{
    let capture = first_capture(REVISION_PATTERN, text);
    revision_from_capture(capture)
}

/// Whether `s` begins with `prefix`.
pub fn starts_with(s: &str, prefix: &str) -> (r: bool)
    ensures
        r == (prefix@.len() <= s@.len() && s@.subrange(0, prefix@.len() as int) == prefix@),
{
    let n = prefix.unicode_len();
    if n > s.unicode_len() {
        return false;
    }
    let mut i: usize = 0;
    while i < n
        invariant
            i <= n,
            n == prefix@.len(),
            n <= s@.len(),
            forall|k: int| 0 <= k < i ==> s@[k] == prefix@[k],
        decreases n - i,
    {
        if s.get_char(i) != prefix.get_char(i) {
            return false;
        }
        i = i + 1;
    }
    assert(s@.subrange(0, n as int) =~= prefix@);
    true
}

pub open spec fn has_prefix(s: Seq<char>, prefix: Seq<char>) -> bool {
    prefix.len() <= s.len() && s.subrange(0, prefix.len() as int) == prefix
}

/// The SoC code that an id string names.
pub open spec fn soc_code_of(id: Seq<char>) -> Result<u32, IdentError> {
    if has_prefix(id, "i.MX6Q"@) {
        Ok(SOC_IMX6Q)
    } else if has_prefix(id, "i.MX6DL"@) {
        Ok(SOC_IMX6DL)
    } else if has_prefix(id, "i.MX6SL"@) {
        Ok(SOC_IMX6SL)
    } else {
        Err(IdentError::UnknownSocId)
    }
}

/// Maps an SoC id string to its SoC code.
pub fn soc_code_from_id(id: &str) -> (r: Result<u32, IdentError>)
    ensures
        r == soc_code_of(id@),
{
    if starts_with(id, "i.MX6Q") {
        Ok(SOC_IMX6Q)
    } else if starts_with(id, "i.MX6DL") {
        Ok(SOC_IMX6DL)
    } else if starts_with(id, "i.MX6SL") {
        Ok(SOC_IMX6SL)
    } else {
        Err(IdentError::UnknownSocId)
    }
}

/// Accepts the byte count of a read into a buffer of `READ_BUFFER_LEN`
/// bytes: an empty read, or one that filled the buffer and so may have been
/// cut short, is refused.
pub fn check_read_size(n: usize) -> (r: Result<usize, IdentError>)
    ensures
        (n == 0 || n >= READ_BUFFER_LEN) <==> r == Err::<usize, IdentError>(IdentError::ReadFailed),
        0 < n < READ_BUFFER_LEN <==> r == Ok::<usize, IdentError>(n),
{
    if n == 0 || n >= READ_BUFFER_LEN {
        Err(IdentError::ReadFailed)
    } else {
        Ok(n)
    }
}

} // verus!
