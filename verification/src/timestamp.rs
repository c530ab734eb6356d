//! The timestamp grammar `YYYY-MM-DDTHH:MM:SS.ffffffZ` — UTC, microsecond
//! precision, a literal trailing `Z`, 27 characters in all — and the clock.
//!
//! The grammar is part of the wire contract: the timestamp string inside the
//! signed bytes must be byte-identical to the one in the response, so the
//! format is fixed here once rather than inferred from a formatting call.
//! Nothing is trusted about the clock's output: a verified check establishes
//! the grammar, and a clock reading that falls outside it (a year beyond four
//! digits) surfaces as a service-level error.

use vstd::prelude::*;
use vstd::string::StrSliceExecFns;
use crate::VtsError;

verus! {

/// A digit character.
pub open spec fn is_digit(c: char) -> bool {
    '0' <= c && c <= '9'
}

/// What the timestamp grammar demands at one position: a fixed separator at
/// the separator positions, a digit everywhere else.
pub open spec fn timestamp_char_ok(s: Seq<char>, i: int) -> bool {
    if i == 4 || i == 7 {
        s[i] == '-'
    } else if i == 10 {
        s[i] == 'T'
    } else if i == 13 || i == 16 {
        s[i] == ':'
    } else if i == 19 {
        s[i] == '.'
    } else if i == 26 {
        s[i] == 'Z'
    } else {
        is_digit(s[i])
    }
}

/// The fixed timestamp grammar: 27 characters, each as `timestamp_char_ok`
/// demands.
pub open spec fn is_timestamp(s: Seq<char>) -> bool {
    s.len() == 27 && (forall|i: int| 0 <= i < 27 ==> #[trigger] timestamp_char_ok(s, i))
}

/// Checks a text against the fixed timestamp grammar.
pub fn check_timestamp_text(s: &str) -> (r: bool)
    ensures
        r == is_timestamp(s@),
{
    if s.unicode_len() != 27 {
        return false;
    }
    let mut i: usize = 0;
    while i < 27
        invariant
            s@.len() == 27,
            i <= 27,
            forall|j: int| 0 <= j < i ==> #[trigger] timestamp_char_ok(s@, j),
        decreases 27 - i,
    {
        let c = s.get_char(i);
        let ok: bool = if i == 4 || i == 7 {
            c == '-'
        } else if i == 10 {
            c == 'T'
        } else if i == 13 || i == 16 {
            c == ':'
        } else if i == 19 {
            c == '.'
        } else if i == 26 {
            c == 'Z'
        } else {
            '0' <= c && c <= '9'
        };
        if !ok {
            assert(!timestamp_char_ok(s@, i as int));
            return false;
        }
        i += 1;
    }
    true
}

/// Relies on chrono's `Utc::now` and its `format` with
/// `%Y-%m-%dT%H:%M:%S%.6fZ`. Nothing is promised of the text: for a year
/// outside 0–9999 chrono writes the year signed and wider, so the fixed
/// grammar is not guaranteed; callers check it. Chrono's `Utc::now` itself
/// panics on a system clock before the Unix epoch.
#[verifier::external_body]
fn now_timestamp() -> String {
    chrono::Utc::now().format("%Y-%m-%dT%H:%M:%S%.6fZ").to_string()
}

/// Reads the clock and formats it in the fixed grammar. If the clock's text
/// falls outside the grammar (a degenerate clock), that is a service-level
/// error: the protocol's timestamp type cannot carry it.
pub fn current_timestamp() -> (r: Result<String, VtsError>)
    ensures
        r matches Ok(t) ==> is_timestamp(t@),
        r matches Err(e) ==> e == VtsError::InvalidTimestamp,
{
    let t = now_timestamp();
    if check_timestamp_text(t.as_str()) {
        Ok(t)
    } else {
        Err(VtsError::InvalidTimestamp)
    }
}

} // verus!
