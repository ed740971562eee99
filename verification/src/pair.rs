//! The language-pair specifier grammar and its parser.
//!
//! A specifier has one of two shapes: `"<src>:<dst>"`, two two-letter
//! codes around a single `:` (length 5), or `":<dst>"`, an empty source
//! segment that asks the backend to detect the input language (length 3).
//! Anything else is rejected outright; no partial parse is attempted.

use vstd::prelude::*;

use crate::lang::code_for_chars;
use crate::lang::code_of;
use crate::lang::Lang;

verus! {

/// The source side of a parsed pair: a concrete language, or the request
/// that the backend detect the input language. `Detect` is never a valid
/// target.
#[derive(Clone, Copy, Debug, PartialEq, Eq, Structural)]
pub enum Origin {
    Detect,
    Known(Lang),
}

/// Why a specifier string was rejected.
#[derive(Clone, Copy, Debug, PartialEq, Eq, Structural)]
pub enum MalformedSpec {
    /// The string is neither 5 characters (`xx:yy`) nor 3 (`:yy`).
    WrongLength,
    /// The character at the separator position is not `:`.
    MissingSeparator,
    /// A language segment is not a supported short code.
    UnknownCode,
}

/// A successfully parsed language pair.
#[derive(Clone, Copy, Debug, PartialEq, Eq, Structural)]
pub struct ParsedPair {
    pub source: Origin,
    pub target: Lang,
}

/// What parsing a specifier yields, checked in this order: the length
/// gate first (a 3-character form must start with `:`), then the
/// separator position, then the segment count, then code lookup.
pub open spec fn parse_of(s: Seq<char>) -> Result<ParsedPair, MalformedSpec> {
    if s.len() != 5 {
        if s.len() == 3 && s[0] == ':' {
            match code_of(s.subrange(1, 3)) {
                Some(t) => Ok(ParsedPair { source: Origin::Detect, target: t }),
                None => Err(MalformedSpec::UnknownCode),
            }
        } else {
            Err(MalformedSpec::WrongLength)
        }
    } else if s[2] != ':' {
        Err(MalformedSpec::MissingSeparator)
    } else if s[0] == ':' || s[1] == ':' || s[3] == ':' || s[4] == ':' {
        // splitting on `:` would yield more than two segments
        Err(MalformedSpec::WrongLength)
    } else {
        match (code_of(s.subrange(0, 2)), code_of(s.subrange(3, 5))) {
            (Some(src), Some(dst)) => Ok(ParsedPair { source: Origin::Known(src), target: dst }),
            _ => Err(MalformedSpec::UnknownCode),
        }
    }
}

/// Parse a language-pair specifier, rejecting every string that does not
/// match one of the two accepted shapes exactly.
pub fn parse(spec: &str) -> (r: Result<ParsedPair, MalformedSpec>)
    ensures
        r == parse_of(spec@),
{
    let n: usize = spec.unicode_len();
    if n != 5 {
        if n == 3 && spec.get_char(0) == ':' {
            let c0: char = spec.get_char(1);
            let c1: char = spec.get_char(2);
            proof {
                assert(spec@.subrange(1, 3) =~= seq![spec@[1], spec@[2]]);
            }
            match code_for_chars(c0, c1) {
                Some(t) => Ok(ParsedPair { source: Origin::Detect, target: t }),
                None => Err(MalformedSpec::UnknownCode),
            }
        } else {
            Err(MalformedSpec::WrongLength)
        }
    } else if spec.get_char(2) != ':' {
        Err(MalformedSpec::MissingSeparator)
    } else {
        let a0: char = spec.get_char(0);
        let a1: char = spec.get_char(1);
        let b0: char = spec.get_char(3);
        let b1: char = spec.get_char(4);
        if a0 == ':' || a1 == ':' || b0 == ':' || b1 == ':' {
            Err(MalformedSpec::WrongLength)
        } else {
            proof {
                assert(spec@.subrange(0, 2) =~= seq![spec@[0], spec@[1]]);
                assert(spec@.subrange(3, 5) =~= seq![spec@[3], spec@[4]]);
            }
            match (code_for_chars(a0, a1), code_for_chars(b0, b1)) {
                (Some(src), Some(dst)) => Ok(
                    ParsedPair { source: Origin::Known(src), target: dst },
                ),
                _ => Err(MalformedSpec::UnknownCode),
            }
        }
    }
}

} // verus!
