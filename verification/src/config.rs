//! The configuration resolver: typed defaults over an environment value
//! that the caller has already looked up (`None` when the variable is
//! missing). Keeping the lookup outside makes every rule here a pure,
//! verified function of the value and the default.

use vstd::prelude::*;
use vstd::string::StringExecFns;

use crate::text::is_truthy;
use crate::text::parse_u16;
use crate::text::parsed_u16;
use crate::text::parses_as_u16;
use crate::text::truthy;

verus! {

/// The view of an optional environment value.
pub open spec fn opt_str_view(v: Option<&String>) -> Option<Seq<char>> {
    match v {
        Some(s) => Some(s@),
        None => None,
    }
}

/// What a boolean flag resolves to: a missing variable falls back to the
/// default, while any present value is truthy or not on its own — an
/// unrecognized present value is `false`, never the default.
pub open spec fn resolved_bool(value: Option<Seq<char>>, default: bool) -> bool {
    match value {
        Some(s) => truthy(s),
        None => default,
    }
}

pub fn env_bool(value: Option<&String>, default: bool) -> (r: bool)
    ensures
        r == resolved_bool(opt_str_view(value), default),
{
    match value {
        Some(s) => is_truthy(s.as_str()),
        None => default,
    }
}

/// What a port variable resolves to: the written value when it parses as a
/// 16-bit unsigned integer, else the default (a malformed value is treated
/// exactly like a missing one).
pub open spec fn resolved_u16(value: Option<Seq<char>>, default: u16) -> u16 {
    match value {
        Some(s) => if parses_as_u16(s) {
            parsed_u16(s) as u16
        } else {
            default
        },
        None => default,
    }
}

pub fn env_u16(value: Option<&String>, default: u16) -> (r: u16)
    ensures
        r == resolved_u16(opt_str_view(value), default),
{
    match value {
        Some(s) => match parse_u16(s.as_str()) {
            Some(p) => p,
            None => default,
        },
        None => default,
    }
}

/// What a string variable resolves to: the value verbatim when present,
/// else the default.
pub open spec fn resolved_string(value: Option<Seq<char>>, default: Seq<char>) -> Seq<char> {
    match value {
        Some(s) => s,
        None => default,
    }
}

pub fn env_string(value: Option<String>, default: &str) -> (r: String)
    ensures
        r@ == resolved_string(
            match value {
                Some(s) => Some(s@),
                None => None,
            },
            default@,
        ),
{
    match value {
        Some(s) => s,
        None => String::from_str(default),
    }
}

} // verus!
