//! Severity tiers and their colour coding.
//!
//! Callers supply severities as text; exactly the four tiers `P0` to `P3`
//! are recognised. Colour coding, by contrast, is total: a severity outside
//! the four tiers styles a message gray rather than failing, so that a
//! notification is never lost to a styling concern.

use vstd::prelude::*;
use crate::text::str_eq;

verus! {

/// Severity tier of an incident, `P0` (critical) through `P3` (low).
#[derive(Clone, Copy, Debug, PartialEq, Eq, Structural)]
pub enum Severity {
    P0,
    P1,
    P2,
    P3,
}

/// The severity named by `s`, or `None` outside the four tiers.
pub open spec fn spec_parse_severity(s: Seq<char>) -> Option<Severity> {
    if s == "P0"@ {
        Some(Severity::P0)
    } else if s == "P1"@ {
        Some(Severity::P1)
    } else if s == "P2"@ {
        Some(Severity::P2)
    } else if s == "P3"@ {
        Some(Severity::P3)
    } else {
        None
    }
}

/// The textual name of a severity tier.
pub open spec fn spec_severity_label(sev: Severity) -> Seq<char> {
    match sev {
        Severity::P0 => "P0"@,
        Severity::P1 => "P1"@,
        Severity::P2 => "P2"@,
        Severity::P3 => "P3"@,
    }
}

/// Parses a severity tier; any text outside the four tiers is rejected.
pub fn parse_severity(s: &str) -> (r: Option<Severity>)
    ensures
        r == spec_parse_severity(s@),
{
    if str_eq(s, "P0") {
        Some(Severity::P0)
    } else if str_eq(s, "P1") {
        Some(Severity::P1)
    } else if str_eq(s, "P2") {
        Some(Severity::P2)
    } else if str_eq(s, "P3") {
        Some(Severity::P3)
    } else {
        None
    }
}

/// Renders a severity tier back to its textual name.
pub fn severity_label(sev: Severity) -> (r: String)
    ensures
        r@ == spec_severity_label(sev),
{
    match sev {
        Severity::P0 => "P0".to_owned(),
        Severity::P1 => "P1".to_owned(),
        Severity::P2 => "P2".to_owned(),
        Severity::P3 => "P3".to_owned(),
    }
}

/// The hex colour a chat message is styled with, total over all inputs:
/// `P0` red, `P1` orange, `P2` yellow, `P3` green, anything else gray.
pub open spec fn spec_severity_color_hex(s: Seq<char>) -> Seq<char> {
    match spec_parse_severity(s) {
        Some(Severity::P0) => "#FF0000"@,
        Some(Severity::P1) => "#FFA500"@,
        Some(Severity::P2) => "#FFFF00"@,
        Some(Severity::P3) => "#00FF00"@,
        None => "#808080"@,
    }
}

/// The decimal colour value a rich embed is styled with, total over all
/// inputs: `P0` red, `P1` orange, `P2` yellow, `P3` green, anything else gray.
pub open spec fn spec_severity_color_value(s: Seq<char>) -> u32 {
    match spec_parse_severity(s) {
        Some(Severity::P0) => 16711680u32,
        Some(Severity::P1) => 16753920u32,
        Some(Severity::P2) => 16776960u32,
        Some(Severity::P3) => 65280u32,
        None => 8421504u32,
    }
}

/// Maps a severity text to its hex chat colour; deterministic and total.
pub fn severity_color_hex(s: &str) -> (r: String)
    ensures
        r@ == spec_severity_color_hex(s@),
{
    match parse_severity(s) {
        Some(Severity::P0) => "#FF0000".to_owned(),
        Some(Severity::P1) => "#FFA500".to_owned(),
        Some(Severity::P2) => "#FFFF00".to_owned(),
        Some(Severity::P3) => "#00FF00".to_owned(),
        None => "#808080".to_owned(),
    }
}

/// Maps a severity text to its decimal embed colour; deterministic and total.
pub fn severity_color_value(s: &str) -> (r: u32)
    ensures
        r == spec_severity_color_value(s@),
{
    match parse_severity(s) {
        Some(Severity::P0) => 16711680,
        Some(Severity::P1) => 16753920,
        Some(Severity::P2) => 16776960,
        Some(Severity::P3) => 65280,
        None => 8421504,
    }
}

} // verus!
