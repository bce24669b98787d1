//! Scaling a species' size: the answer that shows its scaled height and weight.

use vstd::prelude::*;

use crate::text::{nat_digits, push_str, push_u64};

verus! {

/// The warning for sizes that need an admin's approval.
pub const ADMIN_REQUEST_WARNING: &'static str = "Warning: This size is only allowed after admin request!";

/// Whether a size needs an admin's approval: 50 to 66 percent, or 134 to 200 percent.
pub open spec fn needs_admin_request_spec(percent: u8) -> bool {
    (50 <= percent <= 66) || (134 <= percent <= 200)
}

/// Whether a size needs an admin's approval.
pub fn needs_admin_request(percent: u8) -> (b: bool)
    ensures
        b == needs_admin_request_spec(percent),
{
    (50 <= percent && percent <= 66) || (134 <= percent && percent <= 200)
}

/// The answer of the scale command: the species and the size in bold, the warning where
/// the size needs approval, and the scaled height and weight in a code block.
pub open spec fn scale_text(name: Seq<char>, percent: u8, height: Seq<char>, weight: Seq<char>) -> Seq<char> {
    "**"@ + name + " scaled to "@ + nat_digits(percent as nat) + "%**\n"@
        + (if needs_admin_request_spec(percent) { ADMIN_REQUEST_WARNING@ + "\n"@ } else { Seq::empty() })
        + "```\n"@ + height + "   |   "@ + weight + "\n```"@
}

/// The answer of the scale command, given the scaled height and weight as text.
pub fn scale_message(name: &str, percent: u8, height: &str, weight: &str) -> (s: String)
    ensures
        s@ == scale_text(name@, percent, height@, weight@),
{
    let mut s = String::new();
    push_str(&mut s, "**");
    push_str(&mut s, name);
    push_str(&mut s, " scaled to ");
    push_u64(&mut s, percent as u64);
    push_str(&mut s, "%**\n");
    if needs_admin_request(percent) {
        push_str(&mut s, ADMIN_REQUEST_WARNING);
        push_str(&mut s, "\n");
    }
    push_str(&mut s, "```\n");
    push_str(&mut s, height);
    push_str(&mut s, "   |   ");
    push_str(&mut s, weight);
    push_str(&mut s, "\n```");
    assert(s@ =~= scale_text(name@, percent, height@, weight@));
    s
}

} // verus!
