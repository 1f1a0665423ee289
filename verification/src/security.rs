//! Recognizes password managers, whose clipboard contents are never recorded.
use vstd::prelude::*;

use crate::text::{chars_of, contains, contains_str, lower_seq, to_ascii_lower};

verus! {

/// A process file name that contains, ignoring ASCII case, the name of a
/// known password manager.
pub open spec fn excluded_name(file_name: Seq<char>) -> bool {
    let lower = lower_seq(file_name);
    ||| contains(lower, "keepass"@)
    ||| contains(lower, "bitwarden"@)
    ||| contains(lower, "1password"@)
}

pub fn is_excluded_process_name(file_name: &str) -> (r: bool)
    ensures
        r == excluded_name(file_name@),
{
    let lower = to_ascii_lower(&chars_of(file_name));
    contains_str(&lower, "keepass") || contains_str(&lower, "bitwarden") || contains_str(
        &lower,
        "1password",
    )
}

} // verus!
