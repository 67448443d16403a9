//! Settings that come from the environment as optional text.

use vstd::prelude::*;

verus! {

/// The text of a setting, where it is set.
pub open spec fn setting_text(setting: Option<&str>) -> Option<Seq<char>> {
    match setting {
        Some(t) => Some(t@),
        None => None,
    }
}

/// The text of a setting, or `default` where it is not set.
pub open spec fn setting_or(setting: Option<Seq<char>>, default: Seq<char>) -> Seq<char> {
    match setting {
        Some(t) => t,
        None => default,
    }
}

/// The text of `setting`, or `default` where it is not set.
pub fn setting_or_default<'a>(setting: Option<&'a str>, default: &'a str) -> (res: &'a str)
    ensures
        res@ == setting_or(setting_text(setting), default@),
{
    match setting {
        Some(t) => t,
        None => default,
    }
}

} // verus!
