//! The environment-variable checker: presence, and a redacted display of the value.

use vstd::prelude::*;
use vstd::string::StringExecFns;
use crate::checks::CheckResult;
use crate::text::{chars_of, string_of, push_range, push_repeat, shorten_chars, stars, shorten, ellipsis};

verus! {

/// Longest value that is shown masked rather than shortened.
pub const DISPLAY_LIMIT: usize = 20;

/// A value with all but its first two and last two characters replaced by `*`;
/// a value of at most four characters is all asterisks.
pub open spec fn masked(v: Seq<char>) -> Seq<char> {
    if v.len() <= 4 {
        stars(v.len())
    } else {
        v.subrange(0, 2) + stars((v.len() - 4) as nat) + v.subrange(v.len() - 2, v.len() as int)
    }
}

/// How a set value is shown: shortened when long, masked otherwise.
pub open spec fn displayed(v: Seq<char>) -> Seq<char> {
    if v.len() > DISPLAY_LIMIT {
        shorten(v, DISPLAY_LIMIT as nat)
    } else if v.len() == 0 {
        "(empty)"@
    } else {
        masked(v)
    }
}

/// The message of an environment check, given the variable's value if it is set.
pub open spec fn env_message(value: Option<Seq<char>>) -> Seq<char> {
    match value {
        None => "not set"@,
        Some(v) => "set ("@ + displayed(v) + ")"@,
    }
}

pub fn mask_value(value: &str) -> (r: String)
    ensures
        r@ == masked(value@),
{
    let cs = chars_of(value);
    let n = cs.len();
    let mut out: Vec<char> = Vec::new();
    if n <= 4 {
        push_repeat(&mut out, '*', n);
    } else {
        push_range(&mut out, &cs, 0, 2);
        push_repeat(&mut out, '*', n - 4);
        push_range(&mut out, &cs, n - 2, n);
    }
    assert(out@ =~= masked(value@));
    string_of(&out)
}

/// The text shown for a set value.
pub fn display_value(value: &str) -> (r: String)
    ensures
        r@ == displayed(value@),
        value@.len() > DISPLAY_LIMIT ==> r@ == value@.subrange(0, DISPLAY_LIMIT as int) + ellipsis(),
{
    let cs = chars_of(value);
    if cs.len() > DISPLAY_LIMIT {
        shorten_chars(&cs, DISPLAY_LIMIT)
    } else if cs.len() == 0 {
        String::from_str("(empty)")
    } else {
        mask_value(value)
    }
}

/// The result of checking the variable `var_name`, given its value if the
/// process environment holds one (a value that is not valid Unicode counts
/// as unset).
pub fn check_env_var(var_name: &str, value: Option<String>) -> (r: CheckResult)
    ensures
        r.check_type@ == "Env"@,
        r.name@ == var_name@,
        r.passed == value.is_some(),
        r.message@ == env_message(value.deep_view()),
        value is None ==> r.message@ == "not set"@,
{
    match value {
        None => CheckResult::fail("Env", var_name, String::from_str("not set")),
        Some(v) => {
            let mut m = String::from_str("set (");
            let d = display_value(v.as_str());
            m.append(d.as_str());
            m.append(")");
            CheckResult::pass("Env", var_name, m)
        },
    }
}

} // verus!
