//! Environment-variable resolution: `SIGMA_RACER_WINGMAN_<name>` first, then
//! the bare `<name>`; an empty value counts as unset.
//!
//! Reading the process environment is the caller's job; this module decides
//! which of the values read wins and how it is interpreted.

use crate::text::same_chars;
use vstd::prelude::*;

verus! {

/// The namespace every daemon variable may be prefixed with.
pub open spec fn namespace_prefix() -> Seq<char> {
    seq!['S', 'I', 'G', 'M', 'A', '_', 'R', 'A', 'C', 'E', 'R', '_', 'W', 'I', 'N', 'G', 'M', 'A', 'N', '_']
}

/// The view of an optional string.
pub open spec fn opt_view(value: Option<String>) -> Option<Seq<char>> {
    match value {
        Some(s) => Some(s@),
        None => None,
    }
}

/// A value that is present and non-empty.
pub open spec fn is_set(value: Option<Seq<char>>) -> bool {
    value is Some && value->0.len() > 0
}

/// Which value a lookup yields: the namespaced one when it is set, else the
/// bare one when it is set, else nothing.
pub open spec fn spec_resolve(namespaced: Option<Seq<char>>, bare: Option<Seq<char>>) -> Option<Seq<char>> {
    if is_set(namespaced) {
        namespaced
    } else if is_set(bare) {
        bare
    } else {
        None
    }
}

/// The spellings that switch a flag on.
pub open spec fn is_truthy(s: Seq<char>) -> bool {
    ||| s == seq!['1']
    ||| s == seq!['t', 'r', 'u', 'e']
    ||| s == seq!['T', 'R', 'U', 'E']
    ||| s == seq!['y', 'e', 's']
}

/// A variable's value, or `default` when it is unset.
pub open spec fn spec_var_or(value: Option<Seq<char>>, default: Seq<char>) -> Seq<char> {
    match value {
        Some(v) => v,
        None => default,
    }
}

/// A boolean variable's value: on exactly for the truthy spellings.
pub open spec fn spec_flag(value: Option<Seq<char>>) -> bool {
    match value {
        Some(v) => is_truthy(v),
        None => false,
    }
}

/// Name of the namespaced variant of `primary`.
pub fn namespaced_name(primary: &str) -> (name: String)
    ensures
        name@ == namespace_prefix() + primary@,
        name@ == seq!['S', 'I', 'G', 'M', 'A', '_', 'R', 'A', 'C', 'E', 'R', '_', 'W', 'I', 'N', 'G', 'M', 'A', 'N', '_'] + primary@,
{
    let mut name = String::from_str("SIGMA_RACER_WINGMAN_");
    proof {
        reveal_strlit("SIGMA_RACER_WINGMAN_");
    }
    name.append(primary);
    assert(name@ =~= namespace_prefix() + primary@);
    name
}

/// Pick the value of a variable from its namespaced and bare lookups.
pub fn resolve_var(namespaced: Option<String>, bare: Option<String>) -> (value: Option<String>)
    ensures
        opt_view(value) == spec_resolve(opt_view(namespaced), opt_view(bare)),
{
    match namespaced {
        Some(s) if s.as_str().unicode_len() > 0 => {
            return Some(s);
        },
        _ => {},
    }
    match bare {
        Some(s) if s.as_str().unicode_len() > 0 => Some(s),
        _ => None,
    }
}

/// A resolved variable, or `default` when it is unset.
pub fn var_or(value: Option<String>, default: &str) -> (result: String)
    ensures
        result@ == spec_var_or(opt_view(value), default@),
{
    match value {
        Some(v) => v,
        None => default.to_owned(),
    }
}

/// A resolved boolean variable: `1`, `true`, `TRUE` or `yes` switch it on.
pub fn flag(value: Option<String>) -> (on: bool)
    ensures
        on == spec_flag(opt_view(value)),
        on <==> (opt_view(value) matches Some(v) && (v == seq!['1'] || v == seq!['t', 'r', 'u', 'e']
            || v == seq!['T', 'R', 'U', 'E'] || v == seq!['y', 'e', 's'])),
{
    match value {
        None => false,
        Some(v) => {
            let s = v.as_str();
            proof {
                reveal_strlit("1");
                reveal_strlit("true");
                reveal_strlit("TRUE");
                reveal_strlit("yes");
            }
            let r = same_chars(s, "1") || same_chars(s, "true") || same_chars(s, "TRUE")
                || same_chars(s, "yes");
            assert("1"@ =~= seq!['1']);
            assert("true"@ =~= seq!['t', 'r', 'u', 'e']);
            assert("TRUE"@ =~= seq!['T', 'R', 'U', 'E']);
            assert("yes"@ =~= seq!['y', 'e', 's']);
            r
        },
    }
}

/// A flag is on for exactly four spellings — `1`, `true`, `TRUE`, `yes` —
/// and off for every other value (`no`, `0`, `True`, the empty string, …)
/// and when the variable is unset.
pub proof fn lemma_flag_spellings(value: Option<Seq<char>>)
    ensures
        spec_flag(value) <==> (value matches Some(v) && (v == seq!['1'] || v == seq![
            't',
            'r',
            'u',
            'e',
        ] || v == seq!['T', 'R', 'U', 'E'] || v == seq!['y', 'e', 's'])),
        spec_flag(None) == false,
{
}

/// The order in which the two spellings of a variable are consulted, for
/// every pair of values: a non-empty namespaced value wins; otherwise a
/// non-empty bare value; otherwise the variable is unset. The value
/// returned is always one of the two inputs, never empty.
pub proof fn lemma_resolve_order(namespaced: Option<Seq<char>>, bare: Option<Seq<char>>)
    ensures
        (namespaced matches Some(n) && n.len() > 0) ==> spec_resolve(namespaced, bare) == namespaced,
        (!(namespaced matches Some(n) && n.len() > 0) && (bare matches Some(b) && b.len() > 0))
            ==> spec_resolve(namespaced, bare) == bare,
        (!(namespaced matches Some(n) && n.len() > 0) && !(bare matches Some(b) && b.len() > 0))
            ==> spec_resolve(namespaced, bare) is None,
        spec_resolve(namespaced, bare) matches Some(v) ==> v.len() > 0,
        forall|v: Seq<char>, d: Seq<char>| spec_var_or(Some(v), d) == v && spec_var_or(None, d) == d,
{
}

/// An empty value counts as unset: an empty namespaced variable defers to
/// the bare one exactly as a missing one does, and an empty bare variable
/// yields nothing.
pub proof fn lemma_empty_is_unset(bare: Option<Seq<char>>, namespaced: Option<Seq<char>>)
    ensures
        spec_resolve(Some(Seq::<char>::empty()), bare) == spec_resolve(None, bare),
        spec_resolve(namespaced, Some(Seq::<char>::empty())) == spec_resolve(namespaced, None),
{
}

/// A resolved value is never empty, so [`var_or`] falls back to its default
/// precisely when both spellings of the variable are unset or empty, and a
/// flag is off whenever both are.
pub proof fn lemma_default_when_unset(namespaced: Option<Seq<char>>, bare: Option<Seq<char>>, default: Seq<char>)
    ensures
        spec_resolve(namespaced, bare) is Some ==> spec_resolve(namespaced, bare)->0.len() > 0,
        (!is_set(namespaced) && !is_set(bare)) <==> spec_resolve(namespaced, bare) is None,
        (!is_set(namespaced) && !is_set(bare)) ==> spec_var_or(spec_resolve(namespaced, bare), default) == default
            && !spec_flag(spec_resolve(namespaced, bare)),
{
}

} // verus!
