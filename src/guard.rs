use vstd::prelude::*;

use crate::directive::{cfg_key_value_line, cfg_line, Rustc};

verus! {

/// The upper-case form of `s`, as std's `str::to_uppercase` gives it.
pub uninterp spec fn upper_of(s: Seq<char>) -> Seq<char>;

/// The lower-case form of `s`, as std's `str::to_lowercase` gives it.
pub uninterp spec fn lower_of(s: Seq<char>) -> Seq<char>;

/// Relies on std's `str::to_uppercase`: the result depends on the characters
/// of `s` alone.
#[verifier::external_body]
fn uppercase(s: &str) -> (r: String)
    ensures
        r@ == upper_of(s@),
{
    s.to_uppercase()
}

/// Relies on std's `str::to_lowercase`: the result depends on the characters
/// of `s` alone.
#[verifier::external_body]
fn lowercase(s: &str) -> (r: String)
    ensures
        r@ == lower_of(s@),
{
    s.to_lowercase()
}

/// The name under which the environment variable `env` is looked up: its
/// upper-case form.
pub fn env_key(env: &str) -> (r: String)
    ensures
        r@ == upper_of(env@),
{
    uppercase(env)
}

/// An equality guard holds: the variable is set, and its value equals
/// `expected` once both are in lower case.
pub open spec fn env_value_matches_spec(env_value: Option<&str>, expected: Seq<char>) -> bool {
    &&& env_value is Some
    &&& lower_of(env_value->0@) == lower_of(expected)
}

/// Whether a variable's lower-case value `folded_value` meets the lower-case
/// expectation `folded_expected`: the variable is set, and the two are equal.
pub fn folded_value_matches(folded_value: Option<&str>, folded_expected: &str) -> (r: bool)
    ensures
        r == (folded_value is Some && folded_value->0@ == folded_expected@),
{
    match folded_value {
        Some(v) => String::from_str(v) == String::from_str(folded_expected),
        None => false,
    }
}

/// Whether the guard holds for the variable's value `env_value` (`None` when
/// it is unset) and the expected value `expected`, compared case-insensitively.
pub fn env_value_matches(env_value: Option<&str>, expected: &str) -> (r: bool)
    ensures
        r == env_value_matches_spec(env_value, expected@),
{
    let folded_expected = lowercase(expected);
    match env_value {
        Some(v) => {
            let folded = lowercase(v);
            folded_value_matches(Some(folded.as_str()), folded_expected.as_str())
        },
        None => folded_value_matches(None, folded_expected.as_str()),
    }
}

/// The guarded operations. The caller looks the variable up under
/// `env_key(env)` and hands over what it found: whether it is set at all for
/// the presence guards, its value (`None` when unset or not valid Unicode)
/// for the equality guards.
impl Rustc {
    /// The line that declares `cfg` active, when the variable is set (to any
    /// value, the empty one included).
    pub fn rustc_cfg_wrap_key_if_env_set(&self, cfg: &str, env_set: bool) -> (r: Option<String>)
        ensures
            r is Some <==> env_set,
            r is Some ==> r->0@ == cfg_line(cfg@),
    {
        if env_set {
            Some(self.rustc_cfg_wrap_key(cfg))
        } else {
            None
        }
    }

    /// The line that declares `cfg` active, when the variable's value equals
    /// `expected` case-insensitively.
    pub fn rustc_cfg_wrap_key_if_env_has_value(
        &self,
        cfg: &str,
        env_value: Option<&str>,
        expected: &str,
    ) -> (r: Option<String>)
        ensures
            r is Some <==> env_value_matches_spec(env_value, expected@),
            r is Some ==> r->0@ == cfg_line(cfg@),
    {
        if env_value_matches(env_value, expected) {
            Some(self.rustc_cfg_wrap_key(cfg))
        } else {
            None
        }
    }

    /// The line that declares `cfg` active with `value`, when the variable is set.
    pub fn rustc_cfg_wrap_key_value_if_env_set(
        &self,
        cfg: &str,
        value: &str,
        env_set: bool,
    ) -> (r: Option<String>)
        ensures
            r is Some <==> env_set,
            r is Some ==> r->0@ == cfg_key_value_line(cfg@, value@),
    {
        if env_set {
            Some(self.rustc_cfg_wrap_key_value(cfg, value))
        } else {
            None
        }
    }

    /// The line that declares `cfg` active with `value`, when the variable's
    /// value equals `expected` case-insensitively.
    pub fn rustc_cfg_wrap_key_value_if_env_has_value(
        &self,
        cfg: &str,
        value: &str,
        env_value: Option<&str>,
        expected: &str,
    ) -> (r: Option<String>)
        ensures
            r is Some <==> env_value_matches_spec(env_value, expected@),
            r is Some ==> r->0@ == cfg_key_value_line(cfg@, value@),
    {
        if env_value_matches(env_value, expected) {
            Some(self.rustc_cfg_wrap_key_value(cfg, value))
        } else {
            None
        }
    }

    /// The lines of `rustc_cfg_wrap_key_values`, when the variable is set;
    /// none otherwise.
    pub fn rustc_cfg_wrap_key_values_if_env_set(
        &self,
        cfg: &str,
        values: &[&str],
        env_set: bool,
    ) -> (r: Vec<String>)
        ensures
            r@.len() == (if env_set { values@.len() } else { 0 }),
            forall|i: int|
                0 <= i < r@.len() ==> #[trigger] r@[i]@ == cfg_key_value_line(
                    cfg@,
                    values@[i]@,
                ),
    {
        if env_set {
            self.rustc_cfg_wrap_key_values(cfg, values)
        } else {
            Vec::new()
        }
    }

    /// The lines of `rustc_cfg_wrap_key_values`, when the variable's value
    /// equals `expected` case-insensitively; none otherwise.
    pub fn rustc_cfg_wrap_key_values_if_env_has_value(
        &self,
        cfg: &str,
        values: &[&str],
        env_value: Option<&str>,
        expected: &str,
    ) -> (r: Vec<String>)
        ensures
            r@.len() == (if env_value_matches_spec(env_value, expected@) {
                values@.len()
            } else {
                0
            }),
            forall|i: int|
                0 <= i < r@.len() ==> #[trigger] r@[i]@ == cfg_key_value_line(
                    cfg@,
                    values@[i]@,
                ),
    {
        if env_value_matches(env_value, expected) {
            self.rustc_cfg_wrap_key_values(cfg, values)
        } else {
            Vec::new()
        }
    }
}

} // verus!
