//! Fresh identifiers and wall-clock time.
//!
//! Both values are nondeterministic, so the rest of the library treats them as
//! arguments: every caller states what holds of every outcome.

use vstd::prelude::*;

verus! {

/// Relies on `uuid::Uuid::new_v4` and its `Display` implementation: a fresh
/// version-4 UUID rendered in the 36-character hyphenated form.
#[verifier::external_body]
pub(crate) fn mint_id() -> (r: String)
    ensures
        r@.len() == 36,
{
    uuid::Uuid::new_v4().to_string()
}

/// Relies on `chrono::Utc::now` for the current wall-clock time, reduced to
/// whole seconds since the Unix epoch. Nothing is promised of the value.
#[verifier::external_body]
pub(crate) fn current_unix_time() -> i64 {
    chrono::Utc::now().timestamp()
}

} // verus!
