//! Task identifiers.
use vstd::prelude::*;

use apalis_core::task::task_id::TaskId;

verus! {

/// The identifier of a task, as `apalis_core` defines it.
#[verifier::external_type_specification]
#[verifier::external_body]
pub struct ExTaskId(TaskId);

/// The identifier that `apalis_core` reads from `text`, if any.
pub uninterp spec fn task_id_from_text(text: Seq<char>) -> Option<TaskId>;

/// `apalis_core`'s `TaskId::from_str`: it reads the text as a UUID, a ULID,
/// an integer or else as the text itself, and fails only on empty text.
/// Which of these forms the identifier takes is named, not stated.
#[verifier::external_body]
pub(crate) fn parse_task_id(text: &str) -> (r: Option<TaskId>)
    ensures
        r == task_id_from_text(text@),
        r is None <==> text@.len() == 0,
{
    match text.parse::<TaskId>() {
        Ok(id) => Some(id),
        Err(_) => None,
    }
}

/// A digit of Crockford's base 32 as `ulid` writes it: `0`-`9` and the
/// capital letters but `I`, `L`, `O` and `U`.
pub open spec fn is_crockford_digit(c: char) -> bool {
    ('0' <= c && c <= '9') || ('A' <= c && c <= 'Z' && c != 'I' && c != 'L' && c != 'O' && c
        != 'U')
}

/// The text form of a ULID: 26 Crockford base 32 digits, the first at most
/// `7`, since the 128 bits of a ULID fill 26 digits of 5 bits but for 2.
pub open spec fn is_ulid_text(s: Seq<char>) -> bool {
    &&& s.len() == 26
    &&& forall|i: int| 0 <= i < 26 ==> is_crockford_digit(#[trigger] s[i])
    &&& '0' <= s[0] && s[0] <= '7'
}

/// `ulid`'s `Ulid::generate` followed by `Ulid::to_string`: a fresh
/// identifier from the clock and a random source, written as the 26
/// characters of its Crockford base 32 form. Which identifier comes out
/// rests on the clock and on chance and is not stated.
#[verifier::external_body]
pub(crate) fn generate_task_id() -> (s: String)
    ensures
        is_ulid_text(s@),
{
    ulid::Ulid::generate().to_string()
}

} // verus!
