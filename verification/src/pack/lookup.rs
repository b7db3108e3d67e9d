//! Finding the code of a value in a table that gives the value of each code.
use vstd::prelude::*;

verus! {

/// The smallest code from `from` up to, and without, `limit` whose value in
/// the table is `value`.
pub open spec fn first_code<T>(table: spec_fn(u8) -> T, value: T, from: nat, limit: nat) -> Option<
    u8,
>
    decreases limit - from,
{
    if from >= limit || from > 255 {
        None
    } else if table(from as u8) == value {
        Some(from as u8)
    } else {
        first_code(table, value, from + 1, limit)
    }
}

/// What [`first_code`] finds has the value, and no code before it has; where
/// it finds nothing, no code has the value.
pub proof fn lemma_first_code<T>(table: spec_fn(u8) -> T, value: T, from: nat, limit: nat)
    requires
        limit <= 256,
    ensures
        match first_code(table, value, from, limit) {
            Some(code) => {
                &&& from <= code < limit
                &&& table(code) == value
                &&& forall|c: u8| from <= c < code ==> #[trigger] table(c) != value
            },
            None => forall|c: u8| from <= c < limit ==> #[trigger] table(c) != value,
        },
    decreases limit - from,
{
    if from < limit {
        if table(from as u8) != value {
            lemma_first_code(table, value, from + 1, limit);
        }
    }
}

/// In a table without two codes of one value, the code of a code's value is
/// the code.
pub proof fn lemma_first_code_of_value<T>(table: spec_fn(u8) -> T, code: u8, limit: nat)
    requires
        limit <= 256,
        code < limit,
        forall|a: u8, b: u8|
            a < limit && b < limit && #[trigger] table(a) == #[trigger] table(b) ==> a == b,
    ensures
        first_code(table, table(code), 0, limit) == Some(code),
{
    lemma_first_code(table, table(code), 0, limit);
}

} // verus!
