//! Facts about texts that the rest of the crate states its laws with.

use vstd::prelude::*;

verus! {

/// Whether `part` stands in `text` as a run of consecutive characters.
pub open spec fn occurs_in(part: Seq<char>, text: Seq<char>) -> bool {
    exists|at: int|
        0 <= at && at + part.len() <= text.len() && #[trigger] text.subrange(
            at,
            at + part.len(),
        ) == part
}

/// The decimal digit for a number from 0 to 9.
pub open spec fn digit(value: int) -> char {
    if value == 0 {
        '0'
    } else if value == 1 {
        '1'
    } else if value == 2 {
        '2'
    } else if value == 3 {
        '3'
    } else if value == 4 {
        '4'
    } else if value == 5 {
        '5'
    } else if value == 6 {
        '6'
    } else if value == 7 {
        '7'
    } else if value == 8 {
        '8'
    } else {
        '9'
    }
}

/// A text stands in every text that is built around it.
pub proof fn lemma_occurs_between(before: Seq<char>, part: Seq<char>, after: Seq<char>)
    ensures
        occurs_in(part, before + part + after),
        occurs_in(part, before + part),
        occurs_in(part, part + after),
{
    let at = before.len() as int;
    assert((before + part + after).subrange(at, at + part.len()) =~= part);
    assert((before + part).subrange(at, at + part.len()) =~= part);
    assert((part + after).subrange(0, 0int + part.len()) =~= part);
}

/// What stands in a part of a text stands in the text.
pub proof fn lemma_occurs_in_part(part: Seq<char>, middle: Seq<char>, text: Seq<char>)
    requires
        occurs_in(part, middle),
        occurs_in(middle, text),
    ensures
        occurs_in(part, text),
{
    let inner = choose|at: int|
        0 <= at && at + part.len() <= middle.len() && #[trigger] middle.subrange(
            at,
            at + part.len(),
        ) == part;
    let outer = choose|at: int|
        0 <= at && at + middle.len() <= text.len() && #[trigger] text.subrange(
            at,
            at + middle.len(),
        ) == middle;
    let at = outer + inner;
    assert(text.subrange(at, at + part.len()) =~= text.subrange(
        outer,
        outer + middle.len(),
    ).subrange(inner, inner + part.len()));
}

} // verus!
