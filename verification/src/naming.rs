//! Identifiers of the leaves of a family: the stem and one capital letter.

use crate::error::GenError;
use crate::types::{stem, ContractType};
use vstd::prelude::*;

verus! {

/// How many leaves one family can hold: one per capital letter.
pub const MAX_LEAVES: u8 = 26;

/// The capital letter at a position of the alphabet, counted from zero.
pub open spec fn letter(ordinal: int) -> char {
    ('A' as int + ordinal) as char
}

/// The identifier of the leaf at a position in its family.
pub open spec fn leaf_name(t: ContractType, ordinal: int) -> Seq<char> {
    stem(t).push(letter(ordinal))
}

/// `String::push` of std appends one character to the end of the string and
/// leaves the rest as it was.
pub assume_specification[ String::push ](s: &mut String, ch: char)
    ensures
        final(s)@ == old(s)@.push(ch),
;

/// The capital letter for a position, where there is one.
pub fn leaf_letter(ordinal: u8) -> (r: Result<char, GenError>)
    ensures
        ordinal < MAX_LEAVES ==> r == Ok::<char, GenError>(letter(ordinal as int)),
        ordinal >= MAX_LEAVES ==> r == Err::<char, GenError>(GenError::OrdinalOutOfRange),
{
    if ordinal < MAX_LEAVES {
        Ok((65u8 + ordinal) as char)
    } else {
        Err(GenError::OrdinalOutOfRange)
    }
}

/// The identifier of the leaf at a position in its family: the stem followed
/// by the letter of that position. Past the last letter there is no name.
pub fn leaf_name_of(contract_type: &ContractType, ordinal: u8) -> (r: Result<String, GenError>)
    ensures
        ordinal < MAX_LEAVES <==> r is Ok,
        r matches Ok(s) ==> s@ == leaf_name(*contract_type, ordinal as int),
        r matches Err(e) ==> e == GenError::OrdinalOutOfRange,
{
    match leaf_letter(ordinal) {
        Ok(c) => {
            let mut s = contract_type.name();
            s.push(c);
            Ok(s)
        },
        Err(e) => Err(e),
    }
}

} // verus!
