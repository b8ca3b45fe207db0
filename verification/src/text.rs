//! Case-insensitive matching of header names.

use vstd::prelude::*;

verus! {

/// The ASCII lower-case form of a character: `A` to `Z` map to `a` to `z`,
/// every other character maps to itself.
pub open spec fn lower(c: char) -> char {
    if 'A' <= c && c <= 'Z' {
        ((c as u8) + 32) as char
    } else {
        c
    }
}

/// A text with every character in its ASCII lower-case form.
pub open spec fn folded(s: Seq<char>) -> Seq<char> {
    s.map_values(|c: char| lower(c))
}

/// Whether two header names denote the same header: they are equal up to
/// ASCII case.
pub open spec fn same_name(a: Seq<char>, b: Seq<char>) -> bool {
    folded(a) == folded(b)
}

/// `str::eq_ignore_ascii_case` of the standard library. Its documentation
/// defines the result as the equality of the two ASCII lower-case forms,
/// where only `A` to `Z` change.
pub assume_specification[ str::eq_ignore_ascii_case ](a: &str, b: &str) -> (r: bool)
    ensures
        r == same_name(a@, b@),
;

/// Equality of string slices in the standard library: two slices are equal
/// exactly when they hold the same characters.
pub assume_specification[ <str as PartialEq>::eq ](a: &str, b: &str) -> (r: bool)
    ensures
        r == (a@ == b@),
;

/// Matching names is reflexive, symmetric and transitive.
pub proof fn lemma_same_name_equivalence(a: Seq<char>, b: Seq<char>, c: Seq<char>)
    ensures
        same_name(a, a),
        same_name(a, b) ==> same_name(b, a),
        same_name(a, b) && same_name(b, c) ==> same_name(a, c),
{
}

} // verus!
