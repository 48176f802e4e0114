//! The identifier kind by which binary records are matched to pure records.
use vstd::prelude::*;
use crate::text::{lower_of, lowercase, str_equals};

verus! {

/// Which identifier of a substance is used to match records.
#[derive(Clone, Copy, Debug, PartialEq, Eq, Structural)]
pub enum IdentifierKind {
    Name,
    Cas,
    IupacName,
    Formula,
    Inchi,
    Smiles,
}

/// The identifier kind that an already lower-cased word names.
pub open spec fn identifier_of_lowercase(word: Seq<char>) -> Option<IdentifierKind> {
    if word == "name"@ {
        Some(IdentifierKind::Name)
    } else if word == "cas"@ {
        Some(IdentifierKind::Cas)
    } else if word == "iupacname"@ {
        Some(IdentifierKind::IupacName)
    } else if word == "formula"@ {
        Some(IdentifierKind::Formula)
    } else if word == "inchi"@ {
        Some(IdentifierKind::Inchi)
    } else if word == "smiles"@ {
        Some(IdentifierKind::Smiles)
    } else {
        None
    }
}

/// The identifier kind that a word names, compared without regard to case.
pub open spec fn identifier_of_word(word: Seq<char>) -> Option<IdentifierKind> {
    identifier_of_lowercase(lower_of(word))
}

/// Reads an already lower-cased identifier word.
pub fn identifier_from_lowercase(word: &str) -> (r: Option<IdentifierKind>)
    ensures
        r == identifier_of_lowercase(word@),
{
    if str_equals(word, "name") {
        Some(IdentifierKind::Name)
    } else if str_equals(word, "cas") {
        Some(IdentifierKind::Cas)
    } else if str_equals(word, "iupacname") {
        Some(IdentifierKind::IupacName)
    } else if str_equals(word, "formula") {
        Some(IdentifierKind::Formula)
    } else if str_equals(word, "inchi") {
        Some(IdentifierKind::Inchi)
    } else if str_equals(word, "smiles") {
        Some(IdentifierKind::Smiles)
    } else {
        None
    }
}

/// Reads an identifier word (`name`, `cas`, `iupacname`, `formula`, `inchi`
/// or `smiles`, in any case): `None` for any other word.
pub fn identifier_from_word(word: &str) -> (r: Option<IdentifierKind>)
    ensures
        r == identifier_of_word(word@),
{
    let lower = lowercase(word);
    identifier_from_lowercase(lower.as_str())
}

} // verus!
