//! Matching binary-interaction records to pure-substance records by the
//! identifier of the chosen kind.
use vstd::prelude::*;
use crate::text::str_equals;

verus! {

/// Why binary records cannot be matched to the pure records.
#[derive(Clone, Copy, Debug, PartialEq, Eq, Structural)]
pub enum MatchError {
    /// The pure record at this index has no identifier of the chosen kind.
    MissingPureIdentifier { index: usize },
    /// The binary record at this index names a species that no pure record has.
    UnmatchedBinary { index: usize },
}

/// Whether a pure record's identifier is present and equal to `id`.
pub open spec fn carries(entry: Option<String>, id: Seq<char>) -> bool {
    entry matches Some(p) && p@ == id
}

/// Whether some pure record carries the identifier `id`.
pub open spec fn pure_has(pure: Seq<Option<String>>, id: Seq<char>) -> bool {
    exists|i: int| 0 <= i < pure.len() && carries(#[trigger] pure[i], id)
}

/// Whether an identifier of a binary record is present and names a pure record.
pub open spec fn names_pure(pure: Seq<Option<String>>, id: Option<String>) -> bool {
    id matches Some(s) && pure_has(pure, s@)
}

/// Whether a binary record names two species among the pure records.
pub open spec fn binary_matched(pure: Seq<Option<String>>, pair: (Option<String>, Option<String>)) -> bool {
    names_pure(pure, pair.0) && names_pure(pure, pair.1)
}

/// Whether a set of binary records can be matched: there are none, or every
/// pure record has an identifier and every binary record names two of them.
pub open spec fn records_matched(
    pure: Seq<Option<String>>,
    binary: Seq<(Option<String>, Option<String>)>,
) -> bool {
    binary.len() == 0 || (
        (forall|i: int| 0 <= i < pure.len() ==> (#[trigger] pure[i]) is Some)
        && (forall|j: int| 0 <= j < binary.len() ==> binary_matched(pure, #[trigger] binary[j]))
    )
}

/// Looks for the identifier `id` among the pure records.
fn find_pure(pure: &Vec<Option<String>>, id: &str) -> (r: bool)
    ensures
        r == pure_has(pure@, id@),
{
    let mut i: usize = 0;
    while i < pure.len()
        invariant
            i <= pure@.len(),
            forall|k: int| 0 <= k < i ==> !carries(#[trigger] pure@[k], id@),
        decreases pure.len() - i,
    {
        match &pure[i] {
            Some(p) => {
                if str_equals(p.as_str(), id) {
                    assert(carries(pure@[i as int], id@));
                    return true;
                }
            },
            None => {},
        }
        i = i + 1;
    }
    false
}

/// Whether an identifier of a binary record names a pure record.
fn find_named(pure: &Vec<Option<String>>, id: &Option<String>) -> (r: bool)
    ensures
        r == names_pure(pure@, *id),
{
    match id {
        Some(s) => find_pure(pure, s.as_str()),
        None => false,
    }
}

/// Checks that binary records, given by the identifiers of their two species,
/// can be matched to pure records, given by their identifiers. An error
/// points at a record that fails.
pub fn match_binary_records(
    pure: &Vec<Option<String>>,
    binary: &Vec<(Option<String>, Option<String>)>,
) -> (r: Result<(), MatchError>)
    ensures
        r is Ok <==> records_matched(pure@, binary@),
        r matches Err(MatchError::MissingPureIdentifier { index }) ==> index < pure@.len()
            && pure@[index as int] is None,
        r matches Err(MatchError::UnmatchedBinary { index }) ==> index < binary@.len()
            && !binary_matched(pure@, binary@[index as int]),
{
    if binary.len() == 0 {
        return Ok(());
    }
    let mut i: usize = 0;
    while i < pure.len()
        invariant
            i <= pure@.len(),
            binary@.len() > 0,
            forall|k: int| 0 <= k < i ==> (#[trigger] pure@[k]) is Some,
        decreases pure.len() - i,
    {
        match &pure[i] {
            None => {
                assert(pure@[i as int] is None);
                return Err(MatchError::MissingPureIdentifier { index: i });
            },
            Some(_) => {},
        }
        i = i + 1;
    }
    let mut j: usize = 0;
    while j < binary.len()
        invariant
            j <= binary@.len(),
            binary@.len() > 0,
            forall|k: int| 0 <= k < pure@.len() ==> (#[trigger] pure@[k]) is Some,
            forall|k: int| 0 <= k < j ==> binary_matched(pure@, #[trigger] binary@[k]),
        decreases binary.len() - j,
    {
        let pair = &binary[j];
        if !(find_named(pure, &pair.0) && find_named(pure, &pair.1)) {
            assert(!binary_matched(pure@, binary@[j as int]));
            return Err(MatchError::UnmatchedBinary { index: j });
        }
        j = j + 1;
    }
    Ok(())
}

} // verus!
