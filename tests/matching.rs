use feos_c::matching::{match_binary_records, MatchError};

fn ids(names: &[Option<&str>]) -> Vec<Option<String>> {
    names.iter().map(|n| n.map(String::from)).collect()
}

fn pair(a: Option<&str>, b: Option<&str>) -> (Option<String>, Option<String>) {
    (a.map(String::from), b.map(String::from))
}

#[test]
fn no_binary_records_always_match() {
    assert_eq!(match_binary_records(&ids(&[None, Some("water")]), &vec![]), Ok(()));
    assert_eq!(match_binary_records(&vec![], &vec![]), Ok(()));
}

#[test]
fn matched_binary_records() {
    let pure = ids(&[Some("methane"), Some("ethane")]);
    let binary = vec![pair(Some("ethane"), Some("methane")), pair(Some("methane"), Some("methane"))];
    assert_eq!(match_binary_records(&pure, &binary), Ok(()));
}

#[test]
fn unmatched_binary_record_fails() {
    let pure = ids(&[Some("methane"), Some("ethane")]);
    let binary = vec![pair(Some("methane"), Some("ethane")), pair(Some("methane"), Some("propane"))];
    assert_eq!(
        match_binary_records(&pure, &binary),
        Err(MatchError::UnmatchedBinary { index: 1 })
    );
    let binary = vec![pair(None, Some("ethane"))];
    assert_eq!(
        match_binary_records(&pure, &binary),
        Err(MatchError::UnmatchedBinary { index: 0 })
    );
}

#[test]
fn pure_record_without_identifier_fails() {
    let pure = ids(&[Some("methane"), None]);
    let binary = vec![pair(Some("methane"), Some("methane"))];
    assert_eq!(
        match_binary_records(&pure, &binary),
        Err(MatchError::MissingPureIdentifier { index: 1 })
    );
}
