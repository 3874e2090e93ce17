use mado::exit::Outcome;

#[test]
fn outcome_codes_are_zenity_codes() {
    assert_eq!(Outcome::Confirmed.code(), 0);
    assert_eq!(Outcome::Cancel.code(), 1);
    assert_eq!(Outcome::Timeout.code(), 5);
}

#[test]
fn outcome_codes_are_distinct() {
    let all = [Outcome::Confirmed, Outcome::Cancel, Outcome::Timeout];
    for a in all {
        for b in all {
            assert_eq!(a.code() == b.code(), a == b);
        }
    }
}
