use bf_interface::nesting::is_nesting_correct;

fn check(code: &str) -> bool {
    is_nesting_correct(&code.as_bytes().to_vec())
}

#[test]
fn empty_code_is_well_nested() {
    assert!(check(""));
}

#[test]
fn balanced_codes_are_well_nested() {
    assert!(check("[]"));
    assert!(check("[->+<]"));
    assert!(check("[[]]"));
    assert!(check("+[>[-]<]."));
    assert!(check("no brackets at all"));
}

#[test]
fn unbalanced_codes_are_rejected() {
    assert!(!check("["));
    assert!(!check("]"));
    assert!(!check("]["));
    assert!(!check("[->+<"));
    assert!(!check("[[]"));
    assert!(!check("[]]"));
}
