use terrarium_control::timing::{is_time_between, parse_hhmm, str_eq};

#[test]
fn membership_inside_window() {
    assert!(is_time_between("12:00", "11:00", "13:00"));
}

#[test]
fn membership_before_window() {
    assert!(!is_time_between("10:59", "11:00", "13:00"));
}

#[test]
fn membership_after_window() {
    assert!(!is_time_between("13:01", "11:00", "13:00"));
}

#[test]
fn membership_includes_both_bounds() {
    assert!(is_time_between("11:00", "11:00", "13:00"));
    assert!(is_time_between("13:00", "11:00", "13:00"));
}

#[test]
fn membership_empty_window_is_its_bound() {
    assert!(is_time_between("09:30", "09:30", "09:30"));
    assert!(!is_time_between("09:31", "09:30", "09:30"));
}

#[test]
fn membership_inverted_window_is_empty() {
    assert!(!is_time_between("12:00", "13:00", "11:00"));
}

#[test]
fn parse_hhmm_reads_minutes() {
    assert_eq!(parse_hhmm("00:00"), Some(0));
    assert_eq!(parse_hhmm("07:30"), Some(450));
    assert_eq!(parse_hhmm("23:59"), Some(1439));
}

#[test]
fn parse_hhmm_rejects_out_of_range() {
    assert_eq!(parse_hhmm("24:00"), None);
    assert_eq!(parse_hhmm("12:60"), None);
    assert_eq!(parse_hhmm("99:99"), None);
}

#[test]
fn parse_hhmm_rejects_malformed() {
    assert_eq!(parse_hhmm(""), None);
    assert_eq!(parse_hhmm("1:30"), None);
    assert_eq!(parse_hhmm("12-30"), None);
    assert_eq!(parse_hhmm("12:3"), None);
    assert_eq!(parse_hhmm("12:345"), None);
    assert_eq!(parse_hhmm("ab:cd"), None);
}

#[test]
fn str_eq_compares_characters() {
    assert!(str_eq("12:00", "12:00"));
    assert!(!str_eq("12:00", "12:01"));
    assert!(!str_eq("12:00", "12:000"));
    assert!(str_eq("", ""));
}
