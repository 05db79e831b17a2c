use sequisat::tle::{classification_name, full_year, parse_decimal};

fn chars(s: &str) -> Vec<char> {
    s.chars().collect()
}

#[test]
fn parse_decimal_reads_digit_runs() {
    assert_eq!(parse_decimal(&chars("25544")), Some(25544));
    assert_eq!(parse_decimal(&chars("0")), Some(0));
    assert_eq!(parse_decimal(&chars("007")), Some(7));
    assert_eq!(parse_decimal(&chars("4294967295")), Some(u32::MAX));
}

#[test]
fn parse_decimal_rejects_bad_text() {
    assert_eq!(parse_decimal(&chars("")), None);
    assert_eq!(parse_decimal(&chars("25U44")), None);
    assert_eq!(parse_decimal(&chars("-3")), None);
    assert_eq!(parse_decimal(&chars("4294967296")), None);
    assert_eq!(parse_decimal(&chars("99999999999")), None);
}

#[test]
fn two_digit_years_window_at_57() {
    assert_eq!(full_year(0), 2000);
    assert_eq!(full_year(56), 2056);
    assert_eq!(full_year(57), 1957);
    assert_eq!(full_year(99), 1999);
}

#[test]
fn classification_letters() {
    assert_eq!(classification_name('U'), "Unclassified");
    assert_eq!(classification_name('C'), "Classified");
    assert_eq!(classification_name('A'), "Secret");
    assert_eq!(classification_name('X'), "Unknown");
    assert_eq!(classification_name(' '), "Unknown");
}

#[test]
fn drag_term_notation_positive() {
    let r = sequisat::tle::drag_term_text(&chars("36258-4"));
    let s: String = r.iter().collect();
    assert_eq!(s, "0.36258e-4");
    assert_eq!(s.parse::<f64>().unwrap(), 0.36258e-4);
}

#[test]
fn drag_term_notation_negative() {
    let r = sequisat::tle::drag_term_text(&chars("-11606-4"));
    let s: String = r.iter().collect();
    assert_eq!(s, "-0.11606e-4");
    assert_eq!(s.parse::<f64>().unwrap(), -0.11606e-4);
}

#[test]
fn drag_term_notation_positive_exponent() {
    let r = sequisat::tle::drag_term_text(&chars("12345+5"));
    let s: String = r.iter().collect();
    assert_eq!(s, "0.12345e+5");
}
