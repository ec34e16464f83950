use cerke_bot::coords::{parse_coord, Column, Row};

fn pc(s: &str) -> Option<(Row, Column)> {
    let v: Vec<char> = s.chars().collect();
    parse_coord(&v)
}

#[test]
fn all_valid_combinations() {
    let cols = [
        ("C", Column::C),
        ("K", Column::K),
        ("L", Column::L),
        ("M", Column::M),
        ("N", Column::N),
        ("P", Column::P),
        ("T", Column::T),
        ("X", Column::X),
        ("Z", Column::Z),
    ];
    let rows = [
        ("A", Row::A),
        ("AI", Row::AI),
        ("AU", Row::AU),
        ("E", Row::E),
        ("I", Row::I),
        ("O", Row::O),
        ("U", Row::U),
        ("Y", Row::Y),
        ("IA", Row::IA),
    ];
    for (cs, c) in cols.iter() {
        for (rs, r) in rows.iter() {
            let token = format!("{}{}", cs, rs);
            assert_eq!(pc(&token), Some((*r, *c)), "token {}", token);
        }
    }
}

#[test]
fn empty_and_long_tokens_never_match() {
    assert_eq!(pc(""), None);
    assert_eq!(pc("CAIU"), None);
    assert_eq!(pc("XIAA"), None);
    assert_eq!(pc("KAUAU"), None);
}

#[test]
fn adversarial_tokens_never_match() {
    assert_eq!(pc("Q"), None);
    assert_eq!(pc("QA"), None);
    assert_eq!(pc("C"), None);
    assert_eq!(pc("CB"), None);
    assert_eq!(pc("ca"), None);
    assert_eq!(pc("ZZ"), None);
    assert_eq!(pc("AIA"), None);
    assert_eq!(pc("CA "), None);
    assert_eq!(pc(" CA"), None);
    assert_eq!(pc("ÉA"), None);
    assert_eq!(pc("Cé"), None);
}

#[test]
fn parsing_is_all_or_nothing() {
    // a valid column with an invalid remainder yields nothing at all
    assert_eq!(pc("CAA"), None);
    assert_eq!(pc("ZI "), None);
    // a valid row with an invalid first character yields nothing at all
    assert_eq!(pc("BA"), None);
}
