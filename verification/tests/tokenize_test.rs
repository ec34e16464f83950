use cerke_bot::report::CommandFailure;
use cerke_bot::tokenize::{chars_of, extract, tokenize};

fn toks(s: &str) -> Vec<String> {
    let v = chars_of(s);
    tokenize(&v).iter().map(|t| t.iter().collect()).collect()
}

#[test]
fn splits_on_whitespace() {
    assert_eq!(toks("~mov CA CU"), vec!["~mov", "CA", "CU"]);
    assert_eq!(toks("  ~mov   CA\tCU  "), vec!["~mov", "CA", "CU"]);
    assert_eq!(toks(""), Vec::<String>::new());
    assert_eq!(toks("   \t\n  "), Vec::<String>::new());
    assert_eq!(toks("one"), vec!["one"]);
    assert_eq!(toks("a\u{3000}b\u{A0}c"), vec!["a", "b", "c"]);
}

#[test]
fn extract_succeeds_iff_enough_tokens() {
    // token count must be at least the expected count plus the command name
    assert!(extract("~mov CA CU", 2).is_ok());
    assert!(extract("~mov CA CU extra", 2).is_ok());
    assert!(extract("~mov CA", 2).is_err());
    assert!(extract("~show", 0).is_ok());
    assert!(extract("~capture ZA", 1).is_ok());
    assert!(extract("~capture", 1).is_err());
}

#[test]
fn extract_returns_the_whole_token_list_intact() {
    let got = extract("~mov CA CU", 2).unwrap();
    let texts: Vec<String> = got.iter().map(|t| t.iter().collect()).collect();
    assert_eq!(texts, vec!["~mov", "CA", "CU"]);
}

#[test]
fn extract_failure_reports_expected_and_actual_counts() {
    match extract("~mov C", 2) {
        Err(CommandFailure::ArgumentCount { expected, actual }) => {
            assert_eq!(expected, 2);
            assert_eq!(actual, 1);
        }
        other => panic!("unexpected: {:?}", other),
    }
    match extract("~stepdown", 1) {
        Err(CommandFailure::ArgumentCount { expected, actual }) => {
            assert_eq!(expected, 1);
            assert_eq!(actual, 0);
        }
        other => panic!("unexpected: {:?}", other),
    }
}

#[test]
fn arg_count_report_text() {
    let f = extract("~mov C", 2).unwrap_err();
    assert_eq!(f.report(), "Not enough arguments. Expected: 2, got: 1");
}
