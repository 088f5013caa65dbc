use prefab::float_literal::is_float_literal;
use prefab::option::{read_folded_bool, TemplateOption};
use prefab::pattern::pattern_accepts;

fn free(value: Option<&str>) -> TemplateOption {
    TemplateOption::FreeText { prompt: "P".to_string(), value: value.map(|v| v.to_string()), mandatory: true }
}

fn integer(value: Option<i64>) -> TemplateOption {
    TemplateOption::Integer { prompt: "P".to_string(), value, mandatory: false }
}

fn float(value: Option<&str>) -> TemplateOption {
    TemplateOption::Float { prompt: "P".to_string(), value: value.map(|v| v.to_string()), mandatory: false }
}

fn boolean(value: Option<bool>) -> TemplateOption {
    TemplateOption::Boolean { prompt: "P".to_string(), value, mandatory: false }
}

fn choice(value: Option<&str>) -> TemplateOption {
    TemplateOption::Choice {
        prompt: "P".to_string(),
        options: vec!["a".to_string(), "b".to_string(), "c".to_string()],
        value: value.map(|v| v.to_string()),
        mandatory: false,
    }
}

fn regex(pattern: &str, value: Option<&str>) -> TemplateOption {
    TemplateOption::Regex { prompt: "P".to_string(), pattern: pattern.to_string(), value: value.map(|v| v.to_string()), mandatory: false }
}

#[test]
fn empty_text_clears_every_kind() {
    for o in [free(Some("x")), integer(Some(4)), float(Some("2.5")), boolean(Some(true)), choice(Some("a")), regex(".*", Some("q"))] {
        let cleared = o.set_value(String::new());
        assert!(cleared.is_empty());
        assert_eq!(cleared.get_value(), None);
    }
}

#[test]
fn text_kinds_store_text_verbatim() {
    assert_eq!(free(None).set_value(" hi ".to_string()).get_value(), Some(" hi ".to_string()));
    assert_eq!(choice(None).set_value("zzz".to_string()).get_value(), Some("zzz".to_string()));
    assert_eq!(regex("a", None).set_value("b".to_string()).get_value(), Some("b".to_string()));
}

#[test]
fn set_value_keeps_prompt_and_mandatory() {
    let o = free(None).set_value("v".to_string());
    assert_eq!(o.get_prompt(), "P");
    assert!(o.is_mandatory());
}

#[test]
fn boolean_reads_trimmed_lowercase_true() {
    assert_eq!(boolean(None).set_value("  TRUE ".to_string()).get_value(), Some("true".to_string()));
    assert_eq!(boolean(None).set_value("yes".to_string()).get_value(), Some("false".to_string()));
    assert_eq!(boolean(Some(true)).set_value("   ".to_string()).get_value(), None);
}

#[test]
fn integer_parse_failure_keeps_prior_value() {
    assert_eq!(integer(Some(7)).set_value("12".to_string()).get_value(), Some("12".to_string()));
    assert_eq!(integer(Some(7)).set_value("-3".to_string()).get_value(), Some("-3".to_string()));
    assert_eq!(integer(Some(7)).set_value("1x".to_string()).get_value(), Some("7".to_string()));
    assert_eq!(integer(None).set_value("abc".to_string()).get_value(), None);
}

#[test]
fn float_trailing_point_reads_as_zero() {
    assert_eq!(float(None).set_value("3.".to_string()).get_value(), Some("3.0".to_string()));
    assert_eq!(float(None).set_value("2.5".to_string()).get_value(), Some("2.5".to_string()));
    assert_eq!(float(Some("1.5")).set_value("x".to_string()).get_value(), Some("1.5".to_string()));
    assert_eq!(float(Some("1.5")).set_value(".".to_string()).get_value(), Some(".0".to_string()));
}

#[test]
fn get_value_projects_every_kind() {
    assert_eq!(boolean(Some(false)).get_value(), Some("false".to_string()));
    assert_eq!(integer(Some(-42)).get_value(), Some("-42".to_string()));
    assert_eq!(integer(None).get_value(), None);
}

#[test]
fn kind_specific_getters() {
    assert_eq!(regex("a+", None).get_pattern(), Some("a+".to_string()));
    assert_eq!(free(None).get_pattern(), None);
    assert_eq!(choice(None).get_choice_options(), Some(vec!["a".to_string(), "b".to_string(), "c".to_string()]));
    assert_eq!(integer(None).get_choice_options(), None);
}

#[test]
fn regex_validation() {
    assert!(!regex("abc", Some("foo")).validate());
    assert!(regex(".*", Some("xyz")).validate());
    assert!(regex("abc", None).validate());
    assert!(!regex("(", Some("x")).validate());
}

#[test]
fn choice_validation() {
    assert!(!choice(Some("d")).validate());
    assert!(choice(Some("b")).validate());
    assert!(choice(None).validate());
    assert!(free(Some("anything")).validate());
}

#[test]
fn pattern_accepts_reports_bad_patterns() {
    assert_eq!(pattern_accepts("^a+$", "aaa"), Some(true));
    assert_eq!(pattern_accepts("^a+$", "ab"), Some(false));
    assert_eq!(pattern_accepts("(", "x"), None);
}

#[test]
fn float_literals_follow_std_grammar() {
    for ok in ["1", "-1", "+1.5", "3.", ".5", "1e10", "1E-3", "2.5e+7", "inf", "-Infinity", "NaN"] {
        assert!(is_float_literal(ok), "{}", ok);
        assert!(ok.parse::<f64>().is_ok(), "{}", ok);
    }
    for bad in ["", "-", ".", "1..2", "e5", "1e", "1e+", "abc", "1.2.3", "--1", "in"] {
        assert!(!is_float_literal(bad), "{}", bad);
        assert!(bad.parse::<f64>().is_err(), "{}", bad);
    }
}

#[test]
fn float_text_reads_with_a_completed_point() {
    let o = float(Some("3."));
    assert_eq!(o.get_value(), Some("3.0".to_string()));
    let again = o.clone().set_value(o.get_value().unwrap());
    assert_eq!(again.get_value(), Some("3.0".to_string()));
}

#[test]
fn folded_text_reads_as_boolean() {
    assert_eq!(read_folded_bool("true"), Some(true));
    assert_eq!(read_folded_bool("false"), Some(false));
    assert_eq!(read_folded_bool("True"), Some(false));
    assert_eq!(read_folded_bool(""), None);
}

#[test]
fn boolean_text_is_trimmed_of_unicode_white_space() {
    assert_eq!(boolean(None).set_value("\u{3000}\tTrue\u{2028} ".to_string()).get_value(), Some("true".to_string()));
    assert_eq!(boolean(Some(false)).set_value("\u{a0}\u{85}".to_string()).get_value(), None);
    assert_eq!(boolean(None).set_value(" t rue ".to_string()).get_value(), Some("false".to_string()));
}
