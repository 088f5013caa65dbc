use prefab::config::load_config;
use prefab::errors::PrefabError;
use prefab::option::TemplateOption;
use prefab::option_set::OptionSet;

fn sample_options() -> OptionSet {
    let mut options = OptionSet::new();
    options.insert("a".to_string(), TemplateOption::FreeText { prompt: "Test FreeText".to_string(), value: Some("yo".to_string()), mandatory: false });
    options.insert("b".to_string(), TemplateOption::Boolean { prompt: "Test int".to_string(), value: Some(false), mandatory: false });
    options.insert("c".to_string(), TemplateOption::Regex { prompt: "Test Regex".to_string(), pattern: ".*".to_string(), value: Some("foo".to_string()), mandatory: false });
    options.insert("d".to_string(), TemplateOption::Choice { prompt: "Test choice".to_string(), options: vec!["a".to_string(), "b".to_string(), "C".to_string()], value: Some("a".to_string()), mandatory: false });
    options.insert("e".to_string(), TemplateOption::Integer { prompt: "Test int".to_string(), value: Some(1), mandatory: false });
    options.insert("f".to_string(), TemplateOption::Float { prompt: "Test float".to_string(), value: Some("1.0".to_string()), mandatory: false });
    options
}

#[test]
fn config_can_load_config() {
    let options = sample_options();
    let text = r#"
    a = "foo"
    b = true
    c = "xyz"
    d = "b"
    e = 2
    f = 2.5
    "#;

    let opts = load_config(text, options).unwrap();

    if let TemplateOption::FreeText { value, .. } = opts.get("a").unwrap() {
        assert_eq!(value.as_ref().unwrap(), "foo");
    } else {
        assert!(false, "a is not a free text field like expected!");
    }

    if let TemplateOption::Boolean { value, .. } = opts.get("b").unwrap() {
        assert_eq!(value.as_ref().unwrap(), &true);
    } else {
        assert!(false, "b is not a bool field like expected!");
    }

    if let TemplateOption::Regex { value, .. } = opts.get("c").unwrap() {
        assert_eq!(value.as_ref().unwrap(), "xyz");
    } else {
        assert!(false, "c is not a regex field like expected!");
    }

    if let TemplateOption::Choice { value, .. } = opts.get("d").unwrap() {
        assert_eq!(value.as_ref().unwrap(), "b");
    } else {
        assert!(false, "c is not a choice field like expected!");
    }

    if let TemplateOption::Integer { value, .. } = opts.get("e").unwrap() {
        assert_eq!(value.as_ref().unwrap(), &2);
    } else {
        assert!(false, "c is not a choice field like expected!");
    }

    if let TemplateOption::Float { value, .. } = opts.get("f").unwrap() {
        let parsed: f64 = value.as_ref().unwrap().parse().unwrap();
        assert_eq!(parsed, 2.5);
    } else {
        assert!(false, "c is not a choice field like expected!");
    }
}

#[test]
fn boolean_config_value_reads_as_true() {
    let mut options = OptionSet::new();
    options.insert("b".to_string(), TemplateOption::Boolean { prompt: "B".to_string(), value: None, mandatory: false });
    let opts = load_config("b = true", options).unwrap();
    assert_eq!(opts.get("b").unwrap().get_value(), Some("true".to_string()));
}

#[test]
fn string_config_value_for_integer_is_mismatch() {
    let mut options = OptionSet::new();
    options.insert("n".to_string(), TemplateOption::Integer { prompt: "N".to_string(), value: Some(3), mandatory: false });
    let r = load_config("n = \"three\"", options);
    assert_eq!(r.err(), Some(PrefabError::OptionTypeMismatch("n".to_string())));
}

#[test]
fn unknown_config_name_is_rejected() {
    let r = load_config("zzz = 1", sample_options());
    assert_eq!(r.err(), Some(PrefabError::UnknownOptionName("zzz".to_string())));
}

#[test]
fn non_scalar_config_value_is_rejected() {
    let r = load_config("a = [1, 2]", sample_options());
    assert_eq!(r.err(), Some(PrefabError::ConfigParseError("a".to_string())));
}

#[test]
fn malformed_config_text_is_rejected() {
    let r = load_config("a = = 1", sample_options());
    assert_eq!(r.err(), Some(PrefabError::ConfigParseError(String::new())));
}

#[test]
fn empty_config_keeps_options() {
    let opts = load_config("", sample_options()).unwrap();
    assert_eq!(opts.len(), 6);
    assert_eq!(opts.get("a").unwrap().get_value(), Some("yo".to_string()));
    assert_eq!(opts.get("e").unwrap().get_value(), Some("1".to_string()));
}
