use prefab::config::load_config;
use prefab::errors::PrefabError;
use prefab::option::TemplateOption;
use prefab::option_set::OptionSet;
use prefab::template::{context_values, ApplyAction, ApplyStep, EntryKind, Manifest, StaticEntry, Template};

fn manifest(options: OptionSet, before_hook: Option<&str>, after_hook: Option<&str>) -> Manifest {
    Manifest {
        title: None,
        author: None,
        description: None,
        before_hook: before_hook.map(|h| h.to_string()),
        after_hook: after_hook.map(|h| h.to_string()),
        options,
    }
}

fn free(prompt: &str, value: &str) -> TemplateOption {
    TemplateOption::FreeText { prompt: prompt.to_string(), value: Some(value.to_string()), mandatory: false }
}

fn template_with(files: &[(&str, &str)], options: OptionSet, before: Option<&str>, after: Option<&str>) -> Template {
    let mut tera = tera::Tera::default();
    for (name, content) in files {
        tera.add_raw_template(name, content).unwrap();
    }
    Template::new(tera, manifest(options, before, after), "/templates/sample".to_string())
}

/// Runs every step, collecting the actions.
fn run_all(template: &mut Template) -> Result<Vec<ApplyAction>, PrefabError> {
    let mut step = ApplyStep::Validate;
    let mut actions = vec![];
    loop {
        let (action, next) = template.apply_step(step)?;
        if let ApplyAction::Done = action {
            return Ok(actions);
        }
        actions.push(action);
        step = next;
    }
}

fn written(actions: &[ApplyAction]) -> Vec<(String, String)> {
    let mut files: Vec<(String, String)> = actions
        .iter()
        .filter_map(|a| match a {
            ApplyAction::WriteFile { path, content } => Some((path.clone(), content.clone())),
            _ => None,
        })
        .collect();
    files.sort();
    files
}

#[test]
fn can_generate_template() {
    let mut options = OptionSet::new();
    options.insert("a".to_string(), free("Test FreeText", "yo"));
    let mut template = template_with(
        &[("myfile.txt", "\n    {{a}}\n    "), ("subdir/myfile.txt", "\n    {{a}}\n    ")],
        options,
        None,
        None,
    );
    let files = written(&run_all(&mut template).unwrap());
    assert_eq!(files.len(), 2);
    assert_eq!(files[0].0, "myfile.txt");
    assert_eq!(files[0].1.trim(), "yo");
    assert_eq!(files[1].0, "subdir/myfile.txt");
    assert_eq!(files[1].1.trim(), "yo");
}

#[test]
fn can_replace_template_variables_in_path() {
    let mut options = OptionSet::new();
    options.insert("a".to_string(), free("Test FreeText", "yo"));
    options.insert("b".to_string(), free("Test FreeText", "subdir"));
    let mut template = template_with(
        &[("myfile.txt", "\n    {{a}}\n    "), ("{{ b }}/myfile.txt", "\n    {{a}}\n    ")],
        options,
        None,
        None,
    );
    let files = written(&run_all(&mut template).unwrap());
    assert_eq!(files[0].0, "myfile.txt");
    assert_eq!(files[0].1.trim(), "yo");
    assert_eq!(files[1].0, "subdir/myfile.txt");
    assert_eq!(files[1].1.trim(), "yo");
    assert_eq!(template.render_file_path("{{ b }}").unwrap(), "subdir");
    assert_eq!(template.render_file_path("myfile-static.txt").unwrap(), "myfile-static.txt");
}

#[test]
fn path_and_content_render_to_the_value() {
    let mut options = OptionSet::new();
    options.insert("name".to_string(), free("Name", "yo"));
    let mut template = template_with(&[("{{ name }}", "{{ name }}")], options, None, None);
    let files = written(&run_all(&mut template).unwrap());
    assert_eq!(files, vec![("yo".to_string(), "yo".to_string())]);
}

#[test]
fn static_directory_name_renders_while_static_content_is_left_alone() {
    let mut options = OptionSet::new();
    options.insert("b".to_string(), free("B", "subdir"));
    let mut template = template_with(&[], options, None, None);
    assert_eq!(template.render_file_path("{{ b }}").unwrap(), "subdir");
    match template.static_entry("{{ b }}", EntryKind::Directory).unwrap() {
        StaticEntry::CopyDirectory { name } => assert_eq!(name, "subdir"),
        _ => panic!("a directory is copied as a directory"),
    }
    match template.static_entry("myfile-static.txt", EntryKind::File).unwrap() {
        StaticEntry::CopyFile { name } => assert_eq!(name, "myfile-static.txt"),
        _ => panic!("a file is copied as a file"),
    }
    assert!(matches!(template.static_entry("fifo", EntryKind::Other).unwrap(), StaticEntry::Skip));
    let actions = run_all(&mut template).unwrap();
    assert!(actions.iter().any(|a| matches!(a, ApplyAction::CopyStatic)));
    assert!(written(&actions).is_empty());
}

#[test]
fn can_generate_static_files_from_template() {
    let mut options = OptionSet::new();
    options.insert("a".to_string(), free("Test FreeText", "yo"));
    let mut template = template_with(&[], options, None, None);
    assert_eq!(template.render_file_path("myfile.txt").unwrap(), "myfile.txt");
    assert_eq!(template.render_file_path("subdir").unwrap(), "subdir");
    let actions = run_all(&mut template).unwrap();
    assert_eq!(actions.iter().filter(|a| matches!(a, ApplyAction::CopyStatic)).count(), 1);
}

#[test]
fn unknown_variable_is_a_render_error() {
    let mut template = template_with(&[("f.txt", "{{ missing }}")], OptionSet::new(), None, None);
    assert_eq!(run_all(&mut template).err(), Some(PrefabError::RenderError("f.txt".to_string())));
    assert_eq!(
        template.render_file_path("{{ missing }}").err(),
        Some(PrefabError::RenderError("{{ missing }}".to_string()))
    );
}

#[test]
fn can_run_before_hook() {
    let mut template = template_with(&[("x.txt", "x")], OptionSet::new(), Some("sh $PREFAB_TEMPLATE/before.sh"), None);
    let actions = run_all(&mut template).unwrap();
    match &actions[1] {
        ApplyAction::RunHook { command, template_path } => {
            assert_eq!(command, "sh $PREFAB_TEMPLATE/before.sh");
            assert_eq!(template_path, "/templates/sample");
        }
        _ => panic!("the before hook does not come right after validation"),
    }
    assert!(matches!(actions[2], ApplyAction::WriteFile { .. }));
}

#[test]
fn can_run_after_hook() {
    let mut template = template_with(&[("x.txt", "x")], OptionSet::new(), None, Some("sh $PREFAB_TEMPLATE/after.sh"));
    let actions = run_all(&mut template).unwrap();
    match actions.last().unwrap() {
        ApplyAction::RunHook { command, template_path } => {
            assert_eq!(command, "sh $PREFAB_TEMPLATE/after.sh");
            assert_eq!(template_path, "/templates/sample");
        }
        _ => panic!("the after hook is not the last action"),
    }
    assert!(matches!(actions[actions.len() - 2], ApplyAction::CopyStatic));
}

#[test]
fn can_return_error_if_regex_doesnt_match() {
    let mut options = OptionSet::new();
    options.insert(
        "c".to_string(),
        TemplateOption::Regex { prompt: "Test Regex".to_string(), pattern: "abc".to_string(), value: Some("foo".to_string()), mandatory: false },
    );
    let mut template = template_with(&[("x.txt", "x")], options, Some("echo hi"), None);
    let result = run_all(&mut template);
    assert!(result.is_err());
    assert_eq!(result.err(), Some(PrefabError::ValidationError("c".to_string())));
}

#[test]
fn matching_regex_applies() {
    let mut options = OptionSet::new();
    options.insert(
        "c".to_string(),
        TemplateOption::Regex { prompt: "Test Regex".to_string(), pattern: ".*".to_string(), value: Some("xyz".to_string()), mandatory: false },
    );
    let mut template = template_with(&[("x.txt", "{{ c }}")], options, None, None);
    let files = written(&run_all(&mut template).unwrap());
    assert_eq!(files, vec![("x.txt".to_string(), "xyz".to_string())]);
}

#[test]
fn can_return_error_if_choice_doesnt_match() {
    let mut options = OptionSet::new();
    options.insert(
        "d".to_string(),
        TemplateOption::Choice {
            prompt: "Test choice".to_string(),
            options: vec!["a".to_string(), "b".to_string(), "c".to_string()],
            value: Some("d".to_string()),
            mandatory: false,
        },
    );
    let mut template = template_with(&[], options, None, None);
    let result = template.apply_step(ApplyStep::Validate);
    assert!(result.is_err());
    assert_eq!(result.err(), Some(PrefabError::ValidationError("d".to_string())));
}

#[test]
fn templates_can_load_config() {
    let mut options = OptionSet::new();
    options.insert("a".to_string(), free("Test FreeText", "yo"));
    options.insert("b".to_string(), TemplateOption::Boolean { prompt: "Test Boolean".to_string(), value: Some(true), mandatory: false });
    options.insert("c".to_string(), TemplateOption::Regex { prompt: "Test Regex".to_string(), pattern: "*".to_string(), value: Some("foo".to_string()), mandatory: false });
    options.insert("d".to_string(), TemplateOption::Choice { prompt: "Test choice".to_string(), options: vec!["a".to_string(), "b".to_string(), "c".to_string()], value: Some("a".to_string()), mandatory: false });
    options.insert("e".to_string(), TemplateOption::Integer { prompt: "Test int".to_string(), value: Some(1), mandatory: false });
    options.insert("f".to_string(), TemplateOption::Float { prompt: "Test floar".to_string(), value: Some("1.0".to_string()), mandatory: false });
    let mut template = template_with(&[("myfile.txt", "")], options, None, None);

    let text = r#"
    a = "foo"
    b = true
    c = "xyz"
    d = "b"
    e = 2
    f = 2.5
    "#;
    let merged = load_config(text, template.get_options()).unwrap();
    template.set_options(merged);
    let opts = template.get_options();

    if let TemplateOption::FreeText { value, .. } = opts.get("a").unwrap() {
        assert_eq!(value.as_ref().unwrap(), "foo");
    } else {
        assert!(false, "a is not a free text field like expected!");
    }
    if let TemplateOption::Boolean { value, .. } = opts.get("b").unwrap() {
        assert_eq!(value.as_ref().unwrap(), &true);
    } else {
        assert!(false, "b is not a bool field like expected!");
    }
    if let TemplateOption::Regex { value, .. } = opts.get("c").unwrap() {
        assert_eq!(value.as_ref().unwrap(), "xyz");
    } else {
        assert!(false, "c is not a regex field like expected!");
    }
    if let TemplateOption::Choice { value, .. } = opts.get("d").unwrap() {
        assert_eq!(value.as_ref().unwrap(), "b");
    } else {
        assert!(false, "c is not a choice field like expected!");
    }
    if let TemplateOption::Integer { value, .. } = opts.get("e").unwrap() {
        assert_eq!(value.as_ref().unwrap(), &2);
    } else {
        assert!(false, "c is not a choice field like expected!");
    }
    if let TemplateOption::Float { value, .. } = opts.get("f").unwrap() {
        assert_eq!(value.as_ref().unwrap().parse::<f64>().unwrap(), 2.5);
    } else {
        assert!(false, "c is not a choice field like expected!");
    }
}

#[test]
fn context_holds_set_values_only() {
    let mut options = OptionSet::new();
    options.insert("a".to_string(), free("A", "yo"));
    options.insert("b".to_string(), TemplateOption::Boolean { prompt: "B".to_string(), value: None, mandatory: false });
    options.insert("c".to_string(), TemplateOption::Integer { prompt: "C".to_string(), value: Some(5), mandatory: false });
    options.insert("d".to_string(), TemplateOption::Boolean { prompt: "D".to_string(), value: Some(true), mandatory: false });
    assert_eq!(
        context_values(&options),
        vec![
            ("a".to_string(), "yo".to_string()),
            ("c".to_string(), "5".to_string()),
            ("d".to_string(), "true".to_string()),
        ]
    );
}

#[test]
fn boolean_and_integer_values_render_as_text() {
    let mut options = OptionSet::new();
    options.insert("flag".to_string(), TemplateOption::Boolean { prompt: "F".to_string(), value: Some(false), mandatory: false });
    options.insert("n".to_string(), TemplateOption::Integer { prompt: "N".to_string(), value: Some(-7), mandatory: false });
    let mut template = template_with(&[("out.txt", "{{ flag }} {{ n }}")], options, None, None);
    let files = written(&run_all(&mut template).unwrap());
    assert_eq!(files, vec![("out.txt".to_string(), "false -7".to_string())]);
}

#[test]
fn mandatory_empty_option_blocks_apply() {
    let mut options = OptionSet::new();
    options.insert("a".to_string(), free("A", "yo"));
    options.insert("m".to_string(), TemplateOption::Integer { prompt: "M".to_string(), value: None, mandatory: true });
    let mut template = template_with(&[("x.txt", "x")], options, Some("echo hi"), None);
    assert_eq!(template.apply_step(ApplyStep::Validate).err(), Some(PrefabError::MissingValue("m".to_string())));
}
