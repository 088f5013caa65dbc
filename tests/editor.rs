use prefab::editor::field::{BooleanUI, ChoiceUI, EditorStatus, Key, NumberUI, TextUI};
use prefab::editor::menu::{MenuAction, OptionMenu, OptionUi};
use prefab::option::TemplateOption;
use prefab::option_set::OptionSet;
use tui_input::InputRequest;

fn typed(c: char) -> Key {
    Key::Edit(InputRequest::InsertChar(c))
}

fn is_finished(s: &EditorStatus) -> bool {
    matches!(s, EditorStatus::Finished { .. })
}

#[test]
fn text_field_commits_on_enter() {
    let o = TemplateOption::FreeText { prompt: "P".to_string(), value: Some("ab".to_string()), mandatory: false };
    let mut ui = TextUI::new(o, "t".to_string());
    ui.start_edit();
    assert_eq!(ui.input_value(), "ab");
    ui.update_input(typed('c'));
    ui.update_input(Key::Edit(InputRequest::GoToStart));
    ui.update_input(typed('x'));
    assert_eq!(ui.input_value(), "xabc");
    ui.update_input(Key::Edit(InputRequest::DeleteNextChar));
    assert_eq!(ui.input_value(), "xbc");
    ui.update_input(Key::Enter);
    assert!(is_finished(&ui.get_status()));
    assert_eq!(ui.get_option().get_value(), Some("xbc".to_string()));
    assert_eq!(ui.get_name(), "t");
}

#[test]
fn text_field_cancel_keeps_option() {
    let o = TemplateOption::FreeText { prompt: "P".to_string(), value: Some("keep".to_string()), mandatory: false };
    let mut ui = TextUI::new(o, "t".to_string());
    ui.start_edit();
    ui.update_input(Key::Edit(InputRequest::DeleteLine));
    assert_eq!(ui.input_value(), "");
    ui.update_input(Key::Esc);
    assert!(matches!(ui.get_status(), EditorStatus::Cancel));
    assert_eq!(ui.get_option().get_value(), Some("keep".to_string()));
    ui.start_edit();
    assert_eq!(ui.input_value(), "keep");
}

#[test]
fn regex_field_commits_only_matching_lines() {
    let o = TemplateOption::Regex { prompt: "P".to_string(), pattern: "^[0-9]+$".to_string(), value: None, mandatory: false };
    let mut ui = TextUI::new(o, "r".to_string());
    ui.start_edit();
    assert!(ui.is_valid());
    ui.update_input(typed('a'));
    assert!(!ui.is_valid());
    ui.update_input(Key::Enter);
    assert!(matches!(ui.get_status(), EditorStatus::Continue));
    ui.update_input(Key::Edit(InputRequest::DeletePrevChar));
    ui.update_input(typed('4'));
    ui.update_input(typed('2'));
    assert!(ui.is_valid());
    ui.update_input(Key::Enter);
    assert!(is_finished(&ui.get_status()));
    assert_eq!(ui.get_option().get_value(), Some("42".to_string()));
}

#[test]
fn integer_field_drops_keys_that_break_the_number() {
    let o = TemplateOption::Integer { prompt: "P".to_string(), value: None, mandatory: false };
    let mut ui = NumberUI::new(o, "n".to_string());
    ui.start_edit();
    ui.update_input(typed('-'));
    assert_eq!(ui.input_value(), "-");
    ui.update_input(typed('1'));
    ui.update_input(typed('x'));
    ui.update_input(typed('.'));
    ui.update_input(typed('2'));
    assert_eq!(ui.input_value(), "-12");
    ui.update_input(Key::Enter);
    assert_eq!(ui.get_option().get_value(), Some("-12".to_string()));
}

#[test]
fn float_field_accepts_a_point_in_progress() {
    let o = TemplateOption::Float { prompt: "P".to_string(), value: None, mandatory: false };
    let mut ui = NumberUI::new(o, "f".to_string());
    ui.start_edit();
    for c in ['3', '.', '.', 'q', '5'] {
        ui.update_input(typed(c));
    }
    assert_eq!(ui.input_value(), "3.5");
    ui.update_input(Key::Edit(InputRequest::DeletePrevChar));
    assert_eq!(ui.input_value(), "3.");
    ui.update_input(Key::Enter);
    assert_eq!(ui.get_option().get_value(), Some("3.0".to_string()));
}

#[test]
fn boolean_menu_wraps_and_commits() {
    let o = TemplateOption::Boolean { prompt: "P".to_string(), value: None, mandatory: false };
    let mut ui = BooleanUI::new(o, "b".to_string());
    ui.start_edit();
    ui.update_input(Key::Up);
    assert_eq!(ui.selected_index(), 2);
    ui.update_input(Key::Down);
    assert_eq!(ui.selected_index(), 0);
    ui.update_input(Key::Down);
    ui.update_input(Key::Enter);
    assert!(is_finished(&ui.get_status()));
    assert_eq!(ui.get_option().get_value(), Some("false".to_string()));
    ui.start_edit();
    ui.update_input(Key::Enter);
    assert_eq!(ui.get_option().get_value(), Some("true".to_string()));
}

#[test]
fn mandatory_boolean_menu_has_no_empty_entry() {
    let o = TemplateOption::Boolean { prompt: "P".to_string(), value: Some(true), mandatory: true };
    let mut ui = BooleanUI::new(o, "b".to_string());
    ui.start_edit();
    ui.update_input(Key::Up);
    assert_eq!(ui.selected_index(), 1);
    ui.update_input(Key::Down);
    ui.update_input(Key::Down);
    assert_eq!(ui.selected_index(), 1);
}

#[test]
fn choice_menu_commits_choice_or_clears() {
    let o = TemplateOption::Choice {
        prompt: "P".to_string(),
        options: vec!["a".to_string(), "b".to_string()],
        value: None,
        mandatory: false,
    };
    let mut ui = ChoiceUI::new(o, "c".to_string());
    ui.start_edit();
    ui.update_input(Key::Down);
    ui.update_input(Key::Enter);
    assert_eq!(ui.get_option().get_value(), Some("b".to_string()));
    ui.start_edit();
    ui.update_input(Key::Up);
    assert_eq!(ui.selected_index(), 2);
    ui.update_input(Key::Enter);
    assert_eq!(ui.get_option().get_value(), None);
}

fn menu_options() -> OptionSet {
    let mut options = OptionSet::new();
    options.insert("a".to_string(), TemplateOption::FreeText { prompt: "A".to_string(), value: None, mandatory: true });
    options.insert("b".to_string(), TemplateOption::Boolean { prompt: "B".to_string(), value: Some(false), mandatory: false });
    options
}

#[test]
fn done_is_disabled_while_a_mandatory_field_is_empty() {
    let options = menu_options();
    let mut menu = OptionMenu::new(&options);
    assert!(!menu.is_ready());
    assert!(matches!(menu.handle_key(Key::Up), MenuAction::Continue));
    assert_eq!(menu.selected_index(), 2);
    assert!(matches!(menu.handle_key(Key::Enter), MenuAction::Continue));
    assert!(!menu.is_editing());
}

#[test]
fn menu_edits_a_field_then_finishes() {
    let mut options = menu_options();
    let mut menu = OptionMenu::new(&options);
    menu.handle_key(Key::Enter);
    assert!(menu.is_editing());
    menu.handle_key(typed('h'));
    menu.handle_key(typed('i'));
    menu.handle_key(Key::Enter);
    assert!(!menu.is_editing());
    assert!(menu.is_ready());
    menu.handle_key(Key::Down);
    menu.handle_key(Key::Enter);
    menu.handle_key(Key::Esc);
    assert!(!menu.is_editing());
    menu.handle_key(Key::Down);
    menu.handle_key(Key::Down);
    assert_eq!(menu.selected_index(), 0);
    menu.handle_key(Key::Up);
    assert!(matches!(menu.handle_key(Key::Enter), MenuAction::Done));
    menu.apply_to(&mut options);
    assert_eq!(options.get("a").unwrap().get_value(), Some("hi".to_string()));
    assert_eq!(options.get("b").unwrap().get_value(), Some("false".to_string()));
}

#[test]
fn menu_escape_quits() {
    let options = menu_options();
    let mut menu = OptionMenu::new(&options);
    assert!(matches!(menu.handle_key(Key::Esc), MenuAction::Quit));
}

#[test]
fn editors_follow_the_option_kind() {
    let options = menu_options();
    let menu = OptionMenu::new(&options);
    assert!(matches!(menu.elements()[0], OptionUi::Text(_)));
    assert!(matches!(menu.elements()[1], OptionUi::Boolean(_)));
    assert_eq!(menu.elements()[1].get_name(), "b");
}

#[test]
fn float_field_takes_a_lone_point() {
    let o = TemplateOption::Float { prompt: "P".to_string(), value: None, mandatory: false };
    let mut ui = NumberUI::new(o, "f".to_string());
    ui.start_edit();
    ui.update_input(typed('.'));
    assert_eq!(ui.input_value(), ".");
    ui.update_input(typed('5'));
    ui.update_input(typed('.'));
    assert_eq!(ui.input_value(), ".5");
    ui.update_input(Key::Edit(InputRequest::DeleteLine));
    ui.update_input(typed('-'));
    ui.update_input(typed('.'));
    assert_eq!(ui.input_value(), "-.");
    ui.update_input(Key::Enter);
    assert_eq!(ui.get_option().get_value(), Some("-.0".to_string()));
}

#[test]
fn integer_field_refuses_a_point() {
    let o = TemplateOption::Integer { prompt: "P".to_string(), value: None, mandatory: false };
    let mut ui = NumberUI::new(o, "n".to_string());
    ui.start_edit();
    ui.update_input(typed('.'));
    assert_eq!(ui.input_value(), "");
}

#[test]
fn cancel_discards_the_line() {
    let o = TemplateOption::Regex { prompt: "P".to_string(), pattern: "^a+$".to_string(), value: Some("b".to_string()), mandatory: false };
    let mut ui = TextUI::new(o, "r".to_string());
    assert!(!ui.is_valid());
    ui.start_edit();
    ui.update_input(Key::Edit(InputRequest::DeleteLine));
    assert!(ui.is_valid());
    ui.update_input(Key::Esc);
    assert_eq!(ui.input_value(), "b");
    assert!(!ui.is_valid());
    let n = TemplateOption::Integer { prompt: "P".to_string(), value: Some(4), mandatory: false };
    let mut nu = NumberUI::new(n, "n".to_string());
    nu.start_edit();
    nu.update_input(typed('2'));
    nu.update_input(Key::Esc);
    assert_eq!(nu.input_value(), "4");
    assert_eq!(nu.get_option().get_value(), Some("4".to_string()));
}

#[test]
fn cancelled_edit_does_not_enable_done() {
    let mut options = OptionSet::new();
    options.insert(
        "r".to_string(),
        TemplateOption::Regex { prompt: "R".to_string(), pattern: "^a+$".to_string(), value: Some("b".to_string()), mandatory: false },
    );
    let mut menu = OptionMenu::new(&options);
    assert!(!menu.is_ready());
    menu.handle_key(Key::Enter);
    menu.handle_key(Key::Edit(InputRequest::DeleteLine));
    menu.handle_key(Key::Esc);
    assert!(!menu.is_editing());
    assert!(!menu.is_ready());
    menu.handle_key(Key::Down);
    assert!(matches!(menu.handle_key(Key::Enter), MenuAction::Continue));
}
