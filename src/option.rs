//! The option model: named, typed template variables.
use vstd::prelude::*;
use crate::float_literal::{float_literal, is_float_literal};
use crate::pattern::{pattern_accepts, pattern_compiles, pattern_matches};
use crate::decimal::{format_int, int_text, parse_int, parsed_int};
use crate::text::{lowercase_text, lowered, same_text, trim_text, trimmed};

verus! {

/// A template variable. Its value, when set, always has the type of its kind.
///
/// A `Float` keeps its value as the decimal text it was given, which is always a
/// text that `str::parse::<f64>` reads as a number.
#[derive(Debug, Clone)]
pub enum TemplateOption {
    FreeText { prompt: String, value: Option<String>, mandatory: bool },
    Boolean { prompt: String, value: Option<bool>, mandatory: bool },
    Integer { prompt: String, value: Option<i64>, mandatory: bool },
    Float { prompt: String, value: Option<String>, mandatory: bool },
    Regex { prompt: String, pattern: String, value: Option<String>, mandatory: bool },
    Choice { prompt: String, options: Vec<String>, value: Option<String>, mandatory: bool },
}

/// The mathematical value of a `TemplateOption`.
pub enum OptionModel {
    FreeText { prompt: Seq<char>, value: Option<Seq<char>>, mandatory: bool },
    Boolean { prompt: Seq<char>, value: Option<bool>, mandatory: bool },
    Integer { prompt: Seq<char>, value: Option<i64>, mandatory: bool },
    Float { prompt: Seq<char>, value: Option<Seq<char>>, mandatory: bool },
    Regex { prompt: Seq<char>, pattern: Seq<char>, value: Option<Seq<char>>, mandatory: bool },
    Choice {
        prompt: Seq<char>,
        options: Seq<Seq<char>>,
        value: Option<Seq<char>>,
        mandatory: bool,
    },
}

pub open spec fn text_of(o: Option<String>) -> Option<Seq<char>> {
    match o {
        Some(s) => Some(s@),
        None => None,
    }
}

pub open spec fn texts_of(v: Seq<String>) -> Seq<Seq<char>> {
    v.map_values(|s: String| s@)
}

pub open spec fn true_text() -> Seq<char> {
    seq!['t', 'r', 'u', 'e']
}

pub open spec fn false_text() -> Seq<char> {
    seq!['f', 'a', 'l', 's', 'e']
}

/// Empty text clears a value; any other text is the value.
pub open spec fn text_reading(text: Seq<char>) -> Option<Seq<char>> {
    if text.len() == 0 {
        None
    } else {
        Some(text)
    }
}

/// A trimmed, lowercased text: `true` is true, empty is unset, anything else is false.
pub open spec fn folded_reading(t: Seq<char>) -> Option<bool> {
    if t == true_text() {
        Some(true)
    } else if t.len() == 0 {
        None
    } else {
        Some(false)
    }
}

/// Trimmed and lowercased, then read as `folded_reading` reads it.
pub open spec fn bool_reading(text: Seq<char>) -> Option<bool> {
    folded_reading(lowered(trimmed(text)))
}

/// The boolean that an already trimmed and lowercased text stands for.
pub fn read_folded_bool(t: &str) -> (r: Option<bool>)
    ensures
        r == folded_reading(t@),
{
    let yes = same_text(t, "true");
    proof {
        reveal_strlit("true");
    }
    assert("true"@ =~= true_text());
    if yes {
        Some(true)
    } else if t.is_empty() {
        None
    } else {
        Some(false)
    }
}

/// Empty text clears; a text that does not parse keeps the prior value.
pub open spec fn int_reading(text: Seq<char>, prior: Option<i64>) -> Option<i64> {
    if text.len() == 0 {
        None
    } else {
        match parsed_int(text) {
            Some(n) => Some(n),
            None => prior,
        }
    }
}

/// A trailing point reads as if a zero followed it.
pub open spec fn float_input(text: Seq<char>) -> Seq<char> {
    if text.len() > 0 && text.last() == '.' {
        text.push('0')
    } else {
        text
    }
}

/// Empty text clears; a text that does not parse keeps the prior value.
pub open spec fn float_reading(text: Seq<char>, prior: Option<Seq<char>>) -> Option<Seq<char>> {
    if text.len() == 0 {
        None
    } else if float_literal(float_input(text)) {
        Some(float_input(text))
    } else {
        prior
    }
}

impl OptionModel {
    pub open spec fn prompt(self) -> Seq<char> {
        match self {
            OptionModel::FreeText { prompt, .. } => prompt,
            OptionModel::Boolean { prompt, .. } => prompt,
            OptionModel::Integer { prompt, .. } => prompt,
            OptionModel::Float { prompt, .. } => prompt,
            OptionModel::Regex { prompt, .. } => prompt,
            OptionModel::Choice { prompt, .. } => prompt,
        }
    }

    pub open spec fn mandatory(self) -> bool {
        match self {
            OptionModel::FreeText { mandatory, .. } => mandatory,
            OptionModel::Boolean { mandatory, .. } => mandatory,
            OptionModel::Integer { mandatory, .. } => mandatory,
            OptionModel::Float { mandatory, .. } => mandatory,
            OptionModel::Regex { mandatory, .. } => mandatory,
            OptionModel::Choice { mandatory, .. } => mandatory,
        }
    }

    /// The value as text: booleans as `true` / `false`, integers in decimal, a float's
    /// text with a zero after a trailing point.
    pub open spec fn value_text(self) -> Option<Seq<char>> {
        match self {
            OptionModel::FreeText { value, .. } => value,
            OptionModel::Boolean { value, .. } => match value {
                Some(b) => Some(
                    if b {
                        true_text()
                    } else {
                        false_text()
                    },
                ),
                None => None,
            },
            OptionModel::Integer { value, .. } => match value {
                Some(n) => Some(int_text(n)),
                None => None,
            },
            OptionModel::Float { value, .. } => match value {
                Some(t) => Some(float_input(t)),
                None => None,
            },
            OptionModel::Regex { value, .. } => value,
            OptionModel::Choice { value, .. } => value,
        }
    }

    pub open spec fn is_unset(self) -> bool {
        match self {
            OptionModel::FreeText { value, .. } => value is None,
            OptionModel::Boolean { value, .. } => value is None,
            OptionModel::Integer { value, .. } => value is None,
            OptionModel::Float { value, .. } => value is None,
            OptionModel::Regex { value, .. } => value is None,
            OptionModel::Choice { value, .. } => value is None,
        }
    }

    /// The option after `text` has been given to it.
    pub open spec fn with_text(self, text: Seq<char>) -> OptionModel {
        match self {
            OptionModel::FreeText { prompt, value, mandatory } => OptionModel::FreeText {
                prompt,
                value: text_reading(text),
                mandatory,
            },
            OptionModel::Boolean { prompt, value, mandatory } => OptionModel::Boolean {
                prompt,
                value: bool_reading(text),
                mandatory,
            },
            OptionModel::Integer { prompt, value, mandatory } => OptionModel::Integer {
                prompt,
                value: int_reading(text, value),
                mandatory,
            },
            OptionModel::Float { prompt, value, mandatory } => OptionModel::Float {
                prompt,
                value: float_reading(text, value),
                mandatory,
            },
            OptionModel::Regex { prompt, pattern, value, mandatory } => OptionModel::Regex {
                prompt,
                pattern,
                value: text_reading(text),
                mandatory,
            },
            OptionModel::Choice { prompt, options, value, mandatory } => OptionModel::Choice {
                prompt,
                options,
                value: text_reading(text),
                mandatory,
            },
        }
    }

    /// A set regex value matches its pattern (which compiles); a set choice value is
    /// one of the choices. Everything else is valid.
    pub open spec fn valid(self) -> bool {
        match self {
            OptionModel::Regex { pattern, value: Some(v), .. } => pattern_compiles(pattern)
                && pattern_matches(pattern, v),
            OptionModel::Choice { options, value: Some(v), .. } => options.contains(v),
            _ => true,
        }
    }
}

/// Giving a text, free text, pattern, choice or float option the non-empty text it reads
/// as gives an option that reads the same.
pub proof fn lemma_text_round_trip(o: OptionModel, s: Seq<char>)
    requires
        o is FreeText || o is Regex || o is Choice || o is Float,
        o.value_text() == Some(s),
        s.len() > 0,
    ensures
        o.with_text(s).value_text() == Some(s),
        o.with_text(s).prompt() == o.prompt(),
        o.with_text(s).mandatory() == o.mandatory(),
{
    if let OptionModel::Float { value, .. } = o {
        let t = value->0;
        assert(s == float_input(t));
        assert(float_input(s) == s) by {
            if t.len() > 0 && t.last() == '.' {
                assert(s.last() == '0');
            }
        }
    }
}

impl View for TemplateOption {
    type V = OptionModel;

    open spec fn view(&self) -> OptionModel {
        match self {
            TemplateOption::FreeText { prompt, value, mandatory } => OptionModel::FreeText {
                prompt: prompt@,
                value: text_of(*value),
                mandatory: *mandatory,
            },
            TemplateOption::Boolean { prompt, value, mandatory } => OptionModel::Boolean {
                prompt: prompt@,
                value: *value,
                mandatory: *mandatory,
            },
            TemplateOption::Integer { prompt, value, mandatory } => OptionModel::Integer {
                prompt: prompt@,
                value: *value,
                mandatory: *mandatory,
            },
            TemplateOption::Float { prompt, value, mandatory } => OptionModel::Float {
                prompt: prompt@,
                value: text_of(*value),
                mandatory: *mandatory,
            },
            TemplateOption::Regex { prompt, pattern, value, mandatory } => OptionModel::Regex {
                prompt: prompt@,
                pattern: pattern@,
                value: text_of(*value),
                mandatory: *mandatory,
            },
            TemplateOption::Choice { prompt, options, value, mandatory } => OptionModel::Choice {
                prompt: prompt@,
                options: texts_of(options@),
                value: text_of(*value),
                mandatory: *mandatory,
            },
        }
    }
}

pub fn copy_text(o: &Option<String>) -> (r: Option<String>)
    ensures
        text_of(r) == text_of(*o),
{
    match o {
        Some(s) => Some(s.clone()),
        None => None,
    }
}

pub fn copy_texts(v: &Vec<String>) -> (r: Vec<String>)
    ensures
        texts_of(r@) == texts_of(v@),
{
    let mut r: Vec<String> = Vec::new();
    let mut i: usize = 0;
    while i < v.len()
        invariant
            i <= v@.len(),
            r@.len() == i,
            forall|k: int| 0 <= k < i ==> (#[trigger] r@[k])@ == v@[k]@,
        decreases v@.len() - i,
    {
        r.push(v[i].clone());
        i = i + 1;
    }
    assert(texts_of(r@) =~= texts_of(v@));
    r
}

/// Whether `choices` holds `value`.
pub fn contains_text(choices: &Vec<String>, value: &String) -> (r: bool)
    ensures
        r == texts_of(choices@).contains(value@),
{
    let mut i: usize = 0;
    while i < choices.len()
        invariant
            i <= choices@.len(),
            forall|k: int| 0 <= k < i ==> (#[trigger] choices@[k])@ != value@,
        decreases choices@.len() - i,
    {
        if choices[i] == *value {
            assert(texts_of(choices@)[i as int] == value@);
            return true;
        }
        i = i + 1;
    }
    assert forall|k: int| 0 <= k < texts_of(choices@).len() implies texts_of(choices@)[k]
        != value@ by {
        assert(choices@[k]@ != value@);
    }
    false
}

impl TemplateOption {
    /// A copy of the option.
    pub fn duplicate(&self) -> (r: TemplateOption)
        ensures
            r@ == self@,
    {
        match self {
            TemplateOption::FreeText { prompt, value, mandatory } => TemplateOption::FreeText {
                prompt: prompt.clone(),
                value: copy_text(value),
                mandatory: *mandatory,
            },
            TemplateOption::Boolean { prompt, value, mandatory } => TemplateOption::Boolean {
                prompt: prompt.clone(),
                value: *value,
                mandatory: *mandatory,
            },
            TemplateOption::Integer { prompt, value, mandatory } => TemplateOption::Integer {
                prompt: prompt.clone(),
                value: *value,
                mandatory: *mandatory,
            },
            TemplateOption::Float { prompt, value, mandatory } => TemplateOption::Float {
                prompt: prompt.clone(),
                value: copy_text(value),
                mandatory: *mandatory,
            },
            TemplateOption::Regex { prompt, pattern, value, mandatory } => TemplateOption::Regex {
                prompt: prompt.clone(),
                pattern: pattern.clone(),
                value: copy_text(value),
                mandatory: *mandatory,
            },
            TemplateOption::Choice { prompt, options, value, mandatory } => TemplateOption::Choice {
                prompt: prompt.clone(),
                options: copy_texts(options),
                value: copy_text(value),
                mandatory: *mandatory,
            },
        }
    }

    /// The value as text, the same projection for every kind.
    pub fn get_value(&self) -> (r: Option<String>)
        ensures
            text_of(r) == self@.value_text(),
    {
        match self {
            TemplateOption::FreeText { value, .. } => copy_text(value),
            TemplateOption::Boolean { value, .. } => match value {
                Some(b) => {
                    let t = if *b {
                        String::from_str("true")
                    } else {
                        String::from_str("false")
                    };
                    proof {
                        reveal_strlit("true");
                        reveal_strlit("false");
                    }
                    assert(t@ =~= if *b { true_text() } else { false_text() });
                    Some(t)
                },
                None => None,
            },
            TemplateOption::Integer { value, .. } => match value {
                Some(n) => Some(format_int(*n)),
                None => None,
            },
            TemplateOption::Float { value, .. } => match value {
                Some(t) => Some(float_input_text(t.clone())),
                None => None,
            },
            TemplateOption::Regex { value, .. } => copy_text(value),
            TemplateOption::Choice { value, .. } => copy_text(value),
        }
    }

    /// The option after `text` was given to it; see `OptionModel::with_text`.
    ///
    /// Empty text clears the value of every kind; a non-empty text that does not parse
    /// leaves an integer or float option as it was.
    pub fn set_value(self, text: String) -> (r: TemplateOption)
        ensures
            r@ == self@.with_text(text@),
            text@.len() == 0 ==> r@.is_unset(),
            text@.len() > 0 && self@ is Integer && parsed_int(text@) is None ==> r@ == self@,
            text@.len() > 0 && self@ is Float && !float_literal(float_input(text@)) ==> r@ == self@,
    {
        match self {
            TemplateOption::FreeText { prompt, value: _, mandatory } => {
                let value = if text.as_str().is_empty() {
                    None
                } else {
                    Some(text)
                };
                TemplateOption::FreeText { prompt, value, mandatory }
            },
            TemplateOption::Boolean { prompt, value: _, mandatory } => {
                let t = lowercase_text(trim_text(text.as_str()).as_str());
                let value = read_folded_bool(t.as_str());
                TemplateOption::Boolean { prompt, value, mandatory }
            },
            TemplateOption::Integer { prompt, value, mandatory } => {
                let value = if text.as_str().is_empty() {
                    None
                } else {
                    match parse_int(text.as_str()) {
                        Some(n) => Some(n),
                        None => value,
                    }
                };
                TemplateOption::Integer { prompt, value, mandatory }
            },
            TemplateOption::Float { prompt, value, mandatory } => {
                let value = if text.as_str().is_empty() {
                    None
                } else {
                    let input = float_input_text(text);
                    if is_float_literal(input.as_str()) {
                        Some(input)
                    } else {
                        value
                    }
                };
                TemplateOption::Float { prompt, value, mandatory }
            },
            TemplateOption::Regex { prompt, pattern, value: _, mandatory } => {
                let value = if text.as_str().is_empty() {
                    None
                } else {
                    Some(text)
                };
                TemplateOption::Regex { prompt, pattern, value, mandatory }
            },
            TemplateOption::Choice { prompt, options, value: _, mandatory } => {
                let value = if text.as_str().is_empty() {
                    None
                } else {
                    Some(text)
                };
                TemplateOption::Choice { prompt, options, value, mandatory }
            },
        }
    }

    /// The pattern of a `Regex` option.
    pub fn get_pattern(&self) -> (r: Option<String>)
        ensures
            text_of(r) == (match self@ {
                OptionModel::Regex { pattern, .. } => Some(pattern),
                _ => None,
            }),
    {
        match self {
            TemplateOption::Regex { pattern, .. } => Some(pattern.clone()),
            _ => None,
        }
    }

    /// The choices of a `Choice` option, in their declared order.
    pub fn get_choice_options(&self) -> (r: Option<Vec<String>>)
        ensures
            r is Some == self@ is Choice,
            r matches Some(v) ==> texts_of(v@) == self@->Choice_options,
    {
        match self {
            TemplateOption::Choice { options, .. } => Some(copy_texts(options)),
            _ => None,
        }
    }

    pub fn get_prompt(&self) -> (r: String)
        ensures
            r@ == self@.prompt(),
    {
        match self {
            TemplateOption::FreeText { prompt, .. } => prompt.clone(),
            TemplateOption::Boolean { prompt, .. } => prompt.clone(),
            TemplateOption::Integer { prompt, .. } => prompt.clone(),
            TemplateOption::Float { prompt, .. } => prompt.clone(),
            TemplateOption::Regex { prompt, .. } => prompt.clone(),
            TemplateOption::Choice { prompt, .. } => prompt.clone(),
        }
    }

    pub fn is_mandatory(&self) -> (r: bool)
        ensures
            r == self@.mandatory(),
    {
        match self {
            TemplateOption::FreeText { mandatory, .. } => *mandatory,
            TemplateOption::Boolean { mandatory, .. } => *mandatory,
            TemplateOption::Integer { mandatory, .. } => *mandatory,
            TemplateOption::Float { mandatory, .. } => *mandatory,
            TemplateOption::Regex { mandatory, .. } => *mandatory,
            TemplateOption::Choice { mandatory, .. } => *mandatory,
        }
    }

    pub fn is_empty(&self) -> (r: bool)
        ensures
            r == self@.is_unset(),
    {
        match self {
            TemplateOption::FreeText { value, .. } => value.is_none(),
            TemplateOption::Boolean { value, .. } => value.is_none(),
            TemplateOption::Integer { value, .. } => value.is_none(),
            TemplateOption::Float { value, .. } => value.is_none(),
            TemplateOption::Regex { value, .. } => value.is_none(),
            TemplateOption::Choice { value, .. } => value.is_none(),
        }
    }

    /// Whether the value is one that the option's kind admits; see `OptionModel::valid`.
    pub fn validate(&self) -> (r: bool)
        ensures
            r == self@.valid(),
    {
        match self {
            TemplateOption::Regex { pattern, value: Some(v), .. } => {
                match pattern_accepts(pattern.as_str(), v.as_str()) {
                    Some(m) => m,
                    None => false,
                }
            },
            TemplateOption::Choice { options, value: Some(v), .. } => contains_text(options, v),
            _ => true,
        }
    }
}

/// The text with a zero after a trailing point.
fn float_input_text(text: String) -> (r: String)
    ensures
        r@ == float_input(text@),
{
    let n = text.as_str().unicode_len();
    if n > 0 && text.as_str().get_char(n - 1) == '.' {
        let mut t = text;
        t.append("0");
        proof {
            reveal_strlit("0");
        }
        assert(t@ =~= text@.push('0'));
        t
    } else {
        text
    }
}

} // verus!
