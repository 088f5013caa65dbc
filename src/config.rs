//! Overlaying a configuration table of scalars onto a set of options.
use vstd::prelude::*;
use crate::errors::{ErrorModel, PrefabError};
use crate::option::{copy_texts, false_text, true_text, OptionModel, TemplateOption};
use crate::option_set::{has_name, lemma_place_of, option_named, place_of, unique_names, OptionSet};

verus! {

/// A value of a configuration table.
pub enum ConfigValue {
    Text(String),
    Integer(i64),
    /// A float, as the decimal text that `f64`'s `Display` writes for it.
    Float(String),
    Boolean(bool),
    /// A date, an array or a table.
    Unsupported,
}

pub enum ConfigValueModel {
    Text(Seq<char>),
    Integer(i64),
    Float(Seq<char>),
    Boolean(bool),
    Unsupported,
}

impl View for ConfigValue {
    type V = ConfigValueModel;

    open spec fn view(&self) -> ConfigValueModel {
        match self {
            ConfigValue::Text(s) => ConfigValueModel::Text(s@),
            ConfigValue::Integer(n) => ConfigValueModel::Integer(*n),
            ConfigValue::Float(s) => ConfigValueModel::Float(s@),
            ConfigValue::Boolean(b) => ConfigValueModel::Boolean(*b),
            ConfigValue::Unsupported => ConfigValueModel::Unsupported,
        }
    }
}

/// One named value of a configuration table.
pub struct ConfigEntry {
    pub name: String,
    pub value: ConfigValue,
}

pub open spec fn entry_view(e: ConfigEntry) -> (Seq<char>, ConfigValueModel) {
    (e.name@, e.value@)
}

/// The entries, in key order, of the table that `toml` reads from a text; `None`
/// where the text is not a TOML document.
pub uninterp spec fn toml_entries(text: Seq<char>) -> Option<Seq<(Seq<char>, ConfigValueModel)>>;

/// Relies on `toml::from_str::<toml::Table>`: parses a TOML document into its top-level
/// table, whose entries it yields in key order.
#[verifier::external_body]
fn parse_toml_table(text: &str) -> (r: Option<Vec<ConfigEntry>>)
    ensures
        r is Some == toml_entries(text@) is Some,
        r matches Some(v) ==> v@.map_values(|e: ConfigEntry| entry_view(e)) == toml_entries(text@)->0,
{
    let table: toml::Table = toml::from_str(text).ok()?;
    let mut entries = Vec::new();
    for (name, value) in table {
        let value = match value {
            toml::Value::String(s) => ConfigValue::Text(s),
            toml::Value::Integer(n) => ConfigValue::Integer(n),
            toml::Value::Float(x) => ConfigValue::Float(x.to_string()),
            toml::Value::Boolean(b) => ConfigValue::Boolean(b),
            toml::Value::Datetime(_) => ConfigValue::Unsupported,
            toml::Value::Array(_) => ConfigValue::Unsupported,
            toml::Value::Table(_) => ConfigValue::Unsupported,
        };
        entries.push(ConfigEntry { name, value });
    }
    Some(entries)
}

/// The option after a configuration value was given to it; `None` where the value's
/// type disagrees with the option's kind.
pub open spec fn configured(o: OptionModel, v: ConfigValueModel) -> Option<OptionModel> {
    match (o, v) {
        (OptionModel::FreeText { prompt, mandatory, .. }, ConfigValueModel::Text(t)) => Some(
            OptionModel::FreeText { prompt, value: Some(t), mandatory },
        ),
        (OptionModel::Regex { prompt, pattern, mandatory, .. }, ConfigValueModel::Text(t)) => Some(
            OptionModel::Regex { prompt, pattern, value: Some(t), mandatory },
        ),
        (OptionModel::Choice { prompt, options, mandatory, .. }, ConfigValueModel::Text(t)) => Some(
            OptionModel::Choice { prompt, options, value: Some(t), mandatory },
        ),
        (OptionModel::Integer { prompt, mandatory, .. }, ConfigValueModel::Integer(n)) => Some(
            OptionModel::Integer { prompt, value: Some(n), mandatory },
        ),
        (OptionModel::Float { prompt, mandatory, .. }, ConfigValueModel::Float(t)) => Some(
            OptionModel::Float { prompt, value: Some(t), mandatory },
        ),
        (OptionModel::Boolean { prompt, mandatory, .. }, ConfigValueModel::Boolean(b)) => Some(
            OptionModel::Boolean { prompt, value: Some(b), mandatory },
        ),
        _ => None,
    }
}

/// One entry overlaid onto the options.
pub open spec fn merge_entry(
    opts: Seq<(Seq<char>, OptionModel)>,
    name: Seq<char>,
    v: ConfigValueModel,
) -> Result<Seq<(Seq<char>, OptionModel)>, ErrorModel> {
    if v is Unsupported {
        Err(ErrorModel::ConfigParseError(name))
    } else if !has_name(opts, name) {
        Err(ErrorModel::UnknownOptionName(name))
    } else {
        match configured(option_named(opts, name), v) {
            Some(o) => Ok(opts.update(place_of(opts, name), (name, o))),
            None => Err(ErrorModel::OptionTypeMismatch(name)),
        }
    }
}

/// The entries overlaid in order; the first one that fails decides the error.
pub open spec fn merge_all(
    opts: Seq<(Seq<char>, OptionModel)>,
    entries: Seq<(Seq<char>, ConfigValueModel)>,
) -> Result<Seq<(Seq<char>, OptionModel)>, ErrorModel>
    decreases entries.len(),
{
    if entries.len() == 0 {
        Ok(opts)
    } else {
        match merge_entry(opts, entries[0].0, entries[0].1) {
            Ok(next) => merge_all(next, entries.drop_first()),
            Err(e) => Err(e),
        }
    }
}

/// The result of overlaying the configuration text onto the options.
pub open spec fn config_result(
    text: Seq<char>,
    opts: Seq<(Seq<char>, OptionModel)>,
) -> Result<Seq<(Seq<char>, OptionModel)>, ErrorModel> {
    match toml_entries(text) {
        Some(entries) => merge_all(opts, entries),
        None => Err(ErrorModel::ConfigParseError(seq![])),
    }
}

/// A boolean configuration value for a declared boolean option is accepted, and the
/// option then reads as `true` or `false`.
pub proof fn lemma_boolean_value_accepted(
    opts: Seq<(Seq<char>, OptionModel)>,
    name: Seq<char>,
    b: bool,
)
    requires
        unique_names(opts),
        has_name(opts, name),
        option_named(opts, name) is Boolean,
    ensures
        merge_entry(opts, name, ConfigValueModel::Boolean(b)) matches Ok(next) && unique_names(next)
            && has_name(next, name) && option_named(next, name).value_text() == Some(
            if b {
                true_text()
            } else {
                false_text()
            },
        ),
{
    let p = place_of(opts, name);
    let o = configured(option_named(opts, name), ConfigValueModel::Boolean(b))->0;
    let next = opts.update(p, (name, o));
    assert forall|i: int| 0 <= i < next.len() implies #[trigger] next[i].0 == opts[i].0 by {}
    assert(unique_names(next));
    lemma_place_of(next, name, p);
}

/// A text configuration value for a declared integer option is an `OptionTypeMismatch`
/// naming the option.
pub proof fn lemma_text_for_integer_rejected(
    opts: Seq<(Seq<char>, OptionModel)>,
    name: Seq<char>,
    t: Seq<char>,
)
    requires
        unique_names(opts),
        has_name(opts, name),
        option_named(opts, name) is Integer,
    ensures
        merge_entry(opts, name, ConfigValueModel::Text(t)) == Err::<
            Seq<(Seq<char>, OptionModel)>,
            ErrorModel,
        >(ErrorModel::OptionTypeMismatch(name)),
{
}

/// Gives the option at place `i` the configuration value `v`, or says why it cannot.
fn apply_value(options: &mut OptionSet, i: usize, name: &String, v: ConfigValue) -> (r: Result<
    (),
    PrefabError,
>)
    requires
        old(options).wf(),
        i < old(options)@.len(),
        old(options)@[i as int].0 == name@,
    ensures
        final(options).wf(),
        configured(old(options)@[i as int].1, v@) matches Some(o) ==> r is Ok && final(options)@
            == old(options)@.update(i as int, (name@, o)),
        configured(old(options)@[i as int].1, v@) is None ==> (r matches Err(e) && e@
            == ErrorModel::OptionTypeMismatch(name@)),
{
    let current = options.option_at(i);
    let next = match (current, v) {
        (TemplateOption::FreeText { prompt, mandatory, .. }, ConfigValue::Text(t)) => Some(
            TemplateOption::FreeText { prompt: prompt.clone(), value: Some(t), mandatory: *mandatory },
        ),
        (TemplateOption::Regex { prompt, pattern, mandatory, .. }, ConfigValue::Text(t)) => Some(
            TemplateOption::Regex {
                prompt: prompt.clone(),
                pattern: pattern.clone(),
                value: Some(t),
                mandatory: *mandatory,
            },
        ),
        (TemplateOption::Choice { prompt, options: choices, mandatory, .. }, ConfigValue::Text(t)) => {
            Some(
                TemplateOption::Choice {
                    prompt: prompt.clone(),
                    options: copy_texts(choices),
                    value: Some(t),
                    mandatory: *mandatory,
                },
            )
        },
        (TemplateOption::Integer { prompt, mandatory, .. }, ConfigValue::Integer(n)) => Some(
            TemplateOption::Integer { prompt: prompt.clone(), value: Some(n), mandatory: *mandatory },
        ),
        (TemplateOption::Float { prompt, mandatory, .. }, ConfigValue::Float(t)) => Some(
            TemplateOption::Float { prompt: prompt.clone(), value: Some(t), mandatory: *mandatory },
        ),
        (TemplateOption::Boolean { prompt, mandatory, .. }, ConfigValue::Boolean(b)) => Some(
            TemplateOption::Boolean { prompt: prompt.clone(), value: Some(b), mandatory: *mandatory },
        ),
        _ => None,
    };
    match next {
        Some(o) => {
            options.set_at(i, o);
            Ok(())
        },
        None => Err(PrefabError::OptionTypeMismatch(name.clone())),
    }
}

/// Overlays the TOML table in `text` onto `options`, entry by entry in key order.
///
/// A text that is not TOML, or a value that is not a scalar, is a `ConfigParseError`;
/// a name that no option has is an `UnknownOptionName`; a value whose type disagrees
/// with the option's kind is an `OptionTypeMismatch`.
pub fn load_config(text: &str, options: OptionSet) -> (r: Result<OptionSet, PrefabError>)
    requires
        options.wf(),
    ensures
        r matches Ok(o) ==> o.wf() && config_result(text@, options@) == Ok::<
            Seq<(Seq<char>, OptionModel)>,
            ErrorModel,
        >(o@),
        r matches Err(e) ==> config_result(text@, options@) == Err::<
            Seq<(Seq<char>, OptionModel)>,
            ErrorModel,
        >(e@),
{
    let entries = match parse_toml_table(text) {
        Some(v) => v,
        None => {
            return Err(PrefabError::ConfigParseError(String::new()));
        },
    };
    let ghost start = options@;
    let mut opts = options;
    let mut entries = entries;
    while entries.len() > 0
        invariant
            opts.wf(),
            start == options@,
            config_result(text@, start) == merge_all(
                opts@,
                entries@.map_values(|e: ConfigEntry| entry_view(e)),
            ),
        decreases entries@.len(),
    {
        let ghost rest = entries@.map_values(|e: ConfigEntry| entry_view(e));
        let entry = entries.remove(0);
        assert(entries@.map_values(|e: ConfigEntry| entry_view(e)) =~= rest.drop_first());
        assert(rest[0] == entry_view(entry));
        let ConfigEntry { name, value } = entry;
        assert(rest[0].0 == name@ && rest[0].1 == value@);
        assert(merge_all(opts@, rest) == match merge_entry(opts@, name@, value@) {
            Ok(next) => merge_all(next, rest.drop_first()),
            Err(e) => Err(e),
        });
        if let ConfigValue::Unsupported = value {
            return Err(PrefabError::ConfigParseError(name));
        }
        match opts.find(name.as_str()) {
            None => {
                return Err(PrefabError::UnknownOptionName(name));
            },
            Some(i) => {
                apply_value(&mut opts, i, &name, value)?;
            },
        }
    }
    assert(entries@.map_values(|e: ConfigEntry| entry_view(e)) =~= Seq::empty());
    Ok(opts)
}

} // verus!
