//! The list of fields, with a trailing Done entry, and the edit of one field at a time.
use vstd::prelude::*;
use crate::editor::field::{
    entry_above, entry_below, start_text, text_valid, BooleanUI, ChoiceUI, EditorStatus, Key,
    NumberUI, StatusModel, TextUI,
};
use crate::option::{OptionModel, TemplateOption};
use crate::option_set::{has_name, lemma_place_of, option_named, place_of, unique_names, OptionSet};
use crate::pattern::{pattern_compiles, pattern_matches};

verus! {

/// The editor that fits an option's kind: a line for free text and patterns, a menu for
/// booleans and choices, a number line for integers and floats.
pub open spec fn editor_fits(o: OptionModel, e: OptionUi) -> bool {
    &&& (o is FreeText || o is Regex) <==> e is Text
    &&& o is Boolean <==> e is Boolean
    &&& (o is Integer || o is Float) <==> e is Number
    &&& o is Choice <==> e is Choice
}

/// What Done may commit: a mandatory option is set, and a set, non-empty pattern value
/// matches its pattern wherever the pattern compiles.
pub open spec fn committable(o: OptionModel) -> bool {
    &&& !(o.is_unset() && o.mandatory())
    &&& match o {
        OptionModel::Regex { pattern, value: Some(v), .. } => v.len() > 0 && pattern_compiles(
            pattern,
        ) ==> pattern_matches(pattern, v),
        _ => true,
    }
}

/// The editor of one field, by the kind of its option.
pub enum OptionUi {
    Text(TextUI),
    Boolean(BooleanUI),
    Number(NumberUI),
    Choice(ChoiceUI),
}

impl OptionUi {
    pub open spec fn wf(self) -> bool {
        match self {
            OptionUi::Text(e) => e.wf(),
            OptionUi::Boolean(e) => e.wf(),
            OptionUi::Number(e) => e.wf(),
            OptionUi::Choice(e) => e.wf(),
        }
    }

    pub open spec fn option_view(self) -> OptionModel {
        match self {
            OptionUi::Text(e) => e.option_view(),
            OptionUi::Boolean(e) => e.option_view(),
            OptionUi::Number(e) => e.option_view(),
            OptionUi::Choice(e) => e.option_view(),
        }
    }

    pub open spec fn status_view(self) -> StatusModel {
        match self {
            OptionUi::Text(e) => e.status_view(),
            OptionUi::Boolean(e) => e.status_view(),
            OptionUi::Number(e) => e.status_view(),
            OptionUi::Choice(e) => e.status_view(),
        }
    }

    pub open spec fn name_view(self) -> Seq<char> {
        match self {
            OptionUi::Text(e) => e.name_view(),
            OptionUi::Boolean(e) => e.name_view(),
            OptionUi::Number(e) => e.name_view(),
            OptionUi::Choice(e) => e.name_view(),
        }
    }

    /// Only a line that breaks its pattern is invalid.
    pub open spec fn valid(self) -> bool {
        match self {
            OptionUi::Text(e) => text_valid(e.option_view(), e.buffer()),
            _ => true,
        }
    }

    /// Out of an edit, a line editor's line is its option's text.
    pub open spec fn at_rest(self) -> bool {
        match self {
            OptionUi::Text(e) => e.buffer() == start_text(e.option_view()),
            _ => true,
        }
    }

    /// The field is ready for Done: valid, and set unless it is optional.
    pub open spec fn ready(self) -> bool {
        self.valid() && !(self.option_view().is_unset() && self.option_view().mandatory())
    }

    /// One key press given to the field under edit.
    pub open spec fn stepped(self, key: Key, next: OptionUi) -> bool {
        match (self, next) {
            (OptionUi::Text(a), OptionUi::Text(b)) => a.stepped(key, b),
            (OptionUi::Boolean(a), OptionUi::Boolean(b)) => a.stepped(key, b),
            (OptionUi::Number(a), OptionUi::Number(b)) => a.stepped(key, b),
            (OptionUi::Choice(a), OptionUi::Choice(b)) => a.stepped(key, b),
            _ => false,
        }
    }

    /// The field after an edit of it started: from its value, or from the first entry.
    pub open spec fn started(self, next: OptionUi) -> bool {
        &&& next.wf()
        &&& next.option_view() == self.option_view()
        &&& next.name_view() == self.name_view()
        &&& next.status_view() == StatusModel::Continue
        &&& match (self, next) {
            (OptionUi::Text(a), OptionUi::Text(b)) => b.buffer() == start_text(a.option_view()),
            (OptionUi::Boolean(a), OptionUi::Boolean(b)) => b.selected() == 0,
            (OptionUi::Number(a), OptionUi::Number(b)) => b.buffer() == start_text(a.option_view())
                && b.float_field() == a.float_field(),
            (OptionUi::Choice(a), OptionUi::Choice(b)) => b.selected() == 0,
            _ => false,
        }
    }

    /// The editor that fits the option's kind.
    pub fn for_option(option: TemplateOption, name: String) -> (r: OptionUi)
        ensures
            r.wf(),
            r.option_view() == option@,
            r.name_view() == name@,
            r.status_view() == StatusModel::Continue,
            r.at_rest(),
            editor_fits(option@, r),
    {
        match option {
            TemplateOption::FreeText { .. } => OptionUi::Text(TextUI::new(option, name)),
            TemplateOption::Regex { .. } => OptionUi::Text(TextUI::new(option, name)),
            TemplateOption::Boolean { .. } => OptionUi::Boolean(BooleanUI::new(option, name)),
            TemplateOption::Integer { .. } => OptionUi::Number(NumberUI::new(option, name)),
            TemplateOption::Float { .. } => OptionUi::Number(NumberUI::new(option, name)),
            TemplateOption::Choice { .. } => OptionUi::Choice(ChoiceUI::new(option, name)),
        }
    }

    pub fn start_edit(&mut self)
        requires
            old(self).wf(),
        ensures
            old(self).started(*final(self)),
    {
        match self {
            OptionUi::Text(e) => e.start_edit(),
            OptionUi::Boolean(e) => e.start_edit(),
            OptionUi::Number(e) => e.start_edit(),
            OptionUi::Choice(e) => e.start_edit(),
        }
    }

    pub fn update_input(&mut self, key: Key)
        requires
            old(self).wf(),
        ensures
            old(self).stepped(key, *final(self)),
            final(self).wf(),
    {
        match self {
            OptionUi::Text(e) => e.update_input(key),
            OptionUi::Boolean(e) => e.update_input(key),
            OptionUi::Number(e) => e.update_input(key),
            OptionUi::Choice(e) => e.update_input(key),
        }
    }

    pub fn get_status(&self) -> (r: EditorStatus)
        ensures
            r@ == self.status_view(),
    {
        match self {
            OptionUi::Text(e) => e.get_status(),
            OptionUi::Boolean(e) => e.get_status(),
            OptionUi::Number(e) => e.get_status(),
            OptionUi::Choice(e) => e.get_status(),
        }
    }

    pub fn get_option(&self) -> (r: TemplateOption)
        ensures
            r@ == self.option_view(),
    {
        match self {
            OptionUi::Text(e) => e.get_option(),
            OptionUi::Boolean(e) => e.get_option(),
            OptionUi::Number(e) => e.get_option(),
            OptionUi::Choice(e) => e.get_option(),
        }
    }

    pub fn get_name(&self) -> (r: String)
        ensures
            r@ == self.name_view(),
    {
        match self {
            OptionUi::Text(e) => e.get_name(),
            OptionUi::Boolean(e) => e.get_name(),
            OptionUi::Number(e) => e.get_name(),
            OptionUi::Choice(e) => e.get_name(),
        }
    }

    pub fn is_valid(&self) -> (r: bool)
        ensures
            r == self.valid(),
    {
        match self {
            OptionUi::Text(e) => e.is_valid(),
            _ => true,
        }
    }

    /// Whether the field is ready for Done.
    pub fn is_ready(&self) -> (r: bool)
        ensures
            r == self.ready(),
    {
        let o = self.get_option();
        self.is_valid() && !(o.is_empty() && o.is_mandatory())
    }
}

/// One editor for each option, in the options' order.
pub fn get_elements(options: &OptionSet) -> (r: Vec<OptionUi>)
    requires
        options.wf(),
    ensures
        r@.len() == options@.len(),
        forall|i: int|
            0 <= i < r@.len() ==> {
                &&& (#[trigger] r@[i]).wf()
                &&& r@[i].option_view() == options@[i].1
                &&& r@[i].name_view() == options@[i].0
                &&& r@[i].status_view() == StatusModel::Continue
                &&& r@[i].at_rest()
                &&& editor_fits(options@[i].1, r@[i])
            },
{
    let mut r: Vec<OptionUi> = Vec::new();
    let mut i: usize = 0;
    while i < options.len()
        invariant
            options.wf(),
            i <= options@.len(),
            r@.len() == i,
            forall|k: int|
                0 <= k < i ==> {
                    &&& (#[trigger] r@[k]).wf()
                    &&& r@[k].option_view() == options@[k].1
                    &&& r@[k].name_view() == options@[k].0
                    &&& r@[k].status_view() == StatusModel::Continue
                    &&& r@[k].at_rest()
                    &&& editor_fits(options@[k].1, r@[k])
                },
        decreases options@.len() - i,
    {
        let e = OptionUi::for_option(options.option_at(i).duplicate(), options.name_at(i).clone());
        r.push(e);
        i = i + 1;
    }
    r
}

/// No two fields have the same name.
pub open spec fn unique_field_names(fields: Seq<OptionUi>) -> bool {
    forall|i: int, j: int|
        0 <= i < fields.len() && 0 <= j < fields.len() && i != j ==> (#[trigger] fields[i]).name_view()
            != (#[trigger] fields[j]).name_view()
}

/// `next` holds, under each field's name, that field's option; it has the same names in
/// the same order as `prev`, and an option that no field names is left as it was.
pub open spec fn committed_by_name(
    prev: Seq<(Seq<char>, OptionModel)>,
    fields: Seq<OptionUi>,
    next: Seq<(Seq<char>, OptionModel)>,
) -> bool {
    &&& next.len() == prev.len()
    &&& forall|j: int| 0 <= j < next.len() ==> (#[trigger] next[j]).0 == prev[j].0
    &&& forall|i: int|
        0 <= i < fields.len() ==> option_named(next, (#[trigger] fields[i]).name_view())
            == fields[i].option_view()
    &&& forall|j: int|
        0 <= j < prev.len() && (forall|i: int| 0 <= i < fields.len() ==> (#[trigger] fields[i]).name_view() != prev[j].0)
            ==> #[trigger] next[j] == prev[j]
}

/// Copies every field's committed option into `options`, by the field's name.
pub fn apply_elements_to_options(options: &mut OptionSet, elements: &Vec<OptionUi>)
    requires
        old(options).wf(),
        unique_field_names(elements@),
        forall|i: int| 0 <= i < elements@.len() ==> has_name(old(options)@, (#[trigger] elements@[i]).name_view()),
    ensures
        final(options).wf(),
        committed_by_name(old(options)@, elements@, final(options)@),
{
    let ghost start = options@;
    proof {
        options.lemma_unique();
    }
    let mut i: usize = 0;
    while i < elements.len()
        invariant
            options.wf(),
            start == old(options)@,
            unique_names(start),
            i <= elements@.len(),
            unique_field_names(elements@),
            forall|k: int| 0 <= k < elements@.len() ==> has_name(start, (#[trigger] elements@[k]).name_view()),
            options@.len() == start.len(),
            forall|j: int| 0 <= j < start.len() ==> (#[trigger] options@[j]).0 == start[j].0,
            forall|k: int|
                0 <= k < i ==> option_named(options@, (#[trigger] elements@[k]).name_view())
                    == elements@[k].option_view(),
            forall|j: int|
                0 <= j < start.len() && (forall|k: int| 0 <= k < i ==> (#[trigger] elements@[k]).name_view() != start[j].0)
                    ==> #[trigger] options@[j] == start[j],
        decreases elements@.len() - i,
    {
        let name = elements[i].get_name();
        let ghost cur = options@;
        let ghost n = name@;
        assert(has_name(start, n));
        let ghost w = place_of(start, n);
        assert(cur[w].0 == n);
        match options.find(name.as_str()) {
            Some(p) => {
                options.set_at(p, elements[i].get_option());
                proof {
                    let nxt = options@;
                    assert(nxt == cur.update(p as int, (cur[p as int].0, elements@[i as int].option_view())));
                    lemma_place_of(nxt, n, p as int);
                    assert forall|k: int|
                        0 <= k < i + 1 implies option_named(nxt, (#[trigger] elements@[k]).name_view())
                        == elements@[k].option_view() by {
                        if k < i {
                            let m = elements@[k].name_view();
                            assert(m != n);
                            let q = place_of(start, m);
                            assert(has_name(start, m));
                            assert(cur[q].0 == m);
                            lemma_place_of(cur, m, q);
                            assert(q != p);
                            lemma_place_of(nxt, m, q);
                        }
                    }
                    assert forall|j: int|
                        0 <= j < start.len() && (forall|k: int| 0 <= k < i + 1 ==> (#[trigger] elements@[k]).name_view() != start[j].0)
                        implies #[trigger] nxt[j] == start[j] by {
                        assert(elements@[i as int].name_view() != start[j].0);
                        assert(j != p);
                    }
                }
            },
            None => {
                assert(false);
            },
        }
        i = i + 1;
    }
}

/// What the caller does after a key press.
pub enum MenuAction {
    Continue,
    /// Leave the editor, keeping the options as they were.
    Quit,
    /// Copy the fields into the options, then leave.
    Done,
}

/// The list of fields and its cursor; the place after the last field is Done.
pub struct OptionMenu {
    elements: Vec<OptionUi>,
    selected: usize,
    editing: bool,
}

/// Every field is ready for Done.
pub open spec fn all_ready(fields: Seq<OptionUi>) -> bool {
    forall|i: int| 0 <= i < fields.len() ==> (#[trigger] fields[i]).ready()
}

impl OptionMenu {
    pub closed spec fn fields(self) -> Seq<OptionUi> {
        self.elements@
    }

    pub closed spec fn cursor(self) -> nat {
        self.selected as nat
    }

    pub closed spec fn in_edit(self) -> bool {
        self.editing
    }

    /// Every field is well formed and named once; the cursor is on a field or on Done;
    /// the field under edit, if any, is going on, and every other line is at rest.
    pub open spec fn wf(self) -> bool {
        &&& forall|i: int| 0 <= i < self.fields().len() ==> (#[trigger] self.fields()[i]).wf()
        &&& unique_field_names(self.fields())
        &&& self.cursor() <= self.fields().len()
        &&& self.in_edit() ==> self.cursor() < self.fields().len()
            && self.fields()[self.cursor() as int].status_view() is Continue
        &&& forall|i: int|
            0 <= i < self.fields().len() && !(self.in_edit() && i == self.cursor()) ==> (
            #[trigger] self.fields()[i]).at_rest()
    }

    /// A menu over the options, with the cursor on the first entry.
    pub fn new(options: &OptionSet) -> (r: OptionMenu)
        requires
            options.wf(),
        ensures
            r.wf(),
            !r.in_edit(),
            r.cursor() == 0,
            r.fields().len() == options@.len(),
            forall|i: int|
                0 <= i < r.fields().len() ==> {
                    &&& (#[trigger] r.fields()[i]).option_view() == options@[i].1
                    &&& r.fields()[i].name_view() == options@[i].0
                    &&& r.fields()[i].status_view() == StatusModel::Continue
                    &&& editor_fits(options@[i].1, r.fields()[i])
                },
    {
        let r = OptionMenu { elements: get_elements(options), selected: 0, editing: false };
        proof {
            options.lemma_unique();
            assert forall|i: int, j: int|
                0 <= i < r.fields().len() && 0 <= j < r.fields().len() && i != j implies (
                #[trigger] r.fields()[i]).name_view() != (#[trigger] r.fields()[j]).name_view() by {
                assert(options@[i].0 != options@[j].0);
            }
        }
        r
    }

    /// Whether Done is enabled: every field is valid, and no mandatory field is empty.
    pub fn is_ready(&self) -> (r: bool)
        ensures
            r == all_ready(self.fields()),
    {
        let mut i: usize = 0;
        while i < self.elements.len()
            invariant
                i <= self.fields().len(),
                forall|k: int| 0 <= k < i ==> (#[trigger] self.fields()[k]).ready(),
            decreases self.fields().len() - i,
        {
            if !self.elements[i].is_ready() {
                return false;
            }
            i = i + 1;
        }
        true
    }

    /// One key press. In the list, Up and Down move the cursor over the fields and Done,
    /// wrapping around; Enter on a field starts its edit, and on Done finishes when every
    /// field is ready (else does nothing); Esc quits. During an edit the key goes to the
    /// field, and the edit ends when the field cancels or finishes.
    pub fn handle_key(&mut self, key: Key) -> (r: MenuAction)
        requires
            old(self).wf(),
        ensures
            final(self).wf(),
            final(self).fields().len() == old(self).fields().len(),
            old(self).in_edit() ==> {
                let i = old(self).cursor() as int;
                &&& r is Continue
                &&& final(self).cursor() == old(self).cursor()
                &&& final(self).fields() == old(self).fields().update(i, final(self).fields()[i])
                &&& old(self).fields()[i].stepped(key, final(self).fields()[i])
                &&& final(self).in_edit() == (final(self).fields()[i].status_view() is Continue)
            },
            !old(self).in_edit() ==> match key {
                Key::Esc => r is Quit && *final(self) == *old(self),
                Key::Up => r is Continue && final(self).fields() == old(self).fields()
                    && !final(self).in_edit() && final(self).cursor() == entry_above(
                    old(self).cursor(),
                    old(self).fields().len() + 1,
                ),
                Key::Down => r is Continue && final(self).fields() == old(self).fields()
                    && !final(self).in_edit() && final(self).cursor() == entry_below(
                    old(self).cursor(),
                    old(self).fields().len() + 1,
                ),
                Key::Enter => if old(self).cursor() == old(self).fields().len() {
                    *final(self) == *old(self) && (if all_ready(old(self).fields()) {
                        r is Done
                    } else {
                        r is Continue
                    })
                } else {
                    let i = old(self).cursor() as int;
                    &&& r is Continue
                    &&& final(self).in_edit()
                    &&& final(self).cursor() == old(self).cursor()
                    &&& final(self).fields() == old(self).fields().update(
                        i,
                        final(self).fields()[i],
                    )
                    &&& old(self).fields()[i].started(final(self).fields()[i])
                },
                _ => r is Continue && *final(self) == *old(self),
            },
    {
        let n = self.elements.len();
        if self.editing {
            let i = self.selected;
            let mut e = self.elements.remove(i);
            e.update_input(key);
            let going_on = match e.get_status() {
                EditorStatus::Continue => true,
                _ => false,
            };
            self.elements.insert(i, e);
            self.editing = going_on;
            assert(self.fields() =~= old(self).fields().update(i as int, self.fields()[i as int]));
            proof {
                let before = old(self).fields()[i as int];
                let after = self.fields()[i as int];
                assert(after.name_view() == before.name_view());
                assert(unique_field_names(self.fields())) by {
                    assert forall|a: int, b: int|
                        0 <= a < self.fields().len() && 0 <= b < self.fields().len() && a != b implies (
                        #[trigger] self.fields()[a]).name_view() != (#[trigger] self.fields()[b]).name_view() by {
                        assert(old(self).fields()[a].name_view() != old(self).fields()[b].name_view());
                    }
                }
                if !going_on {
                    if let (OptionUi::Text(x), OptionUi::Text(y)) = (before, after) {
                        x.lemma_ended_at_rest(key, y);
                    }
                }
            }
            return MenuAction::Continue;
        }
        match key {
            Key::Esc => MenuAction::Quit,
            Key::Up => {
                self.selected = if self.selected == 0 {
                    n
                } else {
                    self.selected - 1
                };
                MenuAction::Continue
            },
            Key::Down => {
                self.selected = if self.selected >= n {
                    0
                } else {
                    self.selected + 1
                };
                MenuAction::Continue
            },
            Key::Enter => {
                if self.selected == n {
                    if self.is_ready() {
                        MenuAction::Done
                    } else {
                        MenuAction::Continue
                    }
                } else {
                    let i = self.selected;
                    let mut e = self.elements.remove(i);
                    e.start_edit();
                    self.elements.insert(i, e);
                    self.editing = true;
                    assert(self.fields() =~= old(self).fields().update(i as int, self.fields()[i as int]));
                    MenuAction::Continue
                }
            },
            _ => MenuAction::Continue,
        }
    }

    /// Copies every field's committed option into `options`, by the field's name.
    pub fn apply_to(&self, options: &mut OptionSet)
        requires
            self.wf(),
            old(options).wf(),
            forall|i: int| 0 <= i < self.fields().len() ==> has_name(old(options)@, (#[trigger] self.fields()[i]).name_view()),
        ensures
            final(options).wf(),
            committed_by_name(old(options)@, self.fields(), final(options)@),
    {
        apply_elements_to_options(options, &self.elements);
    }

    /// The fields, for display.
    pub fn elements(&self) -> (r: &Vec<OptionUi>)
        ensures
            r@ == self.fields(),
    {
        &self.elements
    }

    /// The place of the cursor; the number of fields stands for Done.
    pub fn selected_index(&self) -> (r: usize)
        ensures
            r == self.cursor(),
    {
        self.selected
    }

    /// Whether a field is under edit.
    pub fn is_editing(&self) -> (r: bool)
        ensures
            r == self.in_edit(),
    {
        self.editing
    }
}

/// Out of an edit, when every field is ready (so Done is taken), every field's option
/// may be committed: mandatory options are set and non-empty pattern values match.
pub proof fn lemma_ready_fields_committable(menu: OptionMenu)
    requires
        menu.wf(),
        !menu.in_edit(),
        all_ready(menu.fields()),
    ensures
        forall|i: int|
            0 <= i < menu.fields().len() ==> committable((#[trigger] menu.fields()[i]).option_view()),
{
    assert forall|i: int| 0 <= i < menu.fields().len() implies committable(
        (#[trigger] menu.fields()[i]).option_view(),
    ) by {
        let f = menu.fields()[i];
        assert(f.ready());
        assert(f.at_rest());
        match f {
            OptionUi::Text(e) => e.lemma_kind(),
            OptionUi::Boolean(e) => e.lemma_kind(),
            OptionUi::Number(e) => e.lemma_kind(),
            OptionUi::Choice(e) => e.lemma_kind(),
        }
    }
}

} // verus!
