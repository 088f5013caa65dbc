//! The per-field edit state machines, one for each kind of option.
use vstd::prelude::*;
use tui_input::InputRequest;
use crate::editor::buffer::{handled, EditBuffer};
use crate::float_literal::{float_literal, is_float_literal};
use crate::option::{OptionModel, TemplateOption};
use crate::pattern::{pattern_accepts, pattern_compiles, pattern_matches};
use crate::decimal::{parse_int, parsed_int};
use crate::text::same_text;

verus! {

/// A key press, as the editor sees it.
pub enum Key {
    Esc,
    Enter,
    Up,
    Down,
    /// A key that edits a line of text.
    Edit(InputRequest),
    Other,
}

/// Where an edit stands.
#[derive(Debug, Clone)]
pub enum EditorStatus {
    Continue,
    Cancel,
    Finished { option: TemplateOption },
}

pub enum StatusModel {
    Continue,
    Cancel,
    Finished(OptionModel),
}

impl View for EditorStatus {
    type V = StatusModel;

    open spec fn view(&self) -> StatusModel {
        match self {
            EditorStatus::Continue => StatusModel::Continue,
            EditorStatus::Cancel => StatusModel::Cancel,
            EditorStatus::Finished { option } => StatusModel::Finished(option@),
        }
    }
}

impl EditorStatus {
    pub fn duplicate(&self) -> (r: EditorStatus)
        ensures
            r@ == self@,
    {
        match self {
            EditorStatus::Continue => EditorStatus::Continue,
            EditorStatus::Cancel => EditorStatus::Cancel,
            EditorStatus::Finished { option } => EditorStatus::Finished { option: option.duplicate() },
        }
    }
}

/// The text an edit of the option starts from: its value, or nothing.
pub open spec fn start_text(o: OptionModel) -> Seq<char> {
    match o.value_text() {
        Some(t) => t,
        None => seq![],
    }
}

fn start_buffer(option: &TemplateOption) -> (r: EditBuffer)
    ensures
        r.wf(),
        r.text() == start_text(option@),
        r.position() == start_text(option@).len(),
{
    match option.get_value() {
        Some(v) => EditBuffer::new(v),
        None => EditBuffer::new(String::new()),
    }
}

/// An empty line is valid; so is any line for a kind without a pattern, or with a
/// pattern that does not compile; otherwise the pattern must match.
pub open spec fn text_valid(o: OptionModel, buf: Seq<char>) -> bool {
    buf.len() == 0 || match o {
        OptionModel::Regex { pattern, .. } => pattern_compiles(pattern) ==> pattern_matches(
            pattern,
            buf,
        ),
        _ => true,
    }
}

/// Edits a free text or pattern-constrained option as a line of text.
pub struct TextUI {
    option: TemplateOption,
    input: EditBuffer,
    status: EditorStatus,
    name: String,
}

impl TextUI {
    pub closed spec fn wf(self) -> bool {
        &&& self.input.wf()
        &&& (self.option@ is FreeText || self.option@ is Regex)
    }

    pub closed spec fn option_view(self) -> OptionModel {
        self.option@
    }

    pub closed spec fn status_view(self) -> StatusModel {
        self.status@
    }

    pub closed spec fn name_view(self) -> Seq<char> {
        self.name@
    }

    pub closed spec fn buffer(self) -> Seq<char> {
        self.input.text()
    }

    pub closed spec fn position(self) -> nat {
        self.input.position()
    }

    /// Nothing but the line and its cursor may differ.
    pub open spec fn same_but_line(self, next: TextUI) -> bool {
        &&& next.wf()
        &&& next.name_view() == self.name_view()
        &&& next.option_view() == self.option_view()
        &&& next.status_view() == self.status_view()
    }

    /// One key press: Esc cancels, discarding the line; Enter commits the line when it is
    /// valid; an editing key changes the line; anything else does nothing.
    pub open spec fn stepped(self, key: Key, next: TextUI) -> bool {
        &&& next.wf()
        &&& next.name_view() == self.name_view()
        &&& match key {
            Key::Esc => next.option_view() == self.option_view() && next.buffer() == start_text(
                self.option_view(),
            ) && next.status_view() == StatusModel::Cancel,
            Key::Enter => if text_valid(self.option_view(), self.buffer()) {
                next.option_view() == self.option_view().with_text(self.buffer())
                    && next.status_view() == StatusModel::Finished(next.option_view())
                    && next.buffer() == self.buffer()
            } else {
                self.same_but_line(next) && next.buffer() == self.buffer() && next.position()
                    == self.position()
            },
            Key::Edit(req) => self.same_but_line(next) && handled(
                self.buffer(),
                self.position(),
                req,
                next.buffer(),
                next.position(),
            ),
            _ => self.same_but_line(next) && next.buffer() == self.buffer() && next.position()
                == self.position(),
        }
    }

    /// A text editor holds a free text or pattern-constrained option.
    pub proof fn lemma_kind(self)
        requires
            self.wf(),
        ensures
            self.option_view() is FreeText || self.option_view() is Regex,
    {
    }

    /// An edit that ends leaves the line as the option's text.
    pub proof fn lemma_ended_at_rest(self, key: Key, next: TextUI)
        requires
            self.wf(),
            self.status_view() is Continue,
            self.stepped(key, next),
            !(next.status_view() is Continue),
        ensures
            next.buffer() == start_text(next.option_view()),
    {
        if key is Enter && text_valid(self.option_view(), self.buffer()) {
            if self.buffer().len() == 0 {
                assert(self.buffer() =~= seq![]);
            }
        }
    }

    pub fn new(option: TemplateOption, name: String) -> (r: TextUI)
        requires
            option@ is FreeText || option@ is Regex,
        ensures
            r.wf(),
            r.option_view() == option@,
            r.name_view() == name@,
            r.status_view() == StatusModel::Continue,
            r.buffer() == start_text(option@),
    {
        let input = start_buffer(&option);
        TextUI { option, input, status: EditorStatus::Continue, name }
    }

    /// Starts an edit from the option's value.
    pub fn start_edit(&mut self)
        requires
            old(self).wf(),
        ensures
            final(self).wf(),
            final(self).name_view() == old(self).name_view(),
            final(self).option_view() == old(self).option_view(),
            final(self).status_view() == StatusModel::Continue,
            final(self).buffer() == start_text(old(self).option_view()),
    {
        self.status = EditorStatus::Continue;
        self.input = start_buffer(&self.option);
    }

    pub fn is_valid(&self) -> (r: bool)
        ensures
            r == text_valid(self.option_view(), self.buffer()),
    {
        let value = self.input.value();
        if value.as_str().unicode_len() == 0 {
            return true;
        }
        match &self.option {
            TemplateOption::Regex { pattern, .. } => match pattern_accepts(
                pattern.as_str(),
                value.as_str(),
            ) {
                Some(m) => m,
                None => true,
            },
            _ => true,
        }
    }

    pub fn update_input(&mut self, key: Key)
        requires
            old(self).wf(),
        ensures
            old(self).stepped(key, *final(self)),
    {
        match key {
            Key::Esc => {
                self.status = EditorStatus::Cancel;
                self.input = start_buffer(&self.option);
            },
            Key::Enter => {
                if self.is_valid() {
                    let text = self.input.value().clone();
                    let o = self.option.duplicate().set_value(text);
                    self.status = EditorStatus::Finished { option: o.duplicate() };
                    self.option = o;
                }
            },
            Key::Edit(req) => {
                self.input = self.input.handle(req);
            },
            _ => {},
        }
    }

    pub fn get_status(&self) -> (r: EditorStatus)
        ensures
            r@ == self.status_view(),
    {
        self.status.duplicate()
    }

    pub fn get_option(&self) -> (r: TemplateOption)
        ensures
            r@ == self.option_view(),
    {
        self.option.duplicate()
    }

    pub fn get_name(&self) -> (r: String)
        ensures
            r@ == self.name_view(),
    {
        self.name.clone()
    }

    /// The line under edit.
    pub fn input_value(&self) -> (r: String)
        ensures
            r@ == self.buffer(),
    {
        self.input.value().clone()
    }
}

/// How many entries the boolean menu shows: true, false, and empty unless mandatory.
pub open spec fn bool_entries(mandatory: bool) -> nat {
    if mandatory {
        2
    } else {
        3
    }
}

/// The value that menu entry `i` stands for.
pub open spec fn flag_of(i: nat) -> Option<bool> {
    if i == 0 {
        Some(true)
    } else if i == 1 {
        Some(false)
    } else {
        None
    }
}

/// A boolean option with its value replaced.
pub open spec fn with_flag(o: OptionModel, v: Option<bool>) -> OptionModel {
    match o {
        OptionModel::Boolean { prompt, mandatory, .. } => OptionModel::Boolean {
            prompt,
            value: v,
            mandatory,
        },
        _ => o,
    }
}

/// The entry above `i` in a menu of `n` entries, wrapping around.
pub open spec fn entry_above(i: nat, n: nat) -> nat {
    if i == 0 {
        (n - 1) as nat
    } else {
        (i - 1) as nat
    }
}

/// The entry below `i` in a menu of `n` entries, wrapping around.
pub open spec fn entry_below(i: nat, n: nat) -> nat {
    if i + 1 >= n {
        0
    } else {
        i + 1
    }
}

/// Edits a boolean option by a menu of true, false and (unless mandatory) empty.
pub struct BooleanUI {
    option: TemplateOption,
    status: EditorStatus,
    index: usize,
    name: String,
}

impl BooleanUI {
    pub closed spec fn wf(self) -> bool {
        &&& self.option@ is Boolean
        &&& self.index < bool_entries(self.option@.mandatory())
    }

    pub closed spec fn option_view(self) -> OptionModel {
        self.option@
    }

    pub closed spec fn status_view(self) -> StatusModel {
        self.status@
    }

    pub closed spec fn name_view(self) -> Seq<char> {
        self.name@
    }

    pub closed spec fn selected(self) -> nat {
        self.index as nat
    }

    /// One key press: Up and Down move through the menu, wrapping around; Enter commits
    /// the highlighted entry; Esc cancels.
    pub open spec fn stepped(self, key: Key, next: BooleanUI) -> bool {
        let n = bool_entries(self.option_view().mandatory());
        &&& next.wf()
        &&& next.name_view() == self.name_view()
        &&& match key {
            Key::Esc => next.option_view() == self.option_view() && next.selected()
                == self.selected() && next.status_view() == StatusModel::Cancel,
            Key::Up => next.option_view() == self.option_view() && next.status_view()
                == self.status_view() && next.selected() == entry_above(self.selected(), n),
            Key::Down => next.option_view() == self.option_view() && next.status_view()
                == self.status_view() && next.selected() == entry_below(self.selected(), n),
            Key::Enter => next.option_view() == with_flag(
                self.option_view(),
                flag_of(self.selected()),
            ) && next.status_view() == StatusModel::Finished(next.option_view())
                && next.selected() == self.selected(),
            _ => next.option_view() == self.option_view() && next.status_view()
                == self.status_view() && next.selected() == self.selected(),
        }
    }

    /// A boolean editor holds a boolean option.
    pub proof fn lemma_kind(self)
        requires
            self.wf(),
        ensures
            self.option_view() is Boolean,
    {
    }

    pub fn new(option: TemplateOption, name: String) -> (r: BooleanUI)
        requires
            option@ is Boolean,
        ensures
            r.wf(),
            r.option_view() == option@,
            r.name_view() == name@,
            r.status_view() == StatusModel::Continue,
            r.selected() == 0,
    {
        BooleanUI { option, status: EditorStatus::Continue, index: 0, name }
    }

    /// Starts an edit with the first entry highlighted.
    pub fn start_edit(&mut self)
        requires
            old(self).wf(),
        ensures
            final(self).wf(),
            final(self).name_view() == old(self).name_view(),
            final(self).option_view() == old(self).option_view(),
            final(self).status_view() == StatusModel::Continue,
            final(self).selected() == 0,
    {
        self.status = EditorStatus::Continue;
        self.index = 0;
    }

    fn entry_count(&self) -> (r: usize)
        ensures
            r == bool_entries(self.option@.mandatory()),
    {
        if self.option.is_mandatory() {
            2
        } else {
            3
        }
    }

    pub fn update_input(&mut self, key: Key)
        requires
            old(self).wf(),
        ensures
            old(self).stepped(key, *final(self)),
    {
        let n = self.entry_count();
        match key {
            Key::Esc => {
                self.status = EditorStatus::Cancel;
            },
            Key::Up => {
                self.index = if self.index == 0 {
                    n - 1
                } else {
                    self.index - 1
                };
            },
            Key::Down => {
                self.index = if self.index + 1 >= n {
                    0
                } else {
                    self.index + 1
                };
            },
            Key::Enter => {
                let v = if self.index == 0 {
                    Some(true)
                } else if self.index == 1 {
                    Some(false)
                } else {
                    None
                };
                let o = match &self.option {
                    TemplateOption::Boolean { prompt, mandatory, .. } => TemplateOption::Boolean {
                        prompt: prompt.clone(),
                        value: v,
                        mandatory: *mandatory,
                    },
                    _ => self.option.duplicate(),
                };
                self.status = EditorStatus::Finished { option: o.duplicate() };
                self.option = o;
            },
            _ => {},
        }
    }

    pub fn get_status(&self) -> (r: EditorStatus)
        ensures
            r@ == self.status_view(),
    {
        self.status.duplicate()
    }

    pub fn get_option(&self) -> (r: TemplateOption)
        ensures
            r@ == self.option_view(),
    {
        self.option.duplicate()
    }

    pub fn get_name(&self) -> (r: String)
        ensures
            r@ == self.name_view(),
    {
        self.name.clone()
    }

    /// The highlighted entry.
    pub fn selected_index(&self) -> (r: usize)
        ensures
            r == self.selected(),
    {
        self.index
    }
}

/// No more than one point.
pub open spec fn at_most_one_point(v: Seq<char>) -> bool {
    forall|i: int, j: int| 0 <= i < j < v.len() && #[trigger] v[i] == '.' ==> #[trigger] v[j] != '.'
}

/// The line without a trailing point.
pub open spec fn without_trailing_point(v: Seq<char>) -> Seq<char> {
    if v.len() > 0 && v.last() == '.' {
        v.drop_last()
    } else {
        v
    }
}

/// A float in progress: at most one point, and without a trailing point the line is
/// empty, a lone minus, or a float literal.
pub open spec fn float_in_progress(v: Seq<char>) -> bool {
    let w = without_trailing_point(v);
    at_most_one_point(v) && (w.len() == 0 || w == seq!['-'] || float_literal(w))
}

/// A line that a number field keeps: empty, a lone minus, an integer, or for a float
/// field a float in progress.
pub open spec fn number_text_ok(is_float: bool, v: Seq<char>) -> bool {
    v.len() == 0 || v == seq!['-'] || parsed_int(v) is Some || (is_float && float_in_progress(v))
}

fn has_one_point_at_most(v: &str) -> (r: bool)
    ensures
        r == at_most_one_point(v@),
{
    let n = v.unicode_len();
    let mut seen = false;
    let mut at: usize = 0;
    let mut i: usize = 0;
    while i < n
        invariant
            n == v@.len(),
            i <= n,
            seen ==> at < i && v@[at as int] == '.',
            seen ==> forall|k: int| 0 <= k < i && #[trigger] v@[k] == '.' ==> k == at,
            !seen ==> forall|k: int| 0 <= k < i ==> #[trigger] v@[k] != '.',
        decreases n - i,
    {
        if v.get_char(i) == '.' {
            if seen {
                assert(v@[at as int] == '.' && v@[i as int] == '.');
                return false;
            }
            seen = true;
            at = i;
        }
        i = i + 1;
    }
    true
}

fn float_line_in_progress(v: &str) -> (r: bool)
    ensures
        r == float_in_progress(v@),
{
    if !has_one_point_at_most(v) {
        return false;
    }
    let n = v.unicode_len();
    let w = if n > 0 && v.get_char(n - 1) == '.' {
        v.substring_char(0, n - 1)
    } else {
        v
    };
    assert(w@ =~= without_trailing_point(v@));
    let minus = same_text(w, "-");
    proof {
        reveal_strlit("-");
    }
    assert(("-"@ =~= seq!['-']));
    w.unicode_len() == 0 || minus || is_float_literal(w)
}

fn number_line_ok(is_float: bool, v: &String) -> (r: bool)
    ensures
        r == number_text_ok(is_float, v@),
{
    let minus = same_text(v.as_str(), "-");
    proof {
        reveal_strlit("-");
    }
    assert(("-"@ =~= seq!['-']));
    v.as_str().unicode_len() == 0 || minus || parse_int(v.as_str()).is_some() || (is_float
        && float_line_in_progress(v.as_str()))
}

/// Edits an integer or float option as a line that only ever holds a number in progress.
pub struct NumberUI {
    option: TemplateOption,
    input: EditBuffer,
    status: EditorStatus,
    is_float: bool,
    name: String,
}

impl NumberUI {
    pub closed spec fn wf(self) -> bool {
        &&& self.input.wf()
        &&& (self.option@ is Integer || self.option@ is Float)
    }

    pub closed spec fn option_view(self) -> OptionModel {
        self.option@
    }

    pub closed spec fn status_view(self) -> StatusModel {
        self.status@
    }

    pub closed spec fn name_view(self) -> Seq<char> {
        self.name@
    }

    pub closed spec fn buffer(self) -> Seq<char> {
        self.input.text()
    }

    pub closed spec fn position(self) -> nat {
        self.input.position()
    }

    pub closed spec fn float_field(self) -> bool {
        self.is_float
    }

    /// The line after a key turned it into `w` with cursor `d`: kept when it is a number
    /// in progress, else the line before the key, with the cursor at its end.
    pub open spec fn filtered(self, w: Seq<char>, d: nat, next: NumberUI) -> bool {
        if number_text_ok(self.float_field(), w) {
            next.buffer() == w && next.position() == d
        } else {
            next.buffer() == self.buffer() && next.position() == self.buffer().len()
        }
    }

    /// One key press: Esc cancels, discarding the line; Enter commits the line; any other
    /// key edits the line, and an edit that leaves no number in progress is undone.
    pub open spec fn stepped(self, key: Key, next: NumberUI) -> bool {
        &&& next.wf()
        &&& next.name_view() == self.name_view()
        &&& next.float_field() == self.float_field()
        &&& match key {
            Key::Esc => next.option_view() == self.option_view() && next.buffer() == start_text(
                self.option_view(),
            ) && next.status_view() == StatusModel::Cancel,
            Key::Enter => next.option_view() == self.option_view().with_text(self.buffer())
                && next.status_view() == StatusModel::Finished(next.option_view())
                && next.buffer() == self.buffer(),
            Key::Edit(req) => next.option_view() == self.option_view() && next.status_view()
                == self.status_view() && exists|w: Seq<char>, d: nat|
                handled(self.buffer(), self.position(), req, w, d) && #[trigger] self.filtered(
                    w,
                    d,
                    next,
                ),
            _ => next.option_view() == self.option_view() && next.status_view()
                == self.status_view() && self.filtered(self.buffer(), self.position(), next),
        }
    }

    /// A number editor holds an integer or float option.
    pub proof fn lemma_kind(self)
        requires
            self.wf(),
        ensures
            self.option_view() is Integer || self.option_view() is Float,
    {
    }

    pub fn new(option: TemplateOption, name: String) -> (r: NumberUI)
        requires
            option@ is Integer || option@ is Float,
        ensures
            r.wf(),
            r.option_view() == option@,
            r.name_view() == name@,
            r.status_view() == StatusModel::Continue,
            r.buffer() == start_text(option@),
            r.float_field() == option@ is Float,
    {
        let is_float = match &option {
            TemplateOption::Float { .. } => true,
            _ => false,
        };
        let input = start_buffer(&option);
        NumberUI { option, input, status: EditorStatus::Continue, is_float, name }
    }

    /// Starts an edit from the option's value.
    pub fn start_edit(&mut self)
        requires
            old(self).wf(),
        ensures
            final(self).wf(),
            final(self).name_view() == old(self).name_view(),
            final(self).float_field() == old(self).float_field(),
            final(self).option_view() == old(self).option_view(),
            final(self).status_view() == StatusModel::Continue,
            final(self).buffer() == start_text(old(self).option_view()),
    {
        self.status = EditorStatus::Continue;
        self.input = start_buffer(&self.option);
    }

    /// Keeps `candidate` when it is a number in progress, else goes back to the line before.
    fn keep_if_number(&mut self, candidate: EditBuffer)
        requires
            old(self).wf(),
            candidate.wf(),
        ensures
            final(self).wf(),
            final(self).name_view() == old(self).name_view(),
            final(self).float_field() == old(self).float_field(),
            final(self).option_view() == old(self).option_view(),
            final(self).status_view() == old(self).status_view(),
            old(self).filtered(candidate.text(), candidate.position(), *final(self)),
    {
        if number_line_ok(self.is_float, candidate.value()) {
            self.input = candidate;
        } else {
            self.input = EditBuffer::new(self.input.value().clone());
        }
    }

    pub fn update_input(&mut self, key: Key)
        requires
            old(self).wf(),
        ensures
            old(self).stepped(key, *final(self)),
    {
        match key {
            Key::Esc => {
                self.status = EditorStatus::Cancel;
                self.input = start_buffer(&self.option);
            },
            Key::Enter => {
                let text = self.input.value().clone();
                let o = self.option.duplicate().set_value(text);
                self.status = EditorStatus::Finished { option: o.duplicate() };
                self.option = o;
            },
            Key::Edit(req) => {
                let candidate = self.input.handle(req);
                let ghost before = *self;
                self.keep_if_number(candidate);
                assert(handled(before.buffer(), before.position(), req, candidate.text(), candidate.position()));
                assert(before.filtered(candidate.text(), candidate.position(), *self));
            },
            _ => {
                let candidate = EditBuffer::new(self.input.value().clone());
                let ghost before = *self;
                if number_line_ok(self.is_float, self.input.value()) {
                } else {
                    self.input = candidate;
                }
                assert(before.filtered(before.buffer(), before.position(), *self));
            },
        }
    }

    pub fn get_status(&self) -> (r: EditorStatus)
        ensures
            r@ == self.status_view(),
    {
        self.status.duplicate()
    }

    pub fn get_option(&self) -> (r: TemplateOption)
        ensures
            r@ == self.option_view(),
    {
        self.option.duplicate()
    }

    pub fn get_name(&self) -> (r: String)
        ensures
            r@ == self.name_view(),
    {
        self.name.clone()
    }

    /// The line under edit.
    pub fn input_value(&self) -> (r: String)
        ensures
            r@ == self.buffer(),
    {
        self.input.value().clone()
    }
}

/// The text that entry `i` of a choice menu commits: the choice, or nothing for the
/// trailing empty entry.
pub open spec fn choice_text(options: Seq<Seq<char>>, i: nat) -> Seq<char> {
    if i < options.len() {
        options[i as int]
    } else {
        seq![]
    }
}

/// Edits a choice option by a menu of its choices followed by an empty entry.
pub struct ChoiceUI {
    option: TemplateOption,
    index: usize,
    status: EditorStatus,
    item_count: usize,
    name: String,
}

impl ChoiceUI {
    pub closed spec fn wf(self) -> bool {
        &&& self.option@ is Choice
        &&& self.item_count == self.option@->Choice_options.len()
        &&& self.index <= self.item_count
    }

    pub closed spec fn option_view(self) -> OptionModel {
        self.option@
    }

    pub closed spec fn status_view(self) -> StatusModel {
        self.status@
    }

    pub closed spec fn name_view(self) -> Seq<char> {
        self.name@
    }

    pub closed spec fn selected(self) -> nat {
        self.index as nat
    }

    /// One key press: Up and Down move through the choices and the empty entry,
    /// wrapping around; Enter commits the highlighted entry; Esc cancels.
    pub open spec fn stepped(self, key: Key, next: ChoiceUI) -> bool {
        let options = self.option_view()->Choice_options;
        let n = options.len() + 1;
        &&& next.wf()
        &&& next.name_view() == self.name_view()
        &&& match key {
            Key::Esc => next.option_view() == self.option_view() && next.selected()
                == self.selected() && next.status_view() == StatusModel::Cancel,
            Key::Up => next.option_view() == self.option_view() && next.status_view()
                == self.status_view() && next.selected() == entry_above(self.selected(), n),
            Key::Down => next.option_view() == self.option_view() && next.status_view()
                == self.status_view() && next.selected() == entry_below(self.selected(), n),
            Key::Enter => next.option_view() == self.option_view().with_text(
                choice_text(options, self.selected()),
            ) && next.status_view() == StatusModel::Finished(next.option_view())
                && next.selected() == self.selected(),
            _ => next.option_view() == self.option_view() && next.status_view()
                == self.status_view() && next.selected() == self.selected(),
        }
    }

    /// A choice editor holds a choice option.
    pub proof fn lemma_kind(self)
        requires
            self.wf(),
        ensures
            self.option_view() is Choice,
    {
    }

    pub fn new(option: TemplateOption, name: String) -> (r: ChoiceUI)
        requires
            option@ is Choice,
        ensures
            r.wf(),
            r.option_view() == option@,
            r.name_view() == name@,
            r.status_view() == StatusModel::Continue,
            r.selected() == 0,
    {
        let count = match &option {
            TemplateOption::Choice { options, .. } => options.len(),
            _ => 0,
        };
        ChoiceUI { option, index: 0, status: EditorStatus::Continue, item_count: count, name }
    }

    /// Starts an edit with the first entry highlighted.
    pub fn start_edit(&mut self)
        requires
            old(self).wf(),
        ensures
            final(self).wf(),
            final(self).name_view() == old(self).name_view(),
            final(self).option_view() == old(self).option_view(),
            final(self).status_view() == StatusModel::Continue,
            final(self).selected() == 0,
    {
        self.status = EditorStatus::Continue;
        self.index = 0;
    }

    pub fn update_input(&mut self, key: Key)
        requires
            old(self).wf(),
        ensures
            old(self).stepped(key, *final(self)),
    {
        match key {
            Key::Esc => {
                self.status = EditorStatus::Cancel;
            },
            Key::Up => {
                self.index = if self.index == 0 {
                    self.item_count
                } else {
                    self.index - 1
                };
            },
            Key::Down => {
                self.index = if self.index == self.item_count {
                    0
                } else {
                    self.index + 1
                };
            },
            Key::Enter => {
                let text = match &self.option {
                    TemplateOption::Choice { options, .. } => if self.index < options.len() {
                        options[self.index].clone()
                    } else {
                        String::new()
                    },
                    _ => String::new(),
                };
                let o = self.option.duplicate().set_value(text);
                self.status = EditorStatus::Finished { option: o.duplicate() };
                self.option = o;
            },
            _ => {},
        }
    }

    pub fn get_status(&self) -> (r: EditorStatus)
        ensures
            r@ == self.status_view(),
    {
        self.status.duplicate()
    }

    pub fn get_option(&self) -> (r: TemplateOption)
        ensures
            r@ == self.option_view(),
    {
        self.option.duplicate()
    }

    pub fn get_name(&self) -> (r: String)
        ensures
            r@ == self.name_view(),
    {
        self.name.clone()
    }

    /// The highlighted entry.
    pub fn selected_index(&self) -> (r: usize)
        ensures
            r == self.selected(),
    {
        self.index
    }
}

} // verus!
