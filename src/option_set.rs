//! The options of a template, keyed by name.
use vstd::prelude::*;
use crate::option::{OptionModel, TemplateOption};
use crate::text::same_text;

verus! {

/// Names with unique keys, kept in a stable order.
pub open spec fn unique_names(s: Seq<(Seq<char>, OptionModel)>) -> bool {
    forall|i: int, j: int|
        0 <= i < s.len() && 0 <= j < s.len() && i != j ==> #[trigger] s[i].0 != #[trigger] s[j].0
}

/// Whether `name` is a key of `s`.
pub open spec fn has_name(s: Seq<(Seq<char>, OptionModel)>, name: Seq<char>) -> bool {
    exists|i: int| 0 <= i < s.len() && #[trigger] s[i].0 == name
}

/// The place of `name` in `s`, where it is a key.
pub open spec fn place_of(s: Seq<(Seq<char>, OptionModel)>, name: Seq<char>) -> int {
    choose|i: int| 0 <= i < s.len() && #[trigger] s[i].0 == name
}

/// The option stored under `name`, where it is a key.
pub open spec fn option_named(s: Seq<(Seq<char>, OptionModel)>, name: Seq<char>) -> OptionModel {
    s[place_of(s, name)].1
}

pub proof fn lemma_place_of(s: Seq<(Seq<char>, OptionModel)>, name: Seq<char>, i: int)
    requires
        unique_names(s),
        0 <= i < s.len(),
        s[i].0 == name,
    ensures
        has_name(s, name),
        place_of(s, name) == i,
{
}

/// A mapping from option names to options, in a stable order of insertion.
pub struct OptionSet {
    names: Vec<String>,
    options: Vec<TemplateOption>,
}

impl View for OptionSet {
    type V = Seq<(Seq<char>, OptionModel)>;

    closed spec fn view(&self) -> Seq<(Seq<char>, OptionModel)> {
        Seq::new(self.names@.len(), |i: int| (self.names@[i]@, self.options@[i]@))
    }
}

impl OptionSet {
    /// Names are unique.
    pub closed spec fn wf(&self) -> bool {
        &&& self.names@.len() == self.options@.len()
        &&& unique_names(self@)
    }

    /// A well-formed set has unique names.
    pub proof fn lemma_unique(self)
        requires
            self.wf(),
        ensures
            unique_names(self@),
    {
    }

    pub fn new() -> (r: OptionSet)
        ensures
            r.wf(),
            r@ == Seq::<(Seq<char>, OptionModel)>::empty(),
    {
        let r = OptionSet { names: Vec::new(), options: Vec::new() };
        assert(r@ =~= Seq::<(Seq<char>, OptionModel)>::empty());
        r
    }

    pub fn len(&self) -> (r: usize)
        requires
            self.wf(),
        ensures
            r == self@.len(),
    {
        self.names.len()
    }

    /// The place of `name`, if it is a key.
    pub fn find(&self, name: &str) -> (r: Option<usize>)
        requires
            self.wf(),
        ensures
            r is None <==> !has_name(self@, name@),
            r matches Some(i) ==> i < self@.len() && self@[i as int].0 == name@ && place_of(
                self@,
                name@,
            ) == i,
    {
        let mut i: usize = 0;
        while i < self.names.len()
            invariant
                self.wf(),
                i <= self@.len(),
                forall|k: int| 0 <= k < i ==> (#[trigger] self@[k]).0 != name@,
            decreases self@.len() - i,
        {
            if same_text(self.names[i].as_str(), name) {
                assert(self@[i as int].0 == name@);
                proof {
                    lemma_place_of(self@, name@, i as int);
                }
                return Some(i);
            }
            i = i + 1;
        }
        None
    }

    /// The name at place `i`.
    pub fn name_at(&self, i: usize) -> (r: &String)
        requires
            self.wf(),
            i < self@.len(),
        ensures
            r@ == self@[i as int].0,
    {
        &self.names[i]
    }

    /// The option at place `i`.
    pub fn option_at(&self, i: usize) -> (r: &TemplateOption)
        requires
            self.wf(),
            i < self@.len(),
        ensures
            r@ == self@[i as int].1,
    {
        &self.options[i]
    }

    /// A copy of the options.
    pub fn duplicate(&self) -> (r: OptionSet)
        requires
            self.wf(),
        ensures
            r.wf(),
            r@ == self@,
    {
        let mut r = OptionSet { names: Vec::new(), options: Vec::new() };
        assert(r@ =~= self@.subrange(0, 0));
        let mut i: usize = 0;
        while i < self.names.len()
            invariant
                self.wf(),
                r.wf(),
                i <= self@.len(),
                r.names@.len() == i,
                r@ == self@.subrange(0, i as int),
            decreases self@.len() - i,
        {
            let ghost prev = r@;
            r.names.push(self.names[i].clone());
            r.options.push(self.options[i].duplicate());
            assert(r@ =~= prev.push(self@[i as int]));
            i = i + 1;
            assert(r@ =~= self@.subrange(0, i as int));
        }
        assert(self@.subrange(0, self@.len() as int) =~= self@);
        r
    }

    /// The option stored under `name`.
    pub fn get(&self, name: &str) -> (r: Option<&TemplateOption>)
        requires
            self.wf(),
        ensures
            r is Some == has_name(self@, name@),
            r matches Some(o) ==> o@ == option_named(self@, name@),
    {
        match self.find(name) {
            Some(i) => Some(&self.options[i]),
            None => None,
        }
    }

    /// Replaces the option at place `i`, keeping its name.
    pub fn set_at(&mut self, i: usize, option: TemplateOption)
        requires
            old(self).wf(),
            i < old(self)@.len(),
        ensures
            final(self).wf(),
            final(self)@ == old(self)@.update(i as int, (old(self)@[i as int].0, option@)),
    {
        self.options.set(i, option);
        assert(self@ =~= old(self)@.update(i as int, (old(self)@[i as int].0, option@)));
    }

    /// Stores `option` under `name`: in place of the option that had that name, or last.
    pub fn insert(&mut self, name: String, option: TemplateOption)
        requires
            old(self).wf(),
        ensures
            final(self).wf(),
            has_name(old(self)@, name@) ==> final(self)@ == old(self)@.update(
                place_of(old(self)@, name@),
                (name@, option@),
            ),
            !has_name(old(self)@, name@) ==> final(self)@ == old(self)@.push((name@, option@)),
    {
        match self.find(name.as_str()) {
            Some(i) => {
                self.set_at(i, option);
            },
            None => {
                self.names.push(name);
                self.options.push(option);
                assert(self@ =~= old(self)@.push((name@, option@)));
            },
        }
    }
}

} // verus!
