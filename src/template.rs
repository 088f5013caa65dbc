//! A template, and the steps that apply it to a destination.
use vstd::prelude::*;
use crate::errors::{ErrorModel, PrefabError};
use crate::option::OptionModel;
use crate::option_set::OptionSet;

verus! {

/// `tera::Tera`, held opaque: the loaded templates and registered functions.
#[verifier::external_type_specification]
#[verifier::external_body]
pub struct ExTera(tera::Tera);

/// `tera::Context`, held opaque: the variables a render sees.
#[verifier::external_type_specification]
#[verifier::external_body]
pub struct ExContext(tera::Context);

/// `tera::Error`, held opaque: why a render failed.
#[verifier::external_type_specification]
#[verifier::external_body]
pub struct ExTeraError(tera::Error);

/// The texts that a `tera::Context` binds, by name.
pub uninterp spec fn bound_texts(c: tera::Context) -> Map<Seq<char>, Seq<char>>;

/// No bindings at all.
pub open spec fn no_bindings() -> Map<Seq<char>, Seq<char>> {
    Map::empty()
}

/// Relies on `tera::Context::new`: an empty context.
#[verifier::external_body]
fn new_context() -> (r: tera::Context)
    ensures
        bound_texts(r) == no_bindings(),
{
    tera::Context::new()
}

/// Relies on `tera::Context::insert`: binds `name` to the text `value`, in place of
/// what `name` was bound to.
#[verifier::external_body]
fn bind_text(ctx: &mut tera::Context, name: &str, value: &str)
    ensures
        bound_texts(*final(ctx)) == bound_texts(*old(ctx)).insert(name@, value@),
{
    ctx.insert(name, value)
}

/// Relies on `tera::Tera::get_template_names`: the names of the loaded templates, which
/// are the paths of the dynamic tree's files; their order is not fixed.
#[verifier::external_body]
fn loaded_template_names(tera: &tera::Tera) -> Vec<String> {
    tera.get_template_names().map(String::from).collect()
}

/// Relies on `tera::Tera::render`: renders a loaded template.
#[verifier::external_body]
fn render_loaded(tera: &tera::Tera, name: &str, ctx: &tera::Context) -> Result<String, tera::Error> {
    tera.render(name, ctx)
}

/// Relies on `tera::Tera::render_str`: renders a one-off template text.
#[verifier::external_body]
fn render_text(tera: &mut tera::Tera, text: &str, ctx: &tera::Context) -> Result<
    String,
    tera::Error,
> {
    tera.render_str(text, ctx)
}

/// A render's result, with a failure reported as a `RenderError` naming `subject`.
pub fn render_outcome(result: Result<String, tera::Error>, subject: &str) -> (r: Result<
    String,
    PrefabError,
>)
    ensures
        result is Ok <==> r is Ok,
        r matches Ok(s) ==> s@ == result->Ok_0@,
        r matches Err(e) ==> e@ == ErrorModel::RenderError(subject@),
{
    match result {
        Ok(s) => Ok(s),
        Err(_) => Err(PrefabError::RenderError(subject.to_string())),
    }
}

/// The render context of a sequence of options: each set option's name with its
/// value's text, in order; unset options are left out.
pub open spec fn context_of(s: Seq<(Seq<char>, OptionModel)>) -> Seq<(Seq<char>, Seq<char>)>
    decreases s.len(),
{
    if s.len() == 0 {
        seq![]
    } else {
        let rest = context_of(s.drop_last());
        match s.last().1.value_text() {
            Some(v) => rest.push((s.last().0, v)),
            None => rest,
        }
    }
}

/// The bindings that a sequence of names and texts makes, a later one for a name
/// replacing an earlier one.
pub open spec fn pairs_map(s: Seq<(Seq<char>, Seq<char>)>) -> Map<Seq<char>, Seq<char>>
    decreases s.len(),
{
    if s.len() == 0 {
        no_bindings()
    } else {
        pairs_map(s.drop_last()).insert(s.last().0, s.last().1)
    }
}

pub open spec fn pair_view(p: (String, String)) -> (Seq<char>, Seq<char>) {
    (p.0@, p.1@)
}

/// The names and value texts that a render sees, built fresh from the options.
pub fn context_values(options: &OptionSet) -> (r: Vec<(String, String)>)
    requires
        options.wf(),
    ensures
        r@.map_values(|p: (String, String)| pair_view(p)) == context_of(options@),
{
    let mut r: Vec<(String, String)> = Vec::new();
    let mut i: usize = 0;
    assert(options@.subrange(0, 0) =~= Seq::<(Seq<char>, OptionModel)>::empty());
    assert(r@.map_values(|p: (String, String)| pair_view(p)) =~= Seq::<(Seq<char>, Seq<char>)>::empty());
    while i < options.len()
        invariant
            options.wf(),
            i <= options@.len(),
            r@.map_values(|p: (String, String)| pair_view(p)) == context_of(
                options@.subrange(0, i as int),
            ),
        decreases options@.len() - i,
    {
        let ghost prev = r@;
        let ghost s = options@.subrange(0, i + 1);
        assert(s.drop_last() =~= options@.subrange(0, i as int));
        if let Some(v) = options.option_at(i).get_value() {
            r.push((options.name_at(i).clone(), v));
            assert(r@.map_values(|p: (String, String)| pair_view(p)) =~= prev.map_values(
                |p: (String, String)| pair_view(p),
            ).push(pair_view(r@.last())));
        }
        i = i + 1;
    }
    assert(options@.subrange(0, options@.len() as int) =~= options@);
    r
}

/// The first option that is not valid, if any.
pub open spec fn first_invalid(s: Seq<(Seq<char>, OptionModel)>) -> Option<int> {
    if exists|i: int| 0 <= i < s.len() && !(#[trigger] s[i].1.valid()) {
        Some(
            choose|i: int|
                0 <= i < s.len() && !(#[trigger] s[i].1.valid()) && forall|j: int|
                    0 <= j < i ==> (#[trigger] s[j].1).valid(),
        )
    } else {
        None
    }
}

/// An option lets the template apply: its value is valid, and it is set if mandatory.
pub open spec fn applicable(o: OptionModel) -> bool {
    o.valid() && !(o.is_unset() && o.mandatory())
}

/// The first option that stops the template from applying, if any.
pub open spec fn first_blocked(s: Seq<(Seq<char>, OptionModel)>) -> Option<int> {
    if exists|i: int| 0 <= i < s.len() && !applicable(#[trigger] s[i].1) {
        Some(
            choose|i: int|
                0 <= i < s.len() && !applicable(#[trigger] s[i].1) && forall|j: int|
                    0 <= j < i ==> applicable(#[trigger] s[j].1),
        )
    } else {
        None
    }
}

/// The error for an option that stops the template from applying.
pub open spec fn blocking_error(name: Seq<char>, o: OptionModel) -> ErrorModel {
    if !o.valid() {
        ErrorModel::ValidationError(name)
    } else {
        ErrorModel::MissingValue(name)
    }
}

/// What a template declares: descriptive texts, the hooks, and the options.
pub struct Manifest {
    pub title: Option<String>,
    pub author: Option<String>,
    pub description: Option<String>,
    pub before_hook: Option<String>,
    pub after_hook: Option<String>,
    pub options: OptionSet,
}

impl Manifest {
    /// Fails on the first option, in order, whose value is not valid, naming it.
    pub fn validate_options(&self) -> (r: Result<(), PrefabError>)
        requires
            self.options.wf(),
        ensures
            r is Ok <==> first_invalid(self.options@) is None,
            r matches Err(e) ==> e@ == ErrorModel::ValidationError(
                self.options@[first_invalid(self.options@)->0].0,
            ),
    {
        let mut i: usize = 0;
        while i < self.options.len()
            invariant
                self.options.wf(),
                i <= self.options@.len(),
                forall|j: int| 0 <= j < i ==> (#[trigger] self.options@[j].1).valid(),
            decreases self.options@.len() - i,
        {
            if !self.options.option_at(i).validate() {
                let ghost s = self.options@;
                assert(!s[i as int].1.valid());
                let ghost k = first_invalid(s)->0;
                assert(0 <= k < s.len() && !s[k].1.valid() && forall|j: int|
                    0 <= j < k ==> (#[trigger] s[j].1).valid());
                assert(k == i) by {
                    if k < i {
                        assert(s[k].1.valid());
                    }
                    if k > i {
                        assert(s[i as int].1.valid());
                    }
                }
                return Err(PrefabError::ValidationError(self.options.name_at(i).clone()));
            }
            i = i + 1;
        }
        Ok(())
    }
}

impl Manifest {
    /// Whether the options let the template apply: fails on the first option, in order, whose value is not valid
    /// (`ValidationError`) or that is mandatory and unset (`MissingValue`), naming it.
    pub fn check_applicable(&self) -> (r: Result<(), PrefabError>)
        requires
            self.options.wf(),
        ensures
            r is Ok <==> first_blocked(self.options@) is None,
            r matches Err(e) ==> e@ == blocking_error(
                self.options@[first_blocked(self.options@)->0].0,
                self.options@[first_blocked(self.options@)->0].1,
            ),
    {
        let mut i: usize = 0;
        while i < self.options.len()
            invariant
                self.options.wf(),
                i <= self.options@.len(),
                forall|j: int| 0 <= j < i ==> applicable(#[trigger] self.options@[j].1),
            decreases self.options@.len() - i,
        {
            let o = self.options.option_at(i);
            let valid = o.validate();
            if !valid || (o.is_empty() && o.is_mandatory()) {
                let ghost s = self.options@;
                assert(!applicable(s[i as int].1));
                let ghost k = first_blocked(s)->0;
                assert(0 <= k < s.len() && !applicable(s[k].1) && forall|j: int|
                    0 <= j < k ==> applicable(#[trigger] s[j].1));
                assert(k == i) by {
                    if k < i {
                        assert(applicable(s[k].1));
                    }
                    if k > i {
                        assert(applicable(s[i as int].1));
                    }
                }
                let name = self.options.name_at(i).clone();
                if !valid {
                    return Err(PrefabError::ValidationError(name));
                } else {
                    return Err(PrefabError::MissingValue(name));
                }
            }
            i = i + 1;
        }
        Ok(())
    }
}

/// Where the application of a template stands.
#[derive(Debug, Clone, Copy, PartialEq, Eq)]
pub enum ApplyStep {
    Validate,
    BeforeHook,
    /// Rendering the dynamic file with this place among the template's names.
    Render(usize),
    CopyStatic,
    AfterHook,
    Finished,
}

/// What the caller does for a step.
pub enum ApplyAction {
    /// Nothing to do for this step.
    Nothing,
    /// Run `command` in the destination, with the template's source path in the
    /// environment variable `PREFAB_TEMPLATE`.
    RunHook { command: String, template_path: String },
    /// Write `content` to `path`, relative to the destination, creating directories.
    WriteFile { path: String, content: String },
    /// Copy the static tree, if there is one, into the destination, rendering names.
    CopyStatic,
    /// The template is applied.
    Done,
}

/// The kind of an entry of the static tree.
pub enum EntryKind {
    File,
    Directory,
    Other,
}

/// What to do with an entry of the static tree.
pub enum StaticEntry {
    /// Copy the file byte for byte under the rendered name.
    CopyFile { name: String },
    /// Copy the directory, entry by entry, under the rendered name.
    CopyDirectory { name: String },
    /// Neither a file nor a directory.
    Skip,
}

/// A template: its manifest, where it was loaded from, and its loaded dynamic tree.
pub struct Template {
    tera: tera::Tera,
    names: Vec<String>,
    manifest: Manifest,
    source_path: String,
}

impl Template {
    pub closed spec fn manifest_view(self) -> Manifest {
        self.manifest
    }

    pub closed spec fn source_view(self) -> Seq<char> {
        self.source_path@
    }

    pub closed spec fn file_count(self) -> nat {
        self.names@.len()
    }

    pub closed spec fn file_name(self, i: int) -> Seq<char> {
        self.names@[i]@
    }

    pub open spec fn wf(self) -> bool {
        self.manifest_view().options.wf()
    }

    /// A template over the dynamic tree that `tera` loaded.
    pub fn new(tera: tera::Tera, manifest: Manifest, source_path: String) -> (r: Template)
        ensures
            r.manifest_view() == manifest,
            r.source_view() == source_path@,
    {
        let names = loaded_template_names(&tera);
        Template { tera, names, manifest, source_path }
    }

    /// The manifest.
    pub fn manifest(&self) -> (r: &Manifest)
        ensures
            *r == self.manifest_view(),
    {
        &self.manifest
    }

    /// Where the template was loaded from.
    pub fn source_path(&self) -> (r: &String)
        ensures
            r@ == self.source_view(),
    {
        &self.source_path
    }

    /// The number of files in the dynamic tree.
    pub fn file_total(&self) -> (r: usize)
        ensures
            r == self.file_count(),
    {
        self.names.len()
    }

    /// A fresh context that binds each set option's name to its value's text.
    fn get_context(&self) -> (r: tera::Context)
        requires
            self.wf(),
        ensures
            bound_texts(r) == pairs_map(context_of(self.manifest_view().options@)),
    {
        let values = context_values(&self.manifest.options);
        let ghost pairs = values@.map_values(|p: (String, String)| pair_view(p));
        let mut ctx = new_context();
        let mut i: usize = 0;
        assert(pairs.subrange(0, 0) =~= Seq::<(Seq<char>, Seq<char>)>::empty());
        while i < values.len()
            invariant
                i <= values@.len(),
                pairs == values@.map_values(|p: (String, String)| pair_view(p)),
                bound_texts(ctx) == pairs_map(pairs.subrange(0, i as int)),
            decreases values@.len() - i,
        {
            bind_text(&mut ctx, values[i].0.as_str(), values[i].1.as_str());
            assert(pairs.subrange(0, i + 1).drop_last() =~= pairs.subrange(0, i as int));
            i = i + 1;
        }
        assert(pairs.subrange(0, values@.len() as int) =~= pairs);
        ctx
    }

    /// Renders a path (or a path segment) against the options.
    pub fn render_file_path(&mut self, path: &str) -> (r: Result<String, PrefabError>)
        requires
            old(self).wf(),
        ensures
            final(self).wf(),
            final(self).manifest_view() == old(self).manifest_view(),
            final(self).source_view() == old(self).source_view(),
            final(self).file_count() == old(self).file_count(),
            forall|i: int| 0 <= i < old(self).file_count() ==> final(self).file_name(i) == old(self).file_name(i),
            r matches Err(e) ==> e@ == ErrorModel::RenderError(path@),
    {
        let ctx = self.get_context();
        render_outcome(render_text(&mut self.tera, path, &ctx), path)
    }

    /// What to do with an entry of the static tree named `name`: its name renders like a
    /// dynamic path, and its content, if it is a file, is never rendered.
    pub fn static_entry(&mut self, name: &str, kind: EntryKind) -> (r: Result<StaticEntry, PrefabError>)
        requires
            old(self).wf(),
        ensures
            final(self).wf(),
            final(self).manifest_view() == old(self).manifest_view(),
            final(self).source_view() == old(self).source_view(),
            final(self).file_count() == old(self).file_count(),
            r matches Err(e) ==> e@ == ErrorModel::RenderError(name@),
            r matches Ok(a) ==> match kind {
                EntryKind::File => a is CopyFile,
                EntryKind::Directory => a is CopyDirectory,
                EntryKind::Other => a is Skip,
            },
    {
        let rendered = self.render_file_path(name)?;
        Ok(
            match kind {
                EntryKind::File => StaticEntry::CopyFile { name: rendered },
                EntryKind::Directory => StaticEntry::CopyDirectory { name: rendered },
                EntryKind::Other => StaticEntry::Skip,
            },
        )
    }

    /// The options, copied.
    pub fn get_options(&self) -> (r: OptionSet)
        requires
            self.wf(),
        ensures
            r.wf(),
            r@ == self.manifest_view().options@,
    {
        self.manifest.options.duplicate()
    }

    /// Replaces the options.
    pub fn set_options(&mut self, options: OptionSet)
        ensures
            final(self).manifest_view().options == options,
            final(self).manifest_view().before_hook == old(self).manifest_view().before_hook,
            final(self).manifest_view().after_hook == old(self).manifest_view().after_hook,
            final(self).source_view() == old(self).source_view(),
            final(self).file_count() == old(self).file_count(),
    {
        self.manifest.options = options;
    }

    /// The action for `step`, and the step after it.
    ///
    /// The steps, in order: the check of the options, which fails on the first option that is invalid or
    /// mandatory and unset; the before hook; one file of the dynamic tree per step; the
    /// static tree; the after hook. A file whose content or path does not render fails
    /// with a `RenderError` naming it.
    pub fn apply_step(&mut self, step: ApplyStep) -> (r: Result<(ApplyAction, ApplyStep), PrefabError>)
        requires
            old(self).wf(),
        ensures
            final(self).wf(),
            final(self).manifest_view() == old(self).manifest_view(),
            final(self).source_view() == old(self).source_view(),
            final(self).file_count() == old(self).file_count(),
            forall|i: int| 0 <= i < old(self).file_count() ==> final(self).file_name(i) == old(self).file_name(i),
            match step {
                ApplyStep::Validate => match first_blocked(old(self).manifest_view().options@) {
                    Some(i) => r matches Err(e) && e@ == blocking_error(
                        old(self).manifest_view().options@[i].0,
                        old(self).manifest_view().options@[i].1,
                    ),
                    None => r matches Ok((a, s)) && a is Nothing && s == ApplyStep::BeforeHook,
                },
                ApplyStep::BeforeHook => r matches Ok((a, s)) && s == ApplyStep::Render(0) && match old(self).manifest_view().before_hook {
                    Some(h) => a matches ApplyAction::RunHook { command, template_path } && command@
                        == h@ && template_path@ == old(self).source_view(),
                    None => a is Nothing,
                },
                ApplyStep::Render(i) => if i < old(self).file_count() {
                    (r matches Ok((a, s)) ==> a is WriteFile && s == ApplyStep::Render(
                        (i + 1) as usize,
                    )) && (r matches Err(e) ==> e@ == ErrorModel::RenderError(
                        old(self).file_name(i as int),
                    ))
                } else {
                    r matches Ok((a, s)) && a is CopyStatic && s == ApplyStep::AfterHook
                },
                ApplyStep::CopyStatic => r matches Ok((a, s)) && a is CopyStatic && s
                    == ApplyStep::AfterHook,
                ApplyStep::AfterHook => r matches Ok((a, s)) && s == ApplyStep::Finished && match old(self).manifest_view().after_hook {
                    Some(h) => a matches ApplyAction::RunHook { command, template_path } && command@
                        == h@ && template_path@ == old(self).source_view(),
                    None => a is Nothing,
                },
                ApplyStep::Finished => r matches Ok((a, s)) && a is Done && s == ApplyStep::Finished,
            },
    {
        match step {
            ApplyStep::Validate => {
                self.manifest.check_applicable()?;
                Ok((ApplyAction::Nothing, ApplyStep::BeforeHook))
            },
            ApplyStep::BeforeHook => {
                let a = self.hook_action(true);
                Ok((a, ApplyStep::Render(0)))
            },
            ApplyStep::Render(i) => {
                if i < self.names.len() {
                    let name = self.names[i].clone();
                    let ctx = self.get_context();
                    let content = render_outcome(
                        render_loaded(&self.tera, name.as_str(), &ctx),
                        name.as_str(),
                    )?;
                    let rendered = render_outcome(
                        render_text(&mut self.tera, name.as_str(), &ctx),
                        name.as_str(),
                    )?;
                    Ok((ApplyAction::WriteFile { path: rendered, content }, ApplyStep::Render(i + 1)))
                } else {
                    Ok((ApplyAction::CopyStatic, ApplyStep::AfterHook))
                }
            },
            ApplyStep::CopyStatic => Ok((ApplyAction::CopyStatic, ApplyStep::AfterHook)),
            ApplyStep::AfterHook => {
                let a = self.hook_action(false);
                Ok((a, ApplyStep::Finished))
            },
            ApplyStep::Finished => Ok((ApplyAction::Done, ApplyStep::Finished)),
        }
    }

    fn hook_action(&self, before: bool) -> (r: ApplyAction)
        ensures
            match (if before {
                self.manifest_view().before_hook
            } else {
                self.manifest_view().after_hook
            }) {
                Some(h) => r matches ApplyAction::RunHook { command, template_path } && command@
                    == h@ && template_path@ == self.source_view(),
                None => r is Nothing,
            },
    {
        let hook = if before {
            &self.manifest.before_hook
        } else {
            &self.manifest.after_hook
        };
        match hook {
            Some(h) => ApplyAction::RunHook {
                command: h.clone(),
                template_path: self.source_path.clone(),
            },
            None => ApplyAction::Nothing,
        }
    }
}

} // verus!
