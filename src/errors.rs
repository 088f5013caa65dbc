use vstd::prelude::*;

verus! {

/// Every failure that the library reports to its caller.
#[derive(Debug, Clone, PartialEq, Eq)]
pub enum PrefabError {
    /// No template (manifest) could be found at the given place.
    TemplateNotFound(String),
    /// The manifest could not be read as a manifest.
    ManifestParseError(String),
    /// A configuration value's type disagrees with the kind of the option it names.
    OptionTypeMismatch(String),
    /// A configuration or override names an option that the manifest does not declare.
    UnknownOptionName(String),
    /// A configuration text that is not a table of scalars.
    ConfigParseError(String),
    /// An option's value breaks its pattern or is not one of its choices.
    ValidationError(String),
    /// A mandatory option has no value.
    MissingValue(String),
    /// A template text or a path could not be rendered.
    RenderError(String),
    /// A directory or a file could not be created or written.
    IoError(String),
}

/// The mathematical value of a `PrefabError`.
pub enum ErrorModel {
    TemplateNotFound(Seq<char>),
    ManifestParseError(Seq<char>),
    OptionTypeMismatch(Seq<char>),
    UnknownOptionName(Seq<char>),
    ConfigParseError(Seq<char>),
    ValidationError(Seq<char>),
    MissingValue(Seq<char>),
    RenderError(Seq<char>),
    IoError(Seq<char>),
}

impl View for PrefabError {
    type V = ErrorModel;

    open spec fn view(&self) -> ErrorModel {
        match self {
            PrefabError::TemplateNotFound(s) => ErrorModel::TemplateNotFound(s@),
            PrefabError::ManifestParseError(s) => ErrorModel::ManifestParseError(s@),
            PrefabError::OptionTypeMismatch(s) => ErrorModel::OptionTypeMismatch(s@),
            PrefabError::UnknownOptionName(s) => ErrorModel::UnknownOptionName(s@),
            PrefabError::ConfigParseError(s) => ErrorModel::ConfigParseError(s@),
            PrefabError::ValidationError(s) => ErrorModel::ValidationError(s@),
            PrefabError::MissingValue(s) => ErrorModel::MissingValue(s@),
            PrefabError::RenderError(s) => ErrorModel::RenderError(s@),
            PrefabError::IoError(s) => ErrorModel::IoError(s@),
        }
    }
}

} // verus!
