//! The errors of generation and of construction.

use vstd::prelude::*;
use vstd::string::*;
use crate::schema::SourceLocation;

verus! {

/// The annotations that the generator acts on. Any other annotation is
/// passed over.
#[derive(Clone, Copy, Debug, PartialEq, Eq, Structural)]
pub enum Directive {
    /// On a declaration, with a string argument: the name of the companion type.
    CustomName,
    /// On a declaration: emit the validating constructor.
    GenerateValidator,
    /// On a field: emit a read accessor.
    Expose,
    /// On a field: when no value was set, construction takes the type's default.
    Defaultable,
}

impl Directive {
    /// The name under which the directive is written in an annotation.
    pub open spec fn spec_name(self) -> Seq<char> {
        match self {
            Directive::CustomName => "builder_name"@,
            Directive::GenerateValidator => "gen_build_impl"@,
            Directive::Expose => "getter"@,
            Directive::Defaultable => "optional"@,
        }
    }

    pub fn name(self) -> (r: &'static str)
        ensures
            r@ == self.spec_name(),
    {
        match self {
            Directive::CustomName => "builder_name",
            Directive::GenerateValidator => "gen_build_impl",
            Directive::Expose => "getter",
            Directive::Defaultable => "optional",
        }
    }
}

/// Why nothing was generated for a declaration.
#[derive(Clone, Copy, Debug, PartialEq, Eq, Structural)]
pub enum GenerationError {
    /// The declaration is not a record of named fields.
    UnsupportedShape { location: SourceLocation },
    /// A directive that takes a string argument has none, or has something
    /// that is not a string.
    MalformedDirectiveArgument { directive: Directive, location: SourceLocation },
    /// The element type of a sequence cannot be read off its declared type.
    UnrecognizedGenericShape { location: SourceLocation },
}

impl GenerationError {
    /// The place that the diagnostic is anchored to.
    pub open spec fn spec_location(self) -> SourceLocation {
        match self {
            GenerationError::UnsupportedShape { location } => location,
            GenerationError::MalformedDirectiveArgument { location, .. } => location,
            GenerationError::UnrecognizedGenericShape { location } => location,
        }
    }

    pub fn location(&self) -> (r: SourceLocation)
        ensures
            r == self.spec_location(),
    {
        match self {
            GenerationError::UnsupportedShape { location } => *location,
            GenerationError::MalformedDirectiveArgument { location, .. } => *location,
            GenerationError::UnrecognizedGenericShape { location } => *location,
        }
    }

    /// The text of the diagnostic.
    pub open spec fn spec_message(self) -> Seq<char> {
        match self {
            GenerationError::UnsupportedShape { .. } => "builder is only compatible with structs"@,
            GenerationError::MalformedDirectiveArgument { directive, .. } => "expected a string literal as the argument of "@
                + directive.spec_name(),
            GenerationError::UnrecognizedGenericShape { .. } => "type does not have a single generic type argument"@,
        }
    }

    pub fn message(&self) -> (r: String)
        ensures
            r@ == self.spec_message(),
    {
        match self {
            GenerationError::UnsupportedShape { .. } => String::from_str(
                "builder is only compatible with structs",
            ),
            GenerationError::MalformedDirectiveArgument { directive, .. } => {
                let mut text = String::from_str("expected a string literal as the argument of ");
                text.append(directive.name());
                text
            },
            GenerationError::UnrecognizedGenericShape { .. } => String::from_str(
                "type does not have a single generic type argument",
            ),
        }
    }
}

/// Why the validating constructor did not assemble a value.
#[derive(Clone, Debug, PartialEq, Eq)]
pub enum BuilderError {
    /// A field that has no default was never set; the name is the field's.
    MissingField(String),
}

pub enum BuilderErrorView {
    MissingField(Seq<char>),
}

impl View for BuilderError {
    type V = BuilderErrorView;

    open spec fn view(&self) -> BuilderErrorView {
        match self {
            BuilderError::MissingField(name) => BuilderErrorView::MissingField(name@),
        }
    }
}

impl BuilderError {
    /// The text of the error: the kind, a colon, and the field's name.
    pub open spec fn spec_message(self) -> Seq<char> {
        match self {
            BuilderError::MissingField(name) => "MissingField: "@ + name@,
        }
    }

    pub fn message(&self) -> (r: String)
        ensures
            r@ == self.spec_message(),
    {
        match self {
            BuilderError::MissingField(name) => {
                let mut text = String::from_str("MissingField: ");
                text.append(name.as_str());
                text
            },
        }
    }
}

} // verus!
