//! The emission driver: everything that is generated for one declaration,
//! as a structure and as text.

use vstd::prelude::*;
use vstd::string::*;
use crate::accessor::{
    generate_struct_impl, spec_render_block, spec_struct_impl, AccessorBlock, AccessorBlockView,
};
use crate::companion::{
    generate_builder_struct, spec_builder_struct, spec_render_companion, CompanionType,
    CompanionTypeView,
};
use crate::error::GenerationError;
use crate::schema::{SourceLocation, TypeDeclaration, TypeDeclarationView};

verus! {

/// What is generated for one declaration: the accessors of the declared
/// type, and the companion type with its validating constructor, if any.
#[derive(Clone, Debug, PartialEq, Eq)]
pub struct GeneratedUnit {
    pub accessors: AccessorBlock,
    pub companion: CompanionType,
}

pub struct GeneratedUnitView {
    pub accessors: AccessorBlockView,
    pub companion: CompanionTypeView,
}

impl View for GeneratedUnit {
    type V = GeneratedUnitView;

    open spec fn view(&self) -> GeneratedUnitView {
        GeneratedUnitView { accessors: self.accessors@, companion: self.companion@ }
    }
}

/// What is generated for a declaration. The directives of the declaration
/// are read first, so that a declaration that is no record, and then a
/// malformed directive, are reported before a field whose accessor cannot be
/// shaped.
pub open spec fn spec_builder_macro(declaration: TypeDeclarationView) -> Result<
    GeneratedUnitView,
    GenerationError,
> {
    match spec_builder_struct(declaration) {
        Err(error) => Err(error),
        Ok(companion) => match spec_struct_impl(declaration) {
            Err(error) => Err(error),
            Ok(accessors) => Ok(GeneratedUnitView { accessors, companion }),
        },
    }
}

/// The text of a generated unit: the accessor block, then the companion
/// type.
pub open spec fn spec_render_unit(unit: GeneratedUnitView) -> Seq<char> {
    spec_render_block(unit.accessors) + spec_render_companion(unit.companion)
}

/// The text that stands in for generated code when generation fails: an
/// invocation of `compile_error!` with the diagnostic.
pub open spec fn spec_render_error(error: GenerationError) -> Seq<char> {
    "compile_error!(\""@ + error.spec_message() + "\");\n"@
}

/// What stands in for generated code when generation fails: the text of
/// the diagnostic, and the place in the source that it is anchored to.
#[derive(Clone, Debug, PartialEq, Eq)]
pub struct Diagnostic {
    pub text: String,
    pub location: SourceLocation,
}

pub struct DiagnosticView {
    pub text: Seq<char>,
    pub location: SourceLocation,
}

impl View for Diagnostic {
    type V = DiagnosticView;

    open spec fn view(&self) -> DiagnosticView {
        DiagnosticView { text: self.text@, location: self.location }
    }
}

/// The diagnostic of an error: its text, at its place.
pub open spec fn spec_diagnostic(error: GenerationError) -> DiagnosticView {
    DiagnosticView { text: spec_render_error(error), location: error.spec_location() }
}

/// What a declaration derives: the text of the generated unit and nothing
/// else, or, where generation fails, the diagnostic of the error and no
/// generated code.
pub open spec fn spec_derive_builder(declaration: TypeDeclarationView) -> Result<
    Seq<char>,
    DiagnosticView,
> {
    match spec_builder_macro(declaration) {
        Ok(unit) => Ok(spec_render_unit(unit)),
        Err(error) => Err(spec_diagnostic(error)),
    }
}

/// Generates the accessors and the companion type of a declaration.
pub fn generate_builder_macro(declaration: &TypeDeclaration) -> (r: Result<
    GeneratedUnit,
    GenerationError,
>)
    ensures
        match spec_builder_macro(declaration@) {
            Ok(unit) => r matches Ok(found) && found@ == unit,
            Err(error) => r matches Err(e) && e == error,
        },
{
    let companion = match generate_builder_struct(declaration) {
        Ok(companion) => companion,
        Err(error) => {
            return Err(error);
        },
    };
    match generate_struct_impl(declaration) {
        Ok(accessors) => Ok(GeneratedUnit { accessors, companion }),
        Err(error) => Err(error),
    }
}

impl GeneratedUnit {
    /// The text of the unit.
    pub fn render(&self) -> (r: String)
        ensures
            r@ == spec_render_unit(self@),
    {
        let mut text = self.accessors.render();
        let companion = self.companion.render();
        text.append(companion.as_str());
        text
    }
}

/// The text of the diagnostic that stands in for generated code.
pub fn render_error(error: &GenerationError) -> (r: String)
    ensures
        r@ == spec_render_error(*error),
{
    let message = error.message();
    let mut text = String::from_str("compile_error!(\"");
    text.append(message.as_str());
    text.append("\");\n");
    text
}

/// Derives the text for a declaration: the generated code, or, where
/// generation fails, the diagnostic in its place, anchored to the place of
/// the error.
pub fn derive_builder(item: &TypeDeclaration) -> (r: Result<String, Diagnostic>)
    ensures
        match spec_derive_builder(item@) {
            Ok(text) => r matches Ok(found) && found@ == text,
            Err(diagnostic) => r matches Err(found) && found@ == diagnostic,
        },
{
    match generate_builder_macro(item) {
        Ok(unit) => Ok(unit.render()),
        Err(error) => Err(Diagnostic { text: render_error(&error), location: error.location() }),
    }
}

} // verus!
