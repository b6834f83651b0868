//! The directive parser: which of the known directives the annotations of a
//! declaration or of a field carry, and what the declaration's fields are.
//!
//! An annotation that is written under no directive's name is passed over.
//! A directive of a declaration is known by its name alone. A directive of
//! a field is known by its name on an annotation that can be read: one
//! whose argument is unreadable is passed over.

use vstd::prelude::*;
use vstd::string::*;
use crate::error::{Directive, GenerationError};
use crate::schema::{
    views, Annotation, AnnotationView, Argument, ArgumentView, Body, BodyView, Field, FieldView,
    TypeDeclaration, TypeDeclarationView,
};
use crate::text::text_eq;

verus! {

/// Some annotation is written under the directive's name. What follows the
/// name plays no part.
pub open spec fn spec_has_directive(annotations: Seq<AnnotationView>, directive: Directive) -> bool {
    exists|i: int|
        0 <= i < annotations.len() && (#[trigger] annotations[i]).name == directive.spec_name()
}

/// Some annotation that can be read is written under the directive's name.
/// An argument that can be read plays no part.
pub open spec fn spec_has_helper(annotations: Seq<AnnotationView>, directive: Directive) -> bool {
    exists|i: int|
        0 <= i < annotations.len() && (#[trigger] annotations[i]).name == directive.spec_name()
            && annotations[i].argument != ArgumentView::Unreadable
}

/// The position of the first annotation at or after `start` that is written
/// under the name; the number of annotations where there is none.
pub open spec fn first_named_from(annotations: Seq<AnnotationView>, name: Seq<char>, start: int) -> int
    decreases annotations.len() - start,
{
    if start < 0 || start >= annotations.len() {
        annotations.len() as int
    } else if annotations[start].name == name {
        start
    } else {
        first_named_from(annotations, name, start + 1)
    }
}

/// The position of the first annotation that is written under the name; the
/// number of annotations where there is none.
pub open spec fn first_named(annotations: Seq<AnnotationView>, name: Seq<char>) -> int {
    first_named_from(annotations, name, 0)
}

/// What one annotation says of the companion type's name: nothing where it is
/// not the custom-name directive, the name where its argument is a string,
/// and an error at its place otherwise.
pub open spec fn spec_extract_builder_name(annotation: AnnotationView) -> Result<
    Option<Seq<char>>,
    GenerationError,
> {
    if annotation.name != Directive::CustomName.spec_name() {
        Ok(None)
    } else {
        match annotation.argument {
            ArgumentView::Text(text) => Ok(Some(text)),
            _ => Err(
                GenerationError::MalformedDirectiveArgument {
                    directive: Directive::CustomName,
                    location: annotation.location,
                },
            ),
        }
    }
}

/// The custom name that the annotations give: that of the first custom-name
/// directive among them, which alone decides.
pub open spec fn spec_custom_name(annotations: Seq<AnnotationView>) -> Result<
    Option<Seq<char>>,
    GenerationError,
> {
    let first = first_named(annotations, Directive::CustomName.spec_name());
    if first >= annotations.len() {
        Ok(None)
    } else {
        spec_extract_builder_name(annotations[first])
    }
}

/// The name of a companion type: the custom name as it is written, or else
/// the declaration's name followed by `Builder`.
pub open spec fn spec_companion_name(custom_name: Option<Seq<char>>, declaration: Seq<char>) -> Seq<
    char,
> {
    match custom_name {
        Some(name) => name,
        None => declaration + "Builder"@,
    }
}

/// The name of the companion type of a declaration.
pub open spec fn spec_builder_name(declaration: TypeDeclarationView) -> Result<
    Seq<char>,
    GenerationError,
> {
    match spec_custom_name(declaration.annotations) {
        Ok(custom_name) => Ok(spec_companion_name(custom_name, declaration.name)),
        Err(error) => Err(error),
    }
}

/// The fields of a record; an error at the declaration for any other body.
pub open spec fn spec_struct_fields(declaration: TypeDeclarationView) -> Result<
    Seq<FieldView>,
    GenerationError,
> {
    match declaration.body {
        BodyView::Record(fields) => Ok(fields),
        _ => Err(GenerationError::UnsupportedShape { location: declaration.location }),
    }
}

/// The directives of a field.
#[derive(Clone, Copy, Debug, PartialEq, Eq, Structural)]
pub struct FieldDirectives {
    /// The field gets a read accessor.
    pub expose: bool,
    /// The field may be left unset.
    pub defaultable: bool,
}

/// The directives of a declaration.
#[derive(Clone, Debug, PartialEq, Eq)]
pub struct DeclarationDirectives {
    /// The name that the companion type is to have.
    pub custom_name: Option<String>,
    /// The validating constructor is to be generated.
    pub generate_validator: bool,
}

pub struct DeclarationDirectivesView {
    pub custom_name: Option<Seq<char>>,
    pub generate_validator: bool,
}

impl View for DeclarationDirectives {
    type V = DeclarationDirectivesView;

    open spec fn view(&self) -> DeclarationDirectivesView {
        DeclarationDirectivesView {
            custom_name: match self.custom_name {
                Some(name) => Some(name@),
                None => None,
            },
            generate_validator: self.generate_validator,
        }
    }
}

/// The directives that the annotations of a field carry.
pub open spec fn spec_field_directives(annotations: Seq<AnnotationView>) -> FieldDirectives {
    FieldDirectives {
        expose: spec_has_helper(annotations, Directive::Expose),
        defaultable: spec_has_helper(annotations, Directive::Defaultable),
    }
}

/// The directives of a declaration. A declaration that is no record is
/// refused before its annotations are read; a custom-name directive without
/// a string argument is refused at its place.
pub open spec fn spec_declaration_directives(declaration: TypeDeclarationView) -> Result<
    DeclarationDirectivesView,
    GenerationError,
> {
    match spec_struct_fields(declaration) {
        Err(error) => Err(error),
        Ok(_) => match spec_custom_name(declaration.annotations) {
            Err(error) => Err(error),
            Ok(custom_name) => Ok(
                DeclarationDirectivesView {
                    custom_name,
                    generate_validator: spec_has_directive(
                        declaration.annotations,
                        Directive::GenerateValidator,
                    ),
                },
            ),
        },
    }
}

/// `first_named` is the least position of an annotation under the name.
pub proof fn lemma_first_named(annotations: Seq<AnnotationView>, name: Seq<char>, start: int)
    requires
        0 <= start <= annotations.len(),
    ensures
        start <= first_named_from(annotations, name, start) <= annotations.len(),
        forall|j: int|
            start <= j < first_named_from(annotations, name, start) ==> (
            #[trigger] annotations[j]).name != name,
        first_named_from(annotations, name, start) < annotations.len()
            ==> annotations[first_named_from(annotations, name, start)].name == name,
    decreases annotations.len() - start,
{
    if start < annotations.len() && annotations[start].name != name {
        lemma_first_named(annotations, name, start + 1);
    }
}

/// Whether some annotation among these is written under the directive's
/// name, whatever follows the name.
pub fn has_directive(annotations: &Vec<Annotation>, directive: Directive) -> (r: bool)
    ensures
        r == spec_has_directive(views(annotations@), directive),
{
    let mut i: usize = 0;
    while i < annotations.len()
        invariant
            i <= annotations.len(),
            forall|j: int|
                0 <= j < i ==> (#[trigger] views(annotations@)[j]).name != directive.spec_name(),
        decreases annotations.len() - i,
    {
        if text_eq(annotations[i].name.as_str(), directive.name()) {
            assert(views(annotations@)[i as int].name == directive.spec_name());
            return true;
        }
        i += 1;
    }
    false
}

/// Whether the field carries the directive, on an annotation that can be
/// read.
pub fn has_helper_attribute(field: &Field, directive: Directive) -> (r: bool)
    ensures
        r == spec_has_helper(field@.annotations, directive),
{
    let ghost all = views(field.annotations@);
    let mut i: usize = 0;
    while i < field.annotations.len()
        invariant
            i <= field.annotations.len(),
            all == views(field.annotations@),
            forall|j: int|
                0 <= j < i ==> !((#[trigger] all[j]).name == directive.spec_name()
                    && all[j].argument != ArgumentView::Unreadable),
        decreases field.annotations.len() - i,
    {
        let annotation = &field.annotations[i];
        let readable = match &annotation.argument {
            Argument::Unreadable => false,
            _ => true,
        };
        if readable && text_eq(annotation.name.as_str(), directive.name()) {
            assert(all[i as int].name == directive.spec_name() && all[i as int].argument
                != ArgumentView::Unreadable);
            return true;
        }
        i += 1;
    }
    false
}

/// Whether the field is to get a read accessor.
pub fn has_getter_attr(field: &Field) -> (r: bool)
    ensures
        r == spec_has_helper(field@.annotations, Directive::Expose),
{
    has_helper_attribute(field, Directive::Expose)
}

/// Whether the field may be left unset.
pub fn has_optional_attr(field: &Field) -> (r: bool)
    ensures
        r == spec_has_helper(field@.annotations, Directive::Defaultable),
{
    has_helper_attribute(field, Directive::Defaultable)
}

/// Whether the annotations of a declaration ask for the validating
/// constructor.
pub fn has_gen_build_fn_attr(annotations: &Vec<Annotation>) -> (r: bool)
    ensures
        r == spec_has_directive(views(annotations@), Directive::GenerateValidator),
{
    has_directive(annotations, Directive::GenerateValidator)
}

/// What one annotation says of the companion type's name.
pub fn extract_builder_name(annotation: &Annotation) -> (r: Result<Option<String>, GenerationError>)
    ensures
        match spec_extract_builder_name(annotation@) {
            Ok(Some(text)) => r matches Ok(Some(name)) && name@ == text,
            Ok(None) => r matches Ok(None),
            Err(error) => r matches Err(e) && e == error,
        },
{
    if !text_eq(annotation.name.as_str(), Directive::CustomName.name()) {
        return Ok(None);
    }
    match &annotation.argument {
        Argument::Text(text) => Ok(Some(text.clone())),
        _ => Err(
            GenerationError::MalformedDirectiveArgument {
                directive: Directive::CustomName,
                location: annotation.location,
            },
        ),
    }
}

/// The custom name that the annotations of a declaration give, if any.
pub fn custom_name(annotations: &Vec<Annotation>) -> (r: Result<Option<String>, GenerationError>)
    ensures
        match spec_custom_name(views(annotations@)) {
            Ok(Some(text)) => r matches Ok(Some(name)) && name@ == text,
            Ok(None) => r matches Ok(None),
            Err(error) => r matches Err(e) && e == error,
        },
{
    let ghost all = views(annotations@);
    let ghost name = Directive::CustomName.spec_name();
    let mut i: usize = 0;
    while i < annotations.len()
        invariant
            i <= annotations.len(),
            all == views(annotations@),
            name == Directive::CustomName.spec_name(),
            first_named(all, name) == first_named_from(all, name, i as int),
        decreases annotations.len() - i,
    {
        let found = extract_builder_name(&annotations[i]);
        match found {
            Ok(None) => {},
            _ => {
                return found;
            },
        }
        i += 1;
    }
    Ok(None)
}

/// The name of a companion type, given the custom name, if any, and the
/// name of the declaration.
pub fn companion_name(custom_name: Option<String>, declaration: &str) -> (r: String)
    ensures
        r@ == spec_companion_name(
            match custom_name {
                Some(name) => Some(name@),
                None => None,
            },
            declaration@,
        ),
{
    match custom_name {
        Some(name) => name,
        None => {
            let mut name = String::from_str(declaration);
            name.append("Builder");
            name
        },
    }
}

/// The name of the companion type.
pub fn generate_builder_name(declaration: &TypeDeclaration) -> (r: Result<String, GenerationError>)
    ensures
        match spec_builder_name(declaration@) {
            Ok(text) => r matches Ok(name) && name@ == text,
            Err(error) => r matches Err(e) && e == error,
        },
{
    match custom_name(&declaration.annotations) {
        Ok(custom_name) => Ok(companion_name(custom_name, declaration.name.as_str())),
        Err(error) => Err(error),
    }
}

/// The fields of the declaration, where it is a record.
pub fn get_struct_fields(declaration: &TypeDeclaration) -> (r: Result<&Vec<Field>, GenerationError>)
    ensures
        match spec_struct_fields(declaration@) {
            Ok(fields) => r matches Ok(found) && views(found@) == fields
                && declaration.body == Body::Record(*found),
            Err(error) => r matches Err(e) && e == error,
        },
{
    match &declaration.body {
        Body::Record(fields) => Ok(fields),
        _ => Err(GenerationError::UnsupportedShape { location: declaration.location }),
    }
}

/// Reads the directives of a field off its annotations.
pub fn parse_field_directives(field: &Field) -> (r: FieldDirectives)
    ensures
        r == spec_field_directives(field@.annotations),
{
    FieldDirectives { expose: has_getter_attr(field), defaultable: has_optional_attr(field) }
}

/// Reads the directives of a declaration off its annotations.
pub fn parse_declaration_directives(declaration: &TypeDeclaration) -> (r: Result<
    DeclarationDirectives,
    GenerationError,
>)
    ensures
        match spec_declaration_directives(declaration@) {
            Ok(directives) => r matches Ok(found) && found@ == directives,
            Err(error) => r matches Err(e) && e == error,
        },
{
    match get_struct_fields(declaration) {
        Ok(_) => {},
        Err(error) => {
            return Err(error);
        },
    }
    match custom_name(&declaration.annotations) {
        Ok(custom_name) => Ok(
            DeclarationDirectives {
                custom_name,
                generate_validator: has_gen_build_fn_attr(&declaration.annotations),
            },
        ),
        Err(error) => Err(error),
    }
}

} // verus!
