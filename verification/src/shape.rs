//! What the generator reads off a declared type: whether it is text, whether
//! it is a sequence, and the element type of a sequence; and, for the
//! defaults of the model, whether it is a truth value or an integer.

use vstd::prelude::*;
use crate::error::GenerationError;
use crate::schema::{
    DeclaredType, DeclaredTypeView, GenericArgument, GenericArgumentView, PathArguments,
    PathArgumentsView, TypeForm, TypeFormView,
};
use crate::text::text_eq;

verus! {

/// The type is a path one of whose segments is the identifier.
pub open spec fn spec_is_type(ident: Seq<char>, ty: DeclaredTypeView) -> bool {
    match ty.form {
        TypeFormView::Path(segments) => exists|i: int|
            0 <= i < segments.len() && (#[trigger] segments[i]).ident == ident,
        TypeFormView::Other => false,
    }
}

/// The type is text: a path with a segment `String`.
pub open spec fn spec_is_string(ty: DeclaredTypeView) -> bool {
    spec_is_type("String"@, ty)
}

/// The type is a sequence: a path with a segment `Vec`.
pub open spec fn spec_is_vec(ty: DeclaredTypeView) -> bool {
    spec_is_type("Vec"@, ty)
}

/// The element type of a sequence: the one argument of the segment that
/// names the type, which is the last of the path, where that segment has
/// exactly one argument between angle brackets and the argument is a type.
/// So `Vec<u8>` and `std::vec::Vec<u8>` both have the element type `u8`.
pub open spec fn spec_element_type(ty: DeclaredTypeView) -> Option<Seq<char>> {
    match ty.form {
        TypeFormView::Path(segments) => if segments.len() == 0 {
            None
        } else {
            match segments.last().arguments {
                PathArgumentsView::AngleBracketed(arguments) => if arguments.len() == 1 {
                    match arguments[0] {
                        GenericArgumentView::Type(text) => Some(text),
                        GenericArgumentView::Other => None,
                    }
                } else {
                    None
                },
                _ => None,
            }
        },
        TypeFormView::Other => None,
    }
}

/// The type is named by the identifier: it is a path whose last segment is
/// the identifier, with nothing after it.
pub open spec fn spec_is_named(ident: Seq<char>, ty: DeclaredTypeView) -> bool {
    match ty.form {
        TypeFormView::Path(segments) => segments.len() > 0 && segments.last().ident == ident
            && segments.last().arguments is Plain,
        TypeFormView::Other => false,
    }
}

/// The type is the truth value: it is named `bool`.
pub open spec fn spec_is_flag(ty: DeclaredTypeView) -> bool {
    spec_is_named("bool"@, ty)
}

/// The type is an integer: it is named by one of the twelve integer types.
pub open spec fn spec_is_integer(ty: DeclaredTypeView) -> bool {
    ||| spec_is_named("u8"@, ty)
    ||| spec_is_named("u16"@, ty)
    ||| spec_is_named("u32"@, ty)
    ||| spec_is_named("u64"@, ty)
    ||| spec_is_named("u128"@, ty)
    ||| spec_is_named("usize"@, ty)
    ||| spec_is_named("i8"@, ty)
    ||| spec_is_named("i16"@, ty)
    ||| spec_is_named("i32"@, ty)
    ||| spec_is_named("i64"@, ty)
    ||| spec_is_named("i128"@, ty)
    ||| spec_is_named("isize"@, ty)
}

pub fn is_type(ident: &str, ty: &DeclaredType) -> (r: bool)
    ensures
        r == spec_is_type(ident@, ty@),
{
    match &ty.form {
        TypeForm::Path(segments) => {
            let mut i: usize = 0;
            while i < segments.len()
                invariant
                    i <= segments.len(),
                    ty.form == TypeForm::Path(*segments),
                    forall|j: int| 0 <= j < i ==> (#[trigger] segments@[j]).ident@ != ident@,
                decreases segments.len() - i,
            {
                if text_eq(segments[i].ident.as_str(), ident) {
                    assert(ty@.form->Path_0[i as int].ident == ident@);
                    return true;
                }
                i += 1;
            }
            false
        },
        TypeForm::Other => false,
    }
}

pub fn is_string(ty: &DeclaredType) -> (r: bool)
    ensures
        r == spec_is_string(ty@),
{
    is_type("String", ty)
}

pub fn is_vec(ty: &DeclaredType) -> (r: bool)
    ensures
        r == spec_is_vec(ty@),
{
    is_type("Vec", ty)
}

/// Whether the type is named by the identifier.
pub fn is_named(ident: &str, ty: &DeclaredType) -> (r: bool)
    ensures
        r == spec_is_named(ident@, ty@),
{
    match &ty.form {
        TypeForm::Path(segments) => {
            if segments.len() == 0 {
                return false;
            }
            let last = &segments[segments.len() - 1];
            match &last.arguments {
                PathArguments::Plain => text_eq(last.ident.as_str(), ident),
                _ => false,
            }
        },
        TypeForm::Other => false,
    }
}

/// Whether the type is the truth value.
pub fn is_flag(ty: &DeclaredType) -> (r: bool)
    ensures
        r == spec_is_flag(ty@),
{
    is_named("bool", ty)
}

/// Whether the type is an integer.
pub fn is_integer(ty: &DeclaredType) -> (r: bool)
    ensures
        r == spec_is_integer(ty@),
{
    is_named("u8", ty) || is_named("u16", ty) || is_named("u32", ty) || is_named("u64", ty)
        || is_named("u128", ty) || is_named("usize", ty) || is_named("i8", ty) || is_named(
        "i16",
        ty,
    ) || is_named("i32", ty) || is_named("i64", ty) || is_named("i128", ty) || is_named(
        "isize",
        ty,
    )
}

/// Reads the element type off the declared type of a sequence. Fails, at the
/// place of the type, unless the last segment of the path has exactly one
/// argument between angle brackets and that argument is a type.
pub fn extract_type_from_generic(ty: &DeclaredType) -> (r: Result<String, GenerationError>)
    ensures
        match spec_element_type(ty@) {
            Some(text) => r matches Ok(element) && element@ == text,
            None => r == Err::<String, GenerationError>(
                GenerationError::UnrecognizedGenericShape { location: ty.location },
            ),
        },
{
    let failure = GenerationError::UnrecognizedGenericShape { location: ty.location };
    let segments = match &ty.form {
        TypeForm::Path(segments) => segments,
        TypeForm::Other => {
            return Err(failure);
        },
    };
    if segments.len() == 0 {
        return Err(failure);
    }
    let arguments = match &segments[segments.len() - 1].arguments {
        PathArguments::AngleBracketed(arguments) => arguments,
        _ => {
            return Err(failure);
        },
    };
    if arguments.len() != 1 {
        return Err(failure);
    }
    match &arguments[0] {
        GenericArgument::Type(text) => Ok(text.clone()),
        GenericArgument::Other => Err(failure),
    }
}

} // verus!
