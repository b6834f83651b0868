//! The accessor generator: one read accessor for each field that carries the
//! expose directive, shaped by the field's declared type.

use vstd::prelude::*;
use vstd::string::*;
use crate::directive::{
    get_struct_fields, parse_field_directives, spec_has_helper, spec_struct_fields,
};
use crate::error::{Directive, GenerationError};
use crate::schema::{
    views, DeclaredType, DeclaredTypeView, Field, FieldView, TypeDeclaration, TypeDeclarationView,
};
use crate::shape::{
    extract_type_from_generic, is_string, is_vec, spec_element_type, spec_is_string, spec_is_vec,
};

verus! {

/// What an accessor hands out.
#[derive(Clone, Debug, PartialEq, Eq)]
pub enum ReturnShape {
    /// A view of the text: `&str`.
    Text,
    /// A view over the elements, of the type given: `&[T]`.
    Elements(String),
    /// A reference to the field in place, of the type given: `&T`.
    Reference(String),
}

pub enum ReturnShapeView {
    Text,
    Elements(Seq<char>),
    Reference(Seq<char>),
}

impl View for ReturnShape {
    type V = ReturnShapeView;

    open spec fn view(&self) -> ReturnShapeView {
        match self {
            ReturnShape::Text => ReturnShapeView::Text,
            ReturnShape::Elements(element) => ReturnShapeView::Elements(element@),
            ReturnShape::Reference(ty) => ReturnShapeView::Reference(ty@),
        }
    }
}

/// A read accessor: it has the name of the field that it reads.
#[derive(Clone, Debug, PartialEq, Eq)]
pub struct Accessor {
    pub name: String,
    pub shape: ReturnShape,
}

pub struct AccessorView {
    pub name: Seq<char>,
    pub shape: ReturnShapeView,
}

impl View for Accessor {
    type V = AccessorView;

    open spec fn view(&self) -> AccessorView {
        AccessorView { name: self.name@, shape: self.shape@ }
    }
}

/// The accessors of one type, in the order of the fields that they read.
#[derive(Clone, Debug, PartialEq, Eq)]
pub struct AccessorBlock {
    pub target: String,
    pub accessors: Vec<Accessor>,
}

pub struct AccessorBlockView {
    pub target: Seq<char>,
    pub accessors: Seq<AccessorView>,
}

impl View for AccessorBlock {
    type V = AccessorBlockView;

    open spec fn view(&self) -> AccessorBlockView {
        AccessorBlockView { target: self.target@, accessors: views(self.accessors@) }
    }
}

/// The shape of the accessor for a field of the declared type. Text comes
/// before sequence, and a sequence whose element type cannot be read off
/// fails at the place of the type.
pub open spec fn spec_return_shape(ty: DeclaredTypeView) -> Result<ReturnShapeView, GenerationError> {
    if spec_is_string(ty) {
        Ok(ReturnShapeView::Text)
    } else if spec_is_vec(ty) {
        match spec_element_type(ty) {
            Some(element) => Ok(ReturnShapeView::Elements(element)),
            None => Err(GenerationError::UnrecognizedGenericShape { location: ty.location }),
        }
    } else {
        Ok(ReturnShapeView::Reference(ty.text))
    }
}

/// Whether the field gets an accessor.
pub open spec fn spec_exposed(field: FieldView) -> bool {
    spec_has_helper(field.annotations, Directive::Expose)
}

/// The accessors for the first `n` fields: one for each exposed field, in
/// order; the error of the first exposed field whose shape fails.
pub open spec fn spec_getters_upto(fields: Seq<FieldView>, n: int) -> Result<
    Seq<AccessorView>,
    GenerationError,
>
    decreases n,
{
    if n <= 0 {
        Ok(Seq::empty())
    } else {
        match spec_getters_upto(fields, n - 1) {
            Err(error) => Err(error),
            Ok(done) => {
                let field = fields[n - 1];
                if !spec_exposed(field) {
                    Ok(done)
                } else {
                    match spec_return_shape(field.ty) {
                        Ok(shape) => Ok(done.push(AccessorView { name: field.name, shape })),
                        Err(error) => Err(error),
                    }
                }
            },
        }
    }
}

/// The accessors for all the fields.
pub open spec fn spec_getters(fields: Seq<FieldView>) -> Result<Seq<AccessorView>, GenerationError> {
    spec_getters_upto(fields, fields.len() as int)
}

/// The accessor block of a declaration.
pub open spec fn spec_struct_impl(declaration: TypeDeclarationView) -> Result<
    AccessorBlockView,
    GenerationError,
> {
    match spec_struct_fields(declaration) {
        Err(error) => Err(error),
        Ok(fields) => match spec_getters(fields) {
            Err(error) => Err(error),
            Ok(accessors) => Ok(AccessorBlockView { target: declaration.name, accessors }),
        },
    }
}

/// Once a prefix of the fields has failed, every longer prefix fails in the
/// same way.
pub proof fn lemma_getters_error_stays(fields: Seq<FieldView>, n: int, m: int)
    requires
        n <= m,
        spec_getters_upto(fields, n) is Err,
    ensures
        spec_getters_upto(fields, m) == spec_getters_upto(fields, n),
    decreases m - n,
{
    if n < m {
        lemma_getters_error_stays(fields, n, m - 1);
    }
}

/// The shape of the accessor for a field of the declared type.
pub fn return_shape(ty: &DeclaredType) -> (r: Result<ReturnShape, GenerationError>)
    ensures
        match spec_return_shape(ty@) {
            Ok(shape) => r matches Ok(found) && found@ == shape,
            Err(error) => r matches Err(e) && e == error,
        },
{
    if is_string(ty) {
        Ok(ReturnShape::Text)
    } else if is_vec(ty) {
        match extract_type_from_generic(ty) {
            Ok(element) => Ok(ReturnShape::Elements(element)),
            Err(error) => Err(error),
        }
    } else {
        Ok(ReturnShape::Reference(ty.text.clone()))
    }
}

/// The accessors for the fields: one for each exposed field, in order.
/// Generation stops at the first exposed field whose shape fails.
pub fn generate_getters(fields: &Vec<Field>) -> (r: Result<Vec<Accessor>, GenerationError>)
    ensures
        match spec_getters(views(fields@)) {
            Ok(accessors) => r matches Ok(found) && views(found@) == accessors,
            Err(error) => r matches Err(e) && e == error,
        },
{
    let ghost all = views(fields@);
    let mut accessors: Vec<Accessor> = Vec::new();
    let mut i: usize = 0;
    while i < fields.len()
        invariant
            i <= fields.len(),
            all == views(fields@),
            spec_getters_upto(all, i as int) matches Ok(done) && views(accessors@) =~= done,
        decreases fields.len() - i,
    {
        let field = &fields[i];
        if parse_field_directives(field).expose {
            match return_shape(&field.ty) {
                Ok(shape) => {
                    accessors.push(Accessor { name: field.name.clone(), shape });
                },
                Err(error) => {
                    proof {
                        lemma_getters_error_stays(all, i as int + 1, all.len() as int);
                    }
                    return Err(error);
                },
            }
        }
        i += 1;
    }
    Ok(accessors)
}

/// The accessor block of a declaration.
pub fn generate_struct_impl(declaration: &TypeDeclaration) -> (r: Result<
    AccessorBlock,
    GenerationError,
>)
    ensures
        match spec_struct_impl(declaration@) {
            Ok(block) => r matches Ok(found) && found@ == block,
            Err(error) => r matches Err(e) && e == error,
        },
{
    let fields = match get_struct_fields(declaration) {
        Ok(fields) => fields,
        Err(error) => {
            return Err(error);
        },
    };
    match generate_getters(fields) {
        Ok(accessors) => Ok(AccessorBlock { target: declaration.name.clone(), accessors }),
        Err(error) => Err(error),
    }
}

/// How the return type of an accessor is written.
pub open spec fn spec_return_text(shape: ReturnShapeView) -> Seq<char> {
    match shape {
        ReturnShapeView::Text => "&str"@,
        ReturnShapeView::Elements(element) => "&["@ + element + "]"@,
        ReturnShapeView::Reference(ty) => "&"@ + ty,
    }
}

/// The text of one accessor.
pub open spec fn spec_render_accessor(accessor: AccessorView) -> Seq<char> {
    "    pub fn "@ + accessor.name + "(&self) -> "@ + spec_return_text(accessor.shape)
        + " {\n        &self."@ + accessor.name + "\n    }\n"@
}

/// The texts of the first `n` accessors, one after the other.
pub open spec fn spec_render_accessors(accessors: Seq<AccessorView>, n: int) -> Seq<char>
    decreases n,
{
    if n <= 0 {
        Seq::empty()
    } else {
        spec_render_accessors(accessors, n - 1) + spec_render_accessor(accessors[n - 1])
    }
}

/// The text of an accessor block: an `impl` of the target type that holds
/// the accessors.
pub open spec fn spec_render_block(block: AccessorBlockView) -> Seq<char> {
    "impl "@ + block.target + " {\n"@ + spec_render_accessors(
        block.accessors,
        block.accessors.len() as int,
    ) + "}\n"@
}

impl ReturnShape {
    /// How the return type is written.
    pub fn render(&self) -> (r: String)
        ensures
            r@ == spec_return_text(self@),
    {
        match self {
            ReturnShape::Text => String::from_str("&str"),
            ReturnShape::Elements(element) => {
                let mut text = String::from_str("&[");
                text.append(element.as_str());
                text.append("]");
                text
            },
            ReturnShape::Reference(ty) => {
                let mut text = String::from_str("&");
                text.append(ty.as_str());
                text
            },
        }
    }
}

impl Accessor {
    /// The text of the accessor.
    pub fn render(&self) -> (r: String)
        ensures
            r@ == spec_render_accessor(self@),
    {
        let shape = self.shape.render();
        let mut text = String::from_str("    pub fn ");
        text.append(self.name.as_str());
        text.append("(&self) -> ");
        text.append(shape.as_str());
        text.append(" {\n        &self.");
        text.append(self.name.as_str());
        text.append("\n    }\n");
        text
    }
}

impl AccessorBlock {
    /// The text of the block.
    pub fn render(&self) -> (r: String)
        ensures
            r@ == spec_render_block(self@),
    {
        let ghost all = views(self.accessors@);
        let mut body = String::new();
        let mut i: usize = 0;
        while i < self.accessors.len()
            invariant
                i <= self.accessors.len(),
                all == views(self.accessors@),
                body@ =~= spec_render_accessors(all, i as int),
            decreases self.accessors.len() - i,
        {
            let piece = self.accessors[i].render();
            body.append(piece.as_str());
            i += 1;
        }
        let mut text = String::from_str("impl ");
        text.append(self.target.as_str());
        text.append(" {\n");
        text.append(body.as_str());
        text.append("}\n");
        text
    }
}

} // verus!
