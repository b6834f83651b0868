//! The companion-type generator: the type that mirrors a declaration with
//! every field in a presence box, its empty constructor, and one fluent
//! setter for each field.

use vstd::prelude::*;
use vstd::string::*;
use crate::directive::{
    companion_name, get_struct_fields, parse_declaration_directives, spec_builder_name,
    spec_has_directive, spec_struct_fields,
};
use crate::error::{Directive, GenerationError};
use crate::schema::{views, Field, FieldView, TypeDeclaration, TypeDeclarationView};
use crate::validator::{
    resolution_steps, spec_render_validator, spec_steps, Validator, ValidatorView,
};

verus! {

/// One presence-boxed field of a companion type, with the name of the
/// setter that fills the box.
#[derive(Clone, Debug, PartialEq, Eq)]
pub struct CompanionField {
    pub name: String,
    pub ty: String,
    pub setter: String,
}

pub struct CompanionFieldView {
    pub name: Seq<char>,
    pub ty: Seq<char>,
    pub setter: Seq<char>,
}

impl View for CompanionField {
    type V = CompanionFieldView;

    open spec fn view(&self) -> CompanionFieldView {
        CompanionFieldView { name: self.name@, ty: self.ty@, setter: self.setter@ }
    }
}

/// A companion type, together with its validating constructor where one
/// was asked for.
#[derive(Clone, Debug, PartialEq, Eq)]
pub struct CompanionType {
    pub name: String,
    pub fields: Vec<CompanionField>,
    pub validator: Option<Validator>,
}

pub struct CompanionTypeView {
    pub name: Seq<char>,
    pub fields: Seq<CompanionFieldView>,
    pub validator: Option<ValidatorView>,
}

impl View for CompanionType {
    type V = CompanionTypeView;

    open spec fn view(&self) -> CompanionTypeView {
        CompanionTypeView {
            name: self.name@,
            fields: views(self.fields@),
            validator: match self.validator {
                Some(validator) => Some(validator@),
                None => None,
            },
        }
    }
}

/// The name of the setter of a field: `with_` and the field's name.
pub open spec fn spec_setter_name(field: Seq<char>) -> Seq<char> {
    "with_"@ + field
}

/// The presence-boxed field that mirrors a field: same name, same declared
/// type.
pub open spec fn spec_companion_field(field: FieldView) -> CompanionFieldView {
    CompanionFieldView {
        name: field.name,
        ty: field.ty.text,
        setter: spec_setter_name(field.name),
    }
}

/// The presence-boxed fields that mirror the fields, in order.
pub open spec fn spec_companion_fields(fields: Seq<FieldView>) -> Seq<CompanionFieldView> {
    fields.map_values(|field: FieldView| spec_companion_field(field))
}

/// The companion type of a declaration. The validating constructor is part
/// of it exactly where the declaration carries the directive for it.
pub open spec fn spec_builder_struct(declaration: TypeDeclarationView) -> Result<
    CompanionTypeView,
    GenerationError,
> {
    match spec_struct_fields(declaration) {
        Err(error) => Err(error),
        Ok(fields) => match spec_builder_name(declaration) {
            Err(error) => Err(error),
            Ok(name) => Ok(
                CompanionTypeView {
                    name,
                    fields: spec_companion_fields(fields),
                    validator: if spec_has_directive(
                        declaration.annotations,
                        Directive::GenerateValidator,
                    ) {
                        Some(
                            ValidatorView {
                                target: declaration.name,
                                companion: name,
                                steps: spec_steps(fields),
                            },
                        )
                    } else {
                        None
                    },
                },
            ),
        },
    }
}

/// The presence-boxed fields that mirror the fields, in order.
pub fn companion_fields(fields: &Vec<Field>) -> (r: Vec<CompanionField>)
    ensures
        views(r@) == spec_companion_fields(views(fields@)),
{
    let ghost all = views(fields@);
    let mut boxed: Vec<CompanionField> = Vec::new();
    let mut i: usize = 0;
    while i < fields.len()
        invariant
            i <= fields.len(),
            all == views(fields@),
            boxed@.len() == i,
            forall|j: int| 0 <= j < i ==> (#[trigger] boxed@[j])@ == spec_companion_field(all[j]),
        decreases fields.len() - i,
    {
        let field = &fields[i];
        let mut setter = String::from_str("with_");
        setter.append(field.name.as_str());
        boxed.push(CompanionField { name: field.name.clone(), ty: field.ty.text.clone(), setter });
        i += 1;
    }
    boxed
}

/// The companion type of a declaration.
pub fn generate_builder_struct(declaration: &TypeDeclaration) -> (r: Result<
    CompanionType,
    GenerationError,
>)
    ensures
        match spec_builder_struct(declaration@) {
            Ok(companion) => r matches Ok(found) && found@ == companion,
            Err(error) => r matches Err(e) && e == error,
        },
{
    let directives = match parse_declaration_directives(declaration) {
        Ok(directives) => directives,
        Err(error) => {
            return Err(error);
        },
    };
    let fields = match get_struct_fields(declaration) {
        Ok(fields) => fields,
        Err(error) => {
            return Err(error);
        },
    };
    let name = companion_name(directives.custom_name, declaration.name.as_str());
    let validator = if directives.generate_validator {
        Some(
            Validator {
                target: declaration.name.clone(),
                companion: name.clone(),
                steps: resolution_steps(fields),
            },
        )
    } else {
        None
    };
    Ok(CompanionType { name, fields: companion_fields(fields), validator })
}

/// The line that declares one presence-boxed field.
pub open spec fn spec_render_member(field: CompanionFieldView) -> Seq<char> {
    "    "@ + field.name + ": Option<"@ + field.ty + ">,\n"@
}

/// The lines that declare the first `n` presence-boxed fields.
pub open spec fn spec_render_members(fields: Seq<CompanionFieldView>, n: int) -> Seq<char>
    decreases n,
{
    if n <= 0 {
        Seq::empty()
    } else {
        spec_render_members(fields, n - 1) + spec_render_member(fields[n - 1])
    }
}

/// The text of the setter of one field: it takes the companion value and a
/// value of the field's type, fills the box, and hands the companion value
/// back.
pub open spec fn spec_render_setter(field: CompanionFieldView) -> Seq<char> {
    "    pub fn "@ + field.setter + "(mut self, value: "@ + field.ty
        + ") -> Self {\n        self."@ + field.name + " = Some(value);\n        self\n    }\n"@
}

/// The texts of the setters of the first `n` fields.
pub open spec fn spec_render_setters(fields: Seq<CompanionFieldView>, n: int) -> Seq<char>
    decreases n,
{
    if n <= 0 {
        Seq::empty()
    } else {
        spec_render_setters(fields, n - 1) + spec_render_setter(fields[n - 1])
    }
}

/// The text of a companion type: the type with its presence-boxed fields,
/// an `impl` with the empty constructor and the setters, and the validating
/// constructor where there is one.
pub open spec fn spec_render_companion(companion: CompanionTypeView) -> Seq<char> {
    "#[derive(Default, Clone)]\npub struct "@ + companion.name + " {\n"@ + spec_render_members(
        companion.fields,
        companion.fields.len() as int,
    ) + "}\nimpl "@ + companion.name + " {\n    pub fn new() -> Self {\n        "@ + companion.name
        + "::default()\n    }\n"@ + spec_render_setters(
        companion.fields,
        companion.fields.len() as int,
    ) + "}\n"@ + match companion.validator {
        Some(validator) => spec_render_validator(validator),
        None => Seq::empty(),
    }
}

impl CompanionField {
    /// The line that declares the presence-boxed field.
    pub fn render_member(&self) -> (r: String)
        ensures
            r@ == spec_render_member(self@),
    {
        let mut text = String::from_str("    ");
        text.append(self.name.as_str());
        text.append(": Option<");
        text.append(self.ty.as_str());
        text.append(">,\n");
        text
    }

    /// The text of the field's setter.
    pub fn render_setter(&self) -> (r: String)
        ensures
            r@ == spec_render_setter(self@),
    {
        let mut text = String::from_str("    pub fn ");
        text.append(self.setter.as_str());
        text.append("(mut self, value: ");
        text.append(self.ty.as_str());
        text.append(") -> Self {\n        self.");
        text.append(self.name.as_str());
        text.append(" = Some(value);\n        self\n    }\n");
        text
    }
}

impl CompanionType {
    /// The text of the companion type.
    pub fn render(&self) -> (r: String)
        ensures
            r@ == spec_render_companion(self@),
    {
        let ghost all = views(self.fields@);
        let mut members = String::new();
        let mut setters = String::new();
        let mut i: usize = 0;
        while i < self.fields.len()
            invariant
                i <= self.fields.len(),
                all == views(self.fields@),
                members@ =~= spec_render_members(all, i as int),
                setters@ =~= spec_render_setters(all, i as int),
            decreases self.fields.len() - i,
        {
            let member = self.fields[i].render_member();
            let setter = self.fields[i].render_setter();
            members.append(member.as_str());
            setters.append(setter.as_str());
            i += 1;
        }
        let mut text = String::from_str("#[derive(Default, Clone)]\npub struct ");
        text.append(self.name.as_str());
        text.append(" {\n");
        text.append(members.as_str());
        text.append("}\nimpl ");
        text.append(self.name.as_str());
        text.append(" {\n    pub fn new() -> Self {\n        ");
        text.append(self.name.as_str());
        text.append("::default()\n    }\n");
        text.append(setters.as_str());
        text.append("}\n");
        if let Some(validator) = &self.validator {
            let tail = validator.render();
            text.append(tail.as_str());
        }
        text
    }
}

} // verus!
