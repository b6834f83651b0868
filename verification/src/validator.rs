//! The generator of the validating constructor: the operation that takes a
//! companion value and gives the assembled target value, or the name of the
//! first field that is missing.

use vstd::prelude::*;
use vstd::string::*;
use crate::directive::{
    generate_builder_name, get_struct_fields, parse_field_directives, spec_builder_name,
    spec_has_helper, spec_struct_fields,
};
use crate::error::{Directive, GenerationError};
use crate::schema::{
    views, DeclaredType, DeclaredTypeView, Field, FieldView, TypeDeclaration, TypeDeclarationView,
};
use crate::shape::{
    is_flag, is_integer, is_string, is_vec, spec_is_flag, spec_is_integer, spec_is_string,
    spec_is_vec,
};

verus! {

/// The default value of a declared type, as far as the generator knows it.
#[derive(Clone, Copy, Debug, PartialEq, Eq, Structural)]
pub enum DefaultKind {
    /// The empty text.
    Text,
    /// The empty sequence.
    Sequence,
    /// The truth value `false`.
    Flag,
    /// The number zero.
    Number,
    /// The default of any other type, which the generator does not look
    /// into.
    Opaque,
}

/// How the validating constructor resolves one field.
#[derive(Clone, Copy, Debug, PartialEq, Eq, Structural)]
pub enum Resolution {
    /// The value that was set; construction fails where none was.
    Required,
    /// The value that was set; the type's default where none was.
    OrDefault(DefaultKind),
}

/// The resolution of one field.
#[derive(Clone, Debug, PartialEq, Eq)]
pub struct Step {
    pub field: String,
    pub resolution: Resolution,
}

pub struct StepView {
    pub field: Seq<char>,
    pub resolution: Resolution,
}

impl View for Step {
    type V = StepView;

    open spec fn view(&self) -> StepView {
        StepView { field: self.field@, resolution: self.resolution }
    }
}

/// The validating constructor of one companion type: one step for each
/// field, in the order of the declaration.
#[derive(Clone, Debug, PartialEq, Eq)]
pub struct Validator {
    pub target: String,
    pub companion: String,
    pub steps: Vec<Step>,
}

pub struct ValidatorView {
    pub target: Seq<char>,
    pub companion: Seq<char>,
    pub steps: Seq<StepView>,
}

impl View for Validator {
    type V = ValidatorView;

    open spec fn view(&self) -> ValidatorView {
        ValidatorView {
            target: self.target@,
            companion: self.companion@,
            steps: views(self.steps@),
        }
    }
}

/// The default of a declared type. Text comes before sequence, as for the
/// shape of an accessor; then come the truth value and the integers.
pub open spec fn spec_default_kind(ty: DeclaredTypeView) -> DefaultKind {
    if spec_is_string(ty) {
        DefaultKind::Text
    } else if spec_is_vec(ty) {
        DefaultKind::Sequence
    } else if spec_is_flag(ty) {
        DefaultKind::Flag
    } else if spec_is_integer(ty) {
        DefaultKind::Number
    } else {
        DefaultKind::Opaque
    }
}

/// Whether the field may be left unset.
pub open spec fn spec_defaultable(field: FieldView) -> bool {
    spec_has_helper(field.annotations, Directive::Defaultable)
}

/// The resolution of a field.
pub open spec fn spec_step(field: FieldView) -> StepView {
    StepView {
        field: field.name,
        resolution: if spec_defaultable(field) {
            Resolution::OrDefault(spec_default_kind(field.ty))
        } else {
            Resolution::Required
        },
    }
}

/// The resolutions of the fields, in order.
pub open spec fn spec_steps(fields: Seq<FieldView>) -> Seq<StepView> {
    fields.map_values(|field: FieldView| spec_step(field))
}

/// The validating constructor of a declaration.
pub open spec fn spec_build_impl(declaration: TypeDeclarationView) -> Result<
    ValidatorView,
    GenerationError,
> {
    match spec_struct_fields(declaration) {
        Err(error) => Err(error),
        Ok(fields) => match spec_builder_name(declaration) {
            Err(error) => Err(error),
            Ok(companion) => Ok(
                ValidatorView { target: declaration.name, companion, steps: spec_steps(fields) },
            ),
        },
    }
}

/// The default of a declared type.
pub fn default_kind(ty: &DeclaredType) -> (r: DefaultKind)
    ensures
        r == spec_default_kind(ty@),
{
    if is_string(ty) {
        DefaultKind::Text
    } else if is_vec(ty) {
        DefaultKind::Sequence
    } else if is_flag(ty) {
        DefaultKind::Flag
    } else if is_integer(ty) {
        DefaultKind::Number
    } else {
        DefaultKind::Opaque
    }
}

/// The resolutions of the fields, in order.
pub fn resolution_steps(fields: &Vec<Field>) -> (r: Vec<Step>)
    ensures
        views(r@) == spec_steps(views(fields@)),
{
    let ghost all = views(fields@);
    let mut steps: Vec<Step> = Vec::new();
    let mut i: usize = 0;
    while i < fields.len()
        invariant
            i <= fields.len(),
            all == views(fields@),
            steps@.len() == i,
            forall|j: int| 0 <= j < i ==> (#[trigger] steps@[j])@ == spec_step(all[j]),
        decreases fields.len() - i,
    {
        let field = &fields[i];
        let resolution = if parse_field_directives(field).defaultable {
            Resolution::OrDefault(default_kind(&field.ty))
        } else {
            Resolution::Required
        };
        steps.push(Step { field: field.name.clone(), resolution });
        i += 1;
    }
    steps
}

/// The validating constructor of a declaration.
pub fn generate_build_impl(declaration: &TypeDeclaration) -> (r: Result<Validator, GenerationError>)
    ensures
        match spec_build_impl(declaration@) {
            Ok(validator) => r matches Ok(found) && found@ == validator,
            Err(error) => r matches Err(e) && e == error,
        },
{
    let fields = match get_struct_fields(declaration) {
        Ok(fields) => fields,
        Err(error) => {
            return Err(error);
        },
    };
    let companion = match generate_builder_name(declaration) {
        Ok(name) => name,
        Err(error) => {
            return Err(error);
        },
    };
    let steps = resolution_steps(fields);
    Ok(Validator { target: declaration.name.clone(), companion, steps })
}

/// The statement that resolves one field.
pub open spec fn spec_render_step(step: StepView) -> Seq<char> {
    match step.resolution {
        Resolution::Required => "        let "@ + step.field + " = self."@ + step.field
            + ".ok_or_else(|| BuilderError::MissingField(stringify!("@ + step.field
            + ").into()))?;\n"@,
        Resolution::OrDefault(_) => "        let "@ + step.field + " = self."@ + step.field
            + ".unwrap_or_default();\n"@,
    }
}

/// The statements that resolve the first `n` fields.
pub open spec fn spec_render_steps(steps: Seq<StepView>, n: int) -> Seq<char>
    decreases n,
{
    if n <= 0 {
        Seq::empty()
    } else {
        spec_render_steps(steps, n - 1) + spec_render_step(steps[n - 1])
    }
}

/// The line that hands one resolved field to the target value.
pub open spec fn spec_render_member(step: StepView) -> Seq<char> {
    "            "@ + step.field + ",\n"@
}

/// The lines that hand the first `n` resolved fields to the target value.
pub open spec fn spec_render_members(steps: Seq<StepView>, n: int) -> Seq<char>
    decreases n,
{
    if n <= 0 {
        Seq::empty()
    } else {
        spec_render_members(steps, n - 1) + spec_render_member(steps[n - 1])
    }
}

/// The text of the validating constructor: an `impl` of `Build` for the
/// companion type whose `build` resolves the fields in order and then
/// assembles the target value.
pub open spec fn spec_render_validator(validator: ValidatorView) -> Seq<char> {
    "impl Build for "@ + validator.companion + " {\n    type Result = Result<"@ + validator.target
        + ", BuilderError>;\n    fn build(self) -> Self::Result {\n"@ + spec_render_steps(
        validator.steps,
        validator.steps.len() as int,
    ) + "        Ok("@ + validator.target + " {\n"@ + spec_render_members(
        validator.steps,
        validator.steps.len() as int,
    ) + "        })\n    }\n}\n"@
}

impl Step {
    /// The statement that resolves the field.
    pub fn render(&self) -> (r: String)
        ensures
            r@ == spec_render_step(self@),
    {
        let mut text = String::from_str("        let ");
        text.append(self.field.as_str());
        text.append(" = self.");
        text.append(self.field.as_str());
        match self.resolution {
            Resolution::Required => {
                text.append(".ok_or_else(|| BuilderError::MissingField(stringify!(");
                text.append(self.field.as_str());
                text.append(").into()))?;\n");
            },
            Resolution::OrDefault(_) => {
                text.append(".unwrap_or_default();\n");
            },
        }
        text
    }

    /// The line that hands the resolved field to the target value.
    pub fn render_member(&self) -> (r: String)
        ensures
            r@ == spec_render_member(self@),
    {
        let mut text = String::from_str("            ");
        text.append(self.field.as_str());
        text.append(",\n");
        text
    }
}

impl Validator {
    /// The text of the validating constructor.
    pub fn render(&self) -> (r: String)
        ensures
            r@ == spec_render_validator(self@),
    {
        let ghost all = views(self.steps@);
        let mut statements = String::new();
        let mut members = String::new();
        let mut i: usize = 0;
        while i < self.steps.len()
            invariant
                i <= self.steps.len(),
                all == views(self.steps@),
                statements@ =~= spec_render_steps(all, i as int),
                members@ =~= spec_render_members(all, i as int),
            decreases self.steps.len() - i,
        {
            let statement = self.steps[i].render();
            let member = self.steps[i].render_member();
            statements.append(statement.as_str());
            members.append(member.as_str());
            i += 1;
        }
        let mut text = String::from_str("impl Build for ");
        text.append(self.companion.as_str());
        text.append(" {\n    type Result = Result<");
        text.append(self.target.as_str());
        text.append(", BuilderError>;\n    fn build(self) -> Self::Result {\n");
        text.append(statements.as_str());
        text.append("        Ok(");
        text.append(self.target.as_str());
        text.append(" {\n");
        text.append(members.as_str());
        text.append("        })\n    }\n}\n");
        text
    }
}

} // verus!
