//! What holds of the generator and of the generated code at work, for every
//! declaration and every companion value.

use vstd::prelude::*;
use crate::accessor::{
    lemma_getters_error_stays, spec_exposed, spec_getters, spec_getters_upto, spec_return_shape,
    ReturnShape, ReturnShapeView,
};
use crate::builder::spec_builder_macro;
use crate::companion::{spec_builder_struct, spec_companion_fields, spec_setter_name};
use crate::directive::{
    first_named, lemma_first_named, spec_builder_name, spec_custom_name, spec_field_directives,
    spec_has_directive, spec_has_helper,
};
use crate::error::{Directive, GenerationError};
use crate::instance::{
    first_missing, first_setter_from, is_default_value, lemma_first_missing, lemma_first_setter,
    setter_position, spec_has_setter, spec_reading, spec_resolved, spec_with, PresenceBox, Reading,
    Value,
};
use crate::schema::{
    AnnotationView, ArgumentView, BodyView, DeclaredTypeView, FieldView, GenericArgumentView,
    PathArgumentsView, TypeDeclarationView, TypeFormView,
};
use crate::shape::spec_element_type;
use crate::validator::{
    spec_default_kind, spec_defaultable, spec_step, spec_steps, Resolution, Step,
};

verus! {

/// A companion type has exactly one presence-boxed field for each field of
/// the declaration, in the same order, under the same name and of the same
/// declared type, and its setter is named `with_` and the field's name.
pub proof fn law_companion_mirrors_fields(declaration: TypeDeclarationView)
    requires
        spec_builder_struct(declaration) is Ok,
    ensures
        ({
            let companion = spec_builder_struct(declaration)->Ok_0;
            let fields = declaration.fields();
            &&& companion.fields.len() == fields.len()
            &&& forall|i: int|
                0 <= i < fields.len() ==> {
                    &&& (#[trigger] companion.fields[i]).name == fields[i].name
                    &&& companion.fields[i].ty == fields[i].ty.text
                    &&& companion.fields[i].setter == spec_setter_name(fields[i].name)
                }
        }),
{
}

/// The validating constructor is generated exactly where the declaration
/// asks for it, and then it has one step for each presence-boxed field, in
/// the same order and under the same name.
pub proof fn law_validator_follows_fields(declaration: TypeDeclarationView)
    requires
        spec_builder_struct(declaration) is Ok,
    ensures
        ({
            let companion = spec_builder_struct(declaration)->Ok_0;
            &&& companion.validator is Some <==> spec_has_directive(
                declaration.annotations,
                Directive::GenerateValidator,
            )
            &&& companion.validator matches Some(validator) ==> {
                &&& validator.target == declaration.name
                &&& validator.companion == companion.name
                &&& validator.steps.len() == companion.fields.len()
                &&& forall|i: int|
                    0 <= i < companion.fields.len() ==> {
                        &&& (#[trigger] validator.steps[i]).field == companion.fields[i].name
                        &&& validator.steps[i] == spec_step(declaration.fields()[i])
                    }
            }
        }),
{
}

/// Where the first custom-name directive of a declaration has a string
/// argument, the companion type has that string as its name, as it is
/// written.
pub proof fn law_custom_name_is_verbatim(declaration: TypeDeclarationView, at: int, name: Seq<char>)
    requires
        0 <= at < declaration.annotations.len(),
        declaration.annotations[at].name == Directive::CustomName.spec_name(),
        declaration.annotations[at].argument == ArgumentView::Text(name),
        forall|j: int|
            0 <= j < at ==> (#[trigger] declaration.annotations[j]).name
                != Directive::CustomName.spec_name(),
    ensures
        spec_builder_name(declaration) == Ok::<Seq<char>, GenerationError>(name),
{
    lemma_first_named(declaration.annotations, Directive::CustomName.spec_name(), 0);
}

/// Where a declaration has no custom-name directive, the companion type is
/// named by the declaration's name followed by `Builder`.
pub proof fn law_default_name(declaration: TypeDeclarationView)
    requires
        !spec_has_directive(declaration.annotations, Directive::CustomName),
    ensures
        spec_builder_name(declaration) == Ok::<Seq<char>, GenerationError>(
            declaration.name + "Builder"@,
        ),
{
    lemma_first_named(declaration.annotations, Directive::CustomName.spec_name(), 0);
}

/// Every accessor belongs to an exposed field: the accessors are as many as
/// the exposed fields, they come in the fields' order, and each has the name
/// of its field and the shape of its field's type.
pub proof fn law_accessors_follow_exposed_fields(fields: Seq<FieldView>)
    requires
        spec_getters(fields) is Ok,
    ensures
        ({
            let accessors = spec_getters(fields)->Ok_0;
            let exposed = fields.filter(|field: FieldView| spec_exposed(field));
            &&& accessors.len() == exposed.len()
            &&& forall|k: int|
                0 <= k < accessors.len() ==> {
                    &&& (#[trigger] accessors[k]).name == exposed[k].name
                    &&& spec_return_shape(exposed[k].ty) == Ok::<
                        ReturnShapeView,
                        GenerationError,
                    >(accessors[k].shape)
                }
        }),
{
    lemma_accessors_of_prefix(fields, fields.len() as int);
    assert(fields.take(fields.len() as int) =~= fields);
}

proof fn lemma_accessors_of_prefix(fields: Seq<FieldView>, n: int)
    requires
        0 <= n <= fields.len(),
        spec_getters_upto(fields, n) is Ok,
    ensures
        ({
            let accessors = spec_getters_upto(fields, n)->Ok_0;
            let exposed = fields.take(n).filter(|field: FieldView| spec_exposed(field));
            &&& accessors.len() == exposed.len()
            &&& forall|k: int|
                0 <= k < accessors.len() ==> {
                    &&& (#[trigger] accessors[k]).name == exposed[k].name
                    &&& spec_return_shape(exposed[k].ty) == Ok::<
                        ReturnShapeView,
                        GenerationError,
                    >(accessors[k].shape)
                }
        }),
    decreases n,
{
    reveal(Seq::filter);
    if n > 0 {
        lemma_accessors_of_prefix(fields, n - 1);
        assert(fields.take(n).drop_last() =~= fields.take(n - 1));
    }
}

/// Accessors are generated exactly where every exposed field has a type
/// that an accessor can be shaped for. A field that is not exposed never
/// stands in the way.
pub proof fn law_accessors_succeed(fields: Seq<FieldView>)
    ensures
        spec_getters(fields) is Ok <==> forall|i: int|
            0 <= i < fields.len() && spec_exposed(#[trigger] fields[i]) ==> spec_return_shape(
                fields[i].ty,
            ) is Ok,
{
    lemma_accessors_succeed_upto(fields, fields.len() as int);
}

proof fn lemma_accessors_succeed_upto(fields: Seq<FieldView>, n: int)
    requires
        0 <= n <= fields.len(),
    ensures
        spec_getters_upto(fields, n) is Ok <==> forall|i: int|
            0 <= i < n && spec_exposed(#[trigger] fields[i]) ==> spec_return_shape(
                fields[i].ty,
            ) is Ok,
    decreases n,
{
    if n > 0 {
        lemma_accessors_succeed_upto(fields, n - 1);
    }
}

/// Where accessors cannot be generated, the error is that of the first
/// exposed field, in declared order, whose accessor cannot be shaped.
pub proof fn law_accessors_fail_at_the_first(fields: Seq<FieldView>, at: int)
    requires
        0 <= at < fields.len(),
        spec_exposed(fields[at]),
        spec_return_shape(fields[at].ty) is Err,
        forall|j: int|
            0 <= j < at && spec_exposed(#[trigger] fields[j]) ==> spec_return_shape(fields[j].ty) is Ok,
    ensures
        spec_getters(fields) is Err,
        spec_getters(fields)->Err_0 == spec_return_shape(fields[at].ty)->Err_0,
{
    lemma_accessors_succeed_upto(fields, at);
    lemma_getters_error_stays(fields, at + 1, fields.len() as int);
}

/// The validating constructor finds no missing field exactly where every
/// field without a default was set; where it finds one, that is the first
/// such field in declared order that was not set.
pub proof fn law_first_missing_field(steps: Seq<Step>, boxes: Seq<PresenceBox>)
    requires
        steps.len() == boxes.len(),
    ensures
        first_missing(steps, boxes) == steps.len() <==> forall|i: int|
            0 <= i < steps.len() && (#[trigger] steps[i]).resolution == Resolution::Required
                ==> boxes[i].value is Some,
        0 <= first_missing(steps, boxes) <= steps.len(),
        first_missing(steps, boxes) < steps.len() ==> {
            let missing = first_missing(steps, boxes);
            &&& steps[missing].resolution == Resolution::Required
            &&& boxes[missing].value is None
            &&& forall|j: int|
                0 <= j < missing && (#[trigger] steps[j]).resolution == Resolution::Required
                    ==> boxes[j].value is Some
        },
{
    lemma_first_missing(steps, boxes, 0);
}

/// A setter changes no name: after a call, every box has the field and the
/// setter that it had, and every box but the one that was filled holds what
/// it held.
pub proof fn law_setter_keeps_the_rest(boxes: Seq<PresenceBox>, setter: Seq<char>, value: Value)
    ensures
        spec_with(boxes, setter, value).len() == boxes.len(),
        forall|i: int|
            0 <= i < boxes.len() ==> {
                &&& (#[trigger] spec_with(boxes, setter, value)[i]).field == boxes[i].field
                &&& spec_with(boxes, setter, value)[i].setter == boxes[i].setter
                &&& i != setter_position(boxes, setter) ==> spec_with(boxes, setter, value)[i]
                    == boxes[i]
            },
        spec_has_setter(boxes, setter) ==> spec_with(boxes, setter, value)[setter_position(
            boxes,
            setter,
        )].value == Some(value),
{
    lemma_first_setter(boxes, setter, 0);
}

proof fn lemma_same_setters_same_position(
    a: Seq<PresenceBox>,
    b: Seq<PresenceBox>,
    setter: Seq<char>,
    start: int,
)
    requires
        a.len() == b.len(),
        0 <= start <= a.len(),
        forall|i: int| 0 <= i < a.len() ==> (#[trigger] a[i]).setter == b[i].setter,
    ensures
        first_setter_from(a, setter, start) == first_setter_from(b, setter, start),
    decreases a.len() - start,
{
    if start < a.len() {
        if a[start].setter@ != setter {
            lemma_same_setters_same_position(a, b, setter, start + 1);
        }
    }
}

/// Calling the same setter twice leaves the last value in effect: the
/// outcome is that of the second call alone.
pub proof fn law_last_write_wins(
    boxes: Seq<PresenceBox>,
    setter: Seq<char>,
    first: Value,
    second: Value,
)
    ensures
        spec_with(spec_with(boxes, setter, first), setter, second) == spec_with(
            boxes,
            setter,
            second,
        ),
{
    lemma_first_setter(boxes, setter, 0);
    law_setter_keeps_the_rest(boxes, setter, first);
    lemma_same_setters_same_position(spec_with(boxes, setter, first), boxes, setter, 0);
}

/// Setters of different names may be called in either order: the outcome is
/// the same.
pub proof fn law_setters_commute(
    boxes: Seq<PresenceBox>,
    one: Seq<char>,
    one_value: Value,
    other: Seq<char>,
    other_value: Value,
)
    requires
        one != other,
    ensures
        spec_with(spec_with(boxes, one, one_value), other, other_value) == spec_with(
            spec_with(boxes, other, other_value),
            one,
            one_value,
        ),
{
    lemma_first_setter(boxes, one, 0);
    lemma_first_setter(boxes, other, 0);
    law_setter_keeps_the_rest(boxes, one, one_value);
    law_setter_keeps_the_rest(boxes, other, other_value);
    lemma_same_setters_same_position(spec_with(boxes, one, one_value), boxes, other, 0);
    lemma_same_setters_same_position(spec_with(boxes, other, other_value), boxes, one, 0);
}

/// In a declaration whose fields have different names, every field has a
/// setter of its own: called on a companion value whose boxes mirror the
/// fields, the setter of the field at a position fills the box at that
/// position.
pub proof fn law_setter_reaches_its_field(
    declaration: TypeDeclarationView,
    boxes: Seq<PresenceBox>,
    at: int,
)
    requires
        declaration.well_formed(),
        0 <= at < declaration.fields().len(),
        boxes.len() == declaration.fields().len(),
        forall|i: int|
            0 <= i < boxes.len() ==> (#[trigger] boxes[i]).setter@ == spec_setter_name(
                declaration.fields()[i].name,
            ),
    ensures
        setter_position(boxes, spec_setter_name(declaration.fields()[at].name)) == at,
{
    let fields = declaration.fields();
    let setter = spec_setter_name(fields[at].name);
    lemma_first_setter(boxes, setter, 0);
    let found = setter_position(boxes, setter);
    assert(boxes[at].setter@ == setter);
    if found < at {
        let prefix = "with_"@;
        assert(fields[found].name =~= (prefix + fields[found].name).subrange(
            prefix.len() as int,
            (prefix + fields[found].name).len() as int,
        ));
        assert(fields[at].name =~= (prefix + fields[at].name).subrange(
            prefix.len() as int,
            (prefix + fields[at].name).len() as int,
        ));
        assert(fields[found].name == fields[at].name);
    }
}

/// A field that may be left unset and was left unset resolves to the
/// default value of its declared type: the empty text for text, the empty
/// sequence for a sequence, `false` for the truth value, zero for an
/// integer, and the type's own default for any other type.
pub proof fn law_unset_field_takes_the_default(field: FieldView, step: Step, value: Value)
    requires
        spec_defaultable(field),
        step@ == spec_step(field),
        spec_resolved(step, None, value),
    ensures
        is_default_value(spec_default_kind(field.ty), value),
{
}

/// A field that was set resolves to the value that was set, whether or not
/// it has a default.
pub proof fn law_set_field_keeps_its_value(step: Step, given: Value, value: Value)
    requires
        spec_resolved(step, Some(given), value),
    ensures
        value == given,
{
}

/// The view that an accessor hands out over a sequence has the length of
/// the sequence and its elements in the same order.
pub proof fn law_sequence_is_viewed_in_order(
    shape: ReturnShape,
    items: Vec<Value>,
    reading: Option<Reading>,
)
    requires
        shape is Elements,
        spec_reading(shape, Value::Sequence(items), reading),
    ensures
        reading matches Some(Reading::Elements(view)) && view@.len() == items@.len() && forall|
            i: int,
        |
            0 <= i < items@.len() ==> view@[i] == items@[i],
{
}

/// A sequence type has an element type exactly where the last segment of
/// its path carries exactly one argument between angle brackets and that
/// argument is a type; the element type is then that argument, as it is
/// written. The segments before the last play no part.
pub proof fn law_element_type(ty: DeclaredTypeView)
    ensures
        spec_element_type(ty) is Some <==> {
            &&& ty.form matches TypeFormView::Path(segments)
            &&& segments.len() > 0
            &&& segments.last().arguments matches PathArgumentsView::AngleBracketed(arguments)
            &&& arguments.len() == 1
            &&& arguments[0] is Type
        },
        spec_element_type(ty) matches Some(element) ==> {
            &&& ty.form matches TypeFormView::Path(segments)
            &&& segments.last().arguments matches PathArgumentsView::AngleBracketed(arguments)
            &&& arguments[0] == GenericArgumentView::Type(element)
        },
{
}

/// Generation succeeds exactly where the declaration is a record, its first
/// custom-name directive, if it has one, has a string argument, and every
/// exposed field has a type that an accessor can be shaped for.
pub proof fn law_generation_succeeds(declaration: TypeDeclarationView)
    ensures
        spec_builder_macro(declaration) is Ok <==> {
            &&& declaration.body is Record
            &&& spec_custom_name(declaration.annotations) is Ok
            &&& forall|i: int|
                0 <= i < declaration.fields().len() && spec_exposed(
                    #[trigger] declaration.fields()[i],
                ) ==> spec_return_shape(declaration.fields()[i].ty) is Ok
        },
{
    law_accessors_succeed(declaration.fields());
}

/// The name is that of no directive.
pub open spec fn spec_unknown_name(name: Seq<char>) -> bool {
    &&& name != Directive::CustomName.spec_name()
    &&& name != Directive::GenerateValidator.spec_name()
    &&& name != Directive::Expose.spec_name()
    &&& name != Directive::Defaultable.spec_name()
}

proof fn lemma_insert_keeps_named(
    annotations: Seq<AnnotationView>,
    at: int,
    extra: AnnotationView,
    name: Seq<char>,
)
    requires
        0 <= at <= annotations.len(),
        extra.name != name,
    ensures
        ({
            let longer = annotations.insert(at, extra);
            let before = first_named(annotations, name);
            let after = first_named(longer, name);
            &&& before < annotations.len() <==> after < longer.len()
            &&& before < annotations.len() ==> longer[after] == annotations[before]
        }),
{
    let longer = annotations.insert(at, extra);
    let before = first_named(annotations, name);
    lemma_first_named(annotations, name, 0);
    lemma_first_named(longer, name, 0);
    if before < annotations.len() {
        let moved = if before < at {
            before
        } else {
            before + 1
        };
        assert(longer[moved] == annotations[before]);
    }
}

proof fn lemma_insert_keeps_directive(
    annotations: Seq<AnnotationView>,
    at: int,
    extra: AnnotationView,
    directive: Directive,
)
    requires
        0 <= at <= annotations.len(),
        extra.name != directive.spec_name(),
    ensures
        spec_has_directive(annotations.insert(at, extra), directive) == spec_has_directive(
            annotations,
            directive,
        ),
        spec_has_helper(annotations.insert(at, extra), directive) == spec_has_helper(
            annotations,
            directive,
        ),
{
    let longer = annotations.insert(at, extra);
    assert forall|i: int| 0 <= i < annotations.len() implies (#[trigger] annotations[i]) == longer[if i
        < at {
        i
    } else {
        i + 1
    }] by {}
}

/// An annotation under a name that is no directive's changes nothing:
/// wherever it is put among the annotations of a declaration or of a field,
/// every directive is read as it is without it, and so is the custom name.
pub proof fn law_unknown_annotation_is_passed_over(
    annotations: Seq<AnnotationView>,
    at: int,
    extra: AnnotationView,
)
    requires
        0 <= at <= annotations.len(),
        spec_unknown_name(extra.name),
    ensures
        forall|directive: Directive| #[trigger]
            spec_has_directive(annotations.insert(at, extra), directive) == spec_has_directive(
                annotations,
                directive,
            ),
        forall|directive: Directive| #[trigger]
            spec_has_helper(annotations.insert(at, extra), directive) == spec_has_helper(
                annotations,
                directive,
            ),
        spec_field_directives(annotations.insert(at, extra)) == spec_field_directives(annotations),
        spec_custom_name(annotations.insert(at, extra)) == spec_custom_name(annotations),
{
    assert forall|directive: Directive| #[trigger]
        spec_has_directive(annotations.insert(at, extra), directive) == spec_has_directive(
            annotations,
            directive,
        ) by {
        lemma_insert_keeps_directive(annotations, at, extra, directive);
    }
    assert forall|directive: Directive| #[trigger]
        spec_has_helper(annotations.insert(at, extra), directive) == spec_has_helper(
            annotations,
            directive,
        ) by {
        lemma_insert_keeps_directive(annotations, at, extra, directive);
    }
    lemma_insert_keeps_directive(annotations, at, extra, Directive::Expose);
    lemma_insert_keeps_directive(annotations, at, extra, Directive::Defaultable);
    lemma_insert_keeps_named(annotations, at, extra, Directive::CustomName.spec_name());
}

/// An annotation under a name that is no directive's, put among the
/// annotations of a declaration, changes nothing of what is generated.
pub proof fn law_unknown_annotation_on_a_declaration(
    declaration: TypeDeclarationView,
    at: int,
    extra: AnnotationView,
)
    requires
        0 <= at <= declaration.annotations.len(),
        spec_unknown_name(extra.name),
    ensures
        spec_builder_macro(
            TypeDeclarationView {
                annotations: declaration.annotations.insert(at, extra),
                ..declaration
            },
        ) == spec_builder_macro(declaration),
{
    law_unknown_annotation_is_passed_over(declaration.annotations, at, extra);
}

proof fn lemma_same_directives_same_accessors(a: Seq<FieldView>, b: Seq<FieldView>, n: int)
    requires
        a.len() == b.len(),
        0 <= n <= a.len(),
        forall|i: int|
            0 <= i < a.len() ==> {
                &&& (#[trigger] a[i]).name == b[i].name
                &&& a[i].ty == b[i].ty
                &&& spec_field_directives(a[i].annotations) == spec_field_directives(
                    b[i].annotations,
                )
            },
    ensures
        spec_getters_upto(a, n) == spec_getters_upto(b, n),
    decreases n,
{
    if n > 0 {
        lemma_same_directives_same_accessors(a, b, n - 1);
    }
}

/// An annotation under a name that is no directive's, put among the
/// annotations of a field, changes nothing of what is generated.
pub proof fn law_unknown_annotation_on_a_field(
    declaration: TypeDeclarationView,
    field: int,
    at: int,
    extra: AnnotationView,
)
    requires
        declaration.body is Record,
        0 <= field < declaration.fields().len(),
        0 <= at <= declaration.fields()[field].annotations.len(),
        spec_unknown_name(extra.name),
    ensures
        ({
            let fields = declaration.fields();
            let annotated = FieldView {
                annotations: fields[field].annotations.insert(at, extra),
                ..fields[field]
            };
            spec_builder_macro(
                TypeDeclarationView {
                    body: BodyView::Record(fields.update(field, annotated)),
                    ..declaration
                },
            ) == spec_builder_macro(declaration)
        }),
{
    let fields = declaration.fields();
    let annotated = FieldView {
        annotations: fields[field].annotations.insert(at, extra),
        ..fields[field]
    };
    let changed = fields.update(field, annotated);
    law_unknown_annotation_is_passed_over(fields[field].annotations, at, extra);
    assert forall|i: int| 0 <= i < fields.len() implies {
        &&& (#[trigger] fields[i]).name == changed[i].name
        &&& fields[i].ty == changed[i].ty
        &&& spec_field_directives(fields[i].annotations) == spec_field_directives(
            changed[i].annotations,
        )
    } by {}
    lemma_same_directives_same_accessors(fields, changed, fields.len() as int);
    assert(spec_steps(changed) =~= spec_steps(fields));
    assert(spec_companion_fields(changed) =~= spec_companion_fields(fields));
}

} // verus!
