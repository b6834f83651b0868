//! A model of the generated code at work: companion values whose presence
//! boxes are filled by setters, the validating constructor that turns one
//! into a record, and accessors that read a record.

use vstd::prelude::*;
use vstd::string::*;
use crate::accessor::{Accessor, AccessorBlock, ReturnShape};
use crate::companion::CompanionType;
use crate::error::{BuilderError, BuilderErrorView};
use crate::text::text_eq;
use crate::validator::{DefaultKind, Resolution, Step, Validator};

verus! {

/// A value of a field.
#[derive(Debug, PartialEq, Eq)]
pub enum Value {
    /// A text.
    Text(String),
    /// A sequence of values.
    Sequence(Vec<Value>),
    /// A truth value.
    Flag(bool),
    /// A number.
    Number(u64),
    /// The default of a type that is neither text nor a sequence, a truth
    /// value or an integer. The generator does not look into such a type,
    /// and neither does the model: the value stands for whatever the
    /// type's default is.
    TypeDefault,
}

/// One presence box of a companion value: absent until its setter is called.
#[derive(Debug, PartialEq, Eq)]
pub struct PresenceBox {
    pub field: String,
    pub setter: String,
    pub value: Option<Value>,
}

/// A value of a companion type: one presence box for each field, in the
/// order of the declaration.
#[derive(Debug, PartialEq, Eq)]
pub struct Companion {
    pub boxes: Vec<PresenceBox>,
}

/// One field of an assembled value.
#[derive(Debug, PartialEq, Eq)]
pub struct RecordField {
    pub name: String,
    pub value: Value,
}

/// An assembled value of a declared type.
#[derive(Debug, PartialEq, Eq)]
pub struct Record {
    pub target: String,
    pub fields: Vec<RecordField>,
}

/// What an accessor hands out: a view into the record, never a copy.
#[derive(Clone, Copy, Debug, PartialEq, Eq)]
pub enum Reading<'a> {
    Text(&'a str),
    Elements(&'a [Value]),
    Reference(&'a Value),
}

/// The position of the first box at or after `start` whose setter has the
/// name; the number of boxes where there is none.
pub open spec fn first_setter_from(boxes: Seq<PresenceBox>, setter: Seq<char>, start: int) -> int
    decreases boxes.len() - start,
{
    if start < 0 || start >= boxes.len() {
        boxes.len() as int
    } else if boxes[start].setter@ == setter {
        start
    } else {
        first_setter_from(boxes, setter, start + 1)
    }
}

/// The position of the box that the setter fills; the number of boxes where
/// no setter has the name.
pub open spec fn setter_position(boxes: Seq<PresenceBox>, setter: Seq<char>) -> int {
    first_setter_from(boxes, setter, 0)
}

/// Some setter has the name.
pub open spec fn spec_has_setter(boxes: Seq<PresenceBox>, setter: Seq<char>) -> bool {
    setter_position(boxes, setter) < boxes.len()
}

/// The boxes after a call of the setter: the box that it fills holds the
/// value, whatever it held before, and every other box is as it was.
pub open spec fn spec_with(boxes: Seq<PresenceBox>, setter: Seq<char>, value: Value) -> Seq<
    PresenceBox,
> {
    let at = setter_position(boxes, setter);
    if at < boxes.len() {
        boxes.update(
            at,
            PresenceBox { field: boxes[at].field, setter: boxes[at].setter, value: Some(value) },
        )
    } else {
        boxes
    }
}

/// `first_setter_from` is the least position, from `start` on, of a box
/// whose setter has the name.
pub proof fn lemma_first_setter(boxes: Seq<PresenceBox>, setter: Seq<char>, start: int)
    requires
        0 <= start <= boxes.len(),
    ensures
        start <= first_setter_from(boxes, setter, start) <= boxes.len(),
        forall|j: int|
            start <= j < first_setter_from(boxes, setter, start) ==> (#[trigger] boxes[j]).setter@
                != setter,
        first_setter_from(boxes, setter, start) < boxes.len() ==> boxes[first_setter_from(
            boxes,
            setter,
            start,
        )].setter@ == setter,
    decreases boxes.len() - start,
{
    if start < boxes.len() && boxes[start].setter@ != setter {
        lemma_first_setter(boxes, setter, start + 1);
    }
}

impl CompanionType {
    /// The empty companion value: every presence box is absent.
    pub fn new_instance(&self) -> (r: Companion)
        ensures
            r.boxes@.len() == self.fields@.len(),
            forall|i: int|
                0 <= i < self.fields@.len() ==> {
                    &&& (#[trigger] r.boxes@[i]).field@ == self.fields@[i].name@
                    &&& r.boxes@[i].setter@ == self.fields@[i].setter@
                    &&& r.boxes@[i].value is None
                },
    {
        let mut boxes: Vec<PresenceBox> = Vec::new();
        let mut i: usize = 0;
        while i < self.fields.len()
            invariant
                i <= self.fields.len(),
                boxes@.len() == i,
                forall|j: int|
                    0 <= j < i ==> {
                        &&& (#[trigger] boxes@[j]).field@ == self.fields@[j].name@
                        &&& boxes@[j].setter@ == self.fields@[j].setter@
                        &&& boxes@[j].value is None
                    },
            decreases self.fields.len() - i,
        {
            let field = &self.fields[i];
            boxes.push(
                PresenceBox { field: field.name.clone(), setter: field.setter.clone(), value: None },
            );
            i += 1;
        }
        Companion { boxes }
    }
}

impl Companion {
    /// Whether the companion value has a setter of the name.
    pub fn has_setter(&self, setter: &str) -> (r: bool)
        ensures
            r == spec_has_setter(self.boxes@, setter@),
    {
        let mut i: usize = 0;
        while i < self.boxes.len()
            invariant
                i <= self.boxes.len(),
                setter_position(self.boxes@, setter@) == first_setter_from(
                    self.boxes@,
                    setter@,
                    i as int,
                ),
            decreases self.boxes.len() - i,
        {
            if text_eq(self.boxes[i].setter.as_str(), setter) {
                return true;
            }
            i += 1;
        }
        false
    }

    /// Calls the setter of the name: takes the companion value, fills the
    /// setter's box with the value, and hands the companion value back.
    /// Nothing is checked and nothing can fail; a box that was filled
    /// before holds the new value. A name that no setter has changes
    /// nothing.
    pub fn with(self, setter: &str, value: Value) -> (r: Companion)
        ensures
            r.boxes@ == spec_with(self.boxes@, setter@, value),
    {
        let mut boxes = self.boxes;
        let mut i: usize = 0;
        while i < boxes.len()
            invariant
                i <= boxes.len(),
                boxes == self.boxes,
                setter_position(boxes@, setter@) == first_setter_from(boxes@, setter@, i as int),
            decreases boxes.len() - i,
        {
            if text_eq(boxes[i].setter.as_str(), setter) {
                boxes[i].value = Some(value);
                return Companion { boxes };
            }
            i += 1;
        }
        Companion { boxes }
    }
}

/// The position of the first step at or after `start` that needs a value
/// where the box holds none; the number of steps where there is none.
pub open spec fn first_missing_from(steps: Seq<Step>, boxes: Seq<PresenceBox>, start: int) -> int
    decreases steps.len() - start,
{
    if start < 0 || start >= steps.len() {
        steps.len() as int
    } else if steps[start].resolution == Resolution::Required && boxes[start].value is None {
        start
    } else {
        first_missing_from(steps, boxes, start + 1)
    }
}

/// The position of the first field, in declared order, that has no default
/// and was never set; the number of steps where every such field was set.
pub open spec fn first_missing(steps: Seq<Step>, boxes: Seq<PresenceBox>) -> int {
    first_missing_from(steps, boxes, 0)
}

/// The value is the default of its kind: the empty text, the empty
/// sequence, `false`, zero, or the default of an opaque type.
pub open spec fn is_default_value(kind: DefaultKind, value: Value) -> bool {
    match kind {
        DefaultKind::Text => value matches Value::Text(text) && text@ == Seq::<char>::empty(),
        DefaultKind::Sequence => value matches Value::Sequence(items) && items@.len() == 0,
        DefaultKind::Flag => value == Value::Flag(false),
        DefaultKind::Number => value == Value::Number(0),
        DefaultKind::Opaque => value == Value::TypeDefault,
    }
}

/// The value is what the step resolves the box to: the value that the box
/// holds, or, for an empty box, the default of a field that has one.
pub open spec fn spec_resolved(step: Step, held: Option<Value>, value: Value) -> bool {
    match held {
        Some(given) => value == given,
        None => step.resolution matches Resolution::OrDefault(kind) && is_default_value(
            kind,
            value,
        ),
    }
}

/// `first_missing_from` is the least position, from `start` on, of a field
/// that has no default and was never set.
pub proof fn lemma_first_missing(steps: Seq<Step>, boxes: Seq<PresenceBox>, start: int)
    requires
        0 <= start <= steps.len(),
    ensures
        start <= first_missing_from(steps, boxes, start) <= steps.len(),
        forall|j: int|
            start <= j < first_missing_from(steps, boxes, start) ==> !((#[trigger] steps[j]).resolution
                == Resolution::Required && boxes[j].value is None),
        first_missing_from(steps, boxes, start) < steps.len() ==> {
            let at = first_missing_from(steps, boxes, start);
            steps[at].resolution == Resolution::Required && boxes[at].value is None
        },
    decreases steps.len() - start,
{
    if start < steps.len() && !(steps[start].resolution == Resolution::Required
        && boxes[start].value is None) {
        lemma_first_missing(steps, boxes, start + 1);
    }
}

/// The default value of a kind.
pub fn default_value(kind: DefaultKind) -> (r: Value)
    ensures
        is_default_value(kind, r),
{
    match kind {
        DefaultKind::Text => Value::Text(String::new()),
        DefaultKind::Sequence => Value::Sequence(Vec::new()),
        DefaultKind::Flag => Value::Flag(false),
        DefaultKind::Number => Value::Number(0),
        DefaultKind::Opaque => Value::TypeDefault,
    }
}

impl Validator {
    /// The validating constructor: takes a companion value of the
    /// validator's companion type and resolves its boxes in declared order.
    /// It fails at the first field that has no default and was never set,
    /// with that field's name, and looks no further. Otherwise the record
    /// has one field for each step, in order, under the step's name: the
    /// value that was set, or the default where none was.
    pub fn build(&self, instance: Companion) -> (r: Result<Record, BuilderError>)
        requires
            instance.boxes@.len() == self.steps@.len(),
        ensures
            r is Ok <==> forall|i: int|
                0 <= i < self.steps@.len() && (#[trigger] self.steps@[i]).resolution
                    == Resolution::Required ==> instance.boxes@[i].value is Some,
            match r {
                Ok(record) => {
                    &&& first_missing(self.steps@, instance.boxes@) == self.steps@.len()
                    &&& record.target@ == self.target@
                    &&& record.fields@.len() == self.steps@.len()
                    &&& forall|i: int|
                        0 <= i < self.steps@.len() ==> {
                            &&& (#[trigger] record.fields@[i]).name@ == self.steps@[i].field@
                            &&& spec_resolved(
                                self.steps@[i],
                                instance.boxes@[i].value,
                                record.fields@[i].value,
                            )
                        }
                },
                Err(error) => {
                    let missing = first_missing(self.steps@, instance.boxes@);
                    &&& missing < self.steps@.len()
                    &&& error@ == BuilderErrorView::MissingField(self.steps@[missing].field@)
                },
            },
    {
        let ghost given = instance.boxes@;
        let mut boxes = instance.boxes;
        let mut fields: Vec<RecordField> = Vec::new();
        let mut i: usize = 0;
        while i < self.steps.len()
            invariant
                i <= self.steps.len(),
                boxes@.len() == self.steps@.len(),
                given == instance.boxes@,
                given.len() == self.steps@.len(),
                first_missing(self.steps@, given) == first_missing_from(self.steps@, given, i as int),
                forall|j: int| i <= j < boxes@.len() ==> boxes@[j] == given[j],
                fields@.len() == i,
                forall|j: int|
                    0 <= j < i ==> {
                        &&& (#[trigger] fields@[j]).name@ == self.steps@[j].field@
                        &&& spec_resolved(self.steps@[j], given[j].value, fields@[j].value)
                    },
            decreases self.steps.len() - i,
        {
            let step = &self.steps[i];
            let held = boxes[i].value.take();
            let value = match held {
                Some(given_value) => given_value,
                None => match step.resolution {
                    Resolution::OrDefault(kind) => default_value(kind),
                    Resolution::Required => {
                        proof {
                            lemma_first_missing(self.steps@, given, 0);
                        }
                        return Err(BuilderError::MissingField(step.field.clone()));
                    },
                },
            };
            fields.push(RecordField { name: step.field.clone(), value });
            i += 1;
        }
        proof {
            lemma_first_missing(self.steps@, given, 0);
        }
        Ok(Record { target: self.target.clone(), fields })
    }
}

/// The position of the first field at or after `start` that has the name;
/// the number of fields where there is none.
pub open spec fn first_field_from(fields: Seq<RecordField>, name: Seq<char>, start: int) -> int
    decreases fields.len() - start,
{
    if start < 0 || start >= fields.len() {
        fields.len() as int
    } else if fields[start].name@ == name {
        start
    } else {
        first_field_from(fields, name, start + 1)
    }
}

/// The position of the field of the name; the number of fields where there
/// is none.
pub open spec fn field_position(fields: Seq<RecordField>, name: Seq<char>) -> int {
    first_field_from(fields, name, 0)
}

/// What an accessor of the shape hands out for a value: for text, a view
/// that holds the same characters; for a sequence, a view over the same
/// elements in the same order; for anything else, the value in place.
/// Nothing where the value is not of the shape.
pub open spec fn spec_reading(shape: ReturnShape, value: Value, reading: Option<Reading>) -> bool {
    match shape {
        ReturnShape::Text => match value {
            Value::Text(text) => reading matches Some(Reading::Text(view)) && view@ == text@,
            _ => reading is None,
        },
        ReturnShape::Elements(_) => match value {
            Value::Sequence(items) => reading matches Some(Reading::Elements(view)) && view@
                == items@,
            _ => reading is None,
        },
        ReturnShape::Reference(_) => reading == Some(Reading::Reference(&value)),
    }
}

/// `first_field_from` is the least position, from `start` on, of a field of
/// the name: no field before it has the name, and where it is a position of
/// the record, the field there has the name.
pub proof fn lemma_first_field(fields: Seq<RecordField>, name: Seq<char>, start: int)
    requires
        0 <= start <= fields.len(),
    ensures
        start <= first_field_from(fields, name, start) <= fields.len(),
        forall|j: int|
            start <= j < first_field_from(fields, name, start) ==> (#[trigger] fields[j]).name@
                != name,
        first_field_from(fields, name, start) < fields.len() ==> fields[first_field_from(
            fields,
            name,
            start,
        )].name@ == name,
    decreases fields.len() - start,
{
    if start < fields.len() && fields[start].name@ != name {
        lemma_first_field(fields, name, start + 1);
    }
}

/// `field_position` is the least position of a field of the name, and it is
/// the number of fields exactly where no field has the name.
pub proof fn lemma_field_position(fields: Seq<RecordField>, name: Seq<char>)
    ensures
        0 <= field_position(fields, name) <= fields.len(),
        forall|j: int|
            0 <= j < field_position(fields, name) ==> (#[trigger] fields[j]).name@ != name,
        field_position(fields, name) < fields.len() ==> fields[field_position(fields, name)].name@
            == name,
        field_position(fields, name) == fields.len() <==> forall|j: int|
            0 <= j < fields.len() ==> (#[trigger] fields[j]).name@ != name,
{
    lemma_first_field(fields, name, 0);
}

impl Accessor {
    /// Reads the accessor's field of the record. Nothing is copied: the
    /// reading borrows from the record. There is no reading where the
    /// record has no field of the accessor's name, or where the value is
    /// not of the accessor's shape.
    pub fn read<'a>(&self, record: &'a Record) -> (r: Option<Reading<'a>>)
        ensures
            ({
                let at = field_position(record.fields@, self.name@);
                if at < record.fields@.len() {
                    spec_reading(self.shape, record.fields@[at].value, r)
                } else {
                    r is None
                }
            }),
    {
        let mut i: usize = 0;
        while i < record.fields.len()
            invariant
                i <= record.fields.len(),
                field_position(record.fields@, self.name@) == first_field_from(
                    record.fields@,
                    self.name@,
                    i as int,
                ),
            decreases record.fields.len() - i,
        {
            let field = &record.fields[i];
            if text_eq(field.name.as_str(), self.name.as_str()) {
                return match &self.shape {
                    ReturnShape::Text => match &field.value {
                        Value::Text(text) => Some(Reading::Text(text.as_str())),
                        _ => None,
                    },
                    ReturnShape::Elements(_) => match &field.value {
                        Value::Sequence(items) => Some(Reading::Elements(items.as_slice())),
                        _ => None,
                    },
                    ReturnShape::Reference(_) => Some(Reading::Reference(&field.value)),
                };
            }
            i += 1;
        }
        None
    }
}

/// The position of the first accessor at or after `start` that has the
/// name; the number of accessors where there is none.
pub open spec fn first_accessor_from(accessors: Seq<Accessor>, name: Seq<char>, start: int) -> int
    decreases accessors.len() - start,
{
    if start < 0 || start >= accessors.len() {
        accessors.len() as int
    } else if accessors[start].name@ == name {
        start
    } else {
        first_accessor_from(accessors, name, start + 1)
    }
}

/// The position of the accessor of the name; the number of accessors where
/// there is none.
pub open spec fn accessor_position(accessors: Seq<Accessor>, name: Seq<char>) -> int {
    first_accessor_from(accessors, name, 0)
}

/// `first_accessor_from` is the least position, from `start` on, of an
/// accessor of the name: no accessor before it has the name, and where it is
/// a position of the block, the accessor there has the name.
pub proof fn lemma_first_accessor(accessors: Seq<Accessor>, name: Seq<char>, start: int)
    requires
        0 <= start <= accessors.len(),
    ensures
        start <= first_accessor_from(accessors, name, start) <= accessors.len(),
        forall|j: int|
            start <= j < first_accessor_from(accessors, name, start) ==> (
            #[trigger] accessors[j]).name@ != name,
        first_accessor_from(accessors, name, start) < accessors.len()
            ==> accessors[first_accessor_from(accessors, name, start)].name@ == name,
    decreases accessors.len() - start,
{
    if start < accessors.len() && accessors[start].name@ != name {
        lemma_first_accessor(accessors, name, start + 1);
    }
}

/// `accessor_position` is the least position of an accessor of the name, and
/// it is the number of accessors exactly where no accessor has the name.
pub proof fn lemma_accessor_position(accessors: Seq<Accessor>, name: Seq<char>)
    ensures
        0 <= accessor_position(accessors, name) <= accessors.len(),
        forall|j: int|
            0 <= j < accessor_position(accessors, name) ==> (#[trigger] accessors[j]).name@
                != name,
        accessor_position(accessors, name) < accessors.len() ==> accessors[accessor_position(
            accessors,
            name,
        )].name@ == name,
        accessor_position(accessors, name) == accessors.len() <==> forall|j: int|
            0 <= j < accessors.len() ==> (#[trigger] accessors[j]).name@ != name,
{
    lemma_first_accessor(accessors, name, 0);
}

impl AccessorBlock {
    /// Calls the accessor of the name on the record. There is no reading
    /// where the block has no accessor of the name, which is so for every
    /// field that is not exposed; otherwise the reading is the accessor's.
    pub fn read<'a>(&self, name: &str, record: &'a Record) -> (r: Option<Reading<'a>>)
        ensures
            ({
                let which = accessor_position(self.accessors@, name@);
                let at = field_position(record.fields@, name@);
                if which < self.accessors@.len() && at < record.fields@.len() {
                    spec_reading(self.accessors@[which].shape, record.fields@[at].value, r)
                } else {
                    r is None
                }
            }),
    {
        let mut i: usize = 0;
        while i < self.accessors.len()
            invariant
                i <= self.accessors.len(),
                accessor_position(self.accessors@, name@) == first_accessor_from(
                    self.accessors@,
                    name@,
                    i as int,
                ),
            decreases self.accessors.len() - i,
        {
            if text_eq(self.accessors[i].name.as_str(), name) {
                return self.accessors[i].read(record);
            }
            i += 1;
        }
        None
    }
}

} // verus!
