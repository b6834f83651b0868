//! The declaration handed to the generator: a named type, its ordered fields,
//! the description of each field's declared type, and the annotations
//! attached to the declaration and to each field.
//!
//! Every type here is plain data. Each has a view that replaces strings and
//! vectors by sequences, and the contracts of the generator are stated over
//! those views.

use vstd::prelude::*;
use vstd::string::*;

verus! {

/// The views of the elements of a sequence, in the same order.
pub open spec fn views<T: View>(items: Seq<T>) -> Seq<T::V> {
    items.map_values(|item: T| item@)
}

/// A position in the source that a diagnostic can be anchored to.
#[derive(Clone, Copy, Debug, PartialEq, Eq, Structural)]
pub struct SourceLocation {
    pub line: u32,
    pub column: u32,
}

impl SourceLocation {
    pub fn new(line: u32, column: u32) -> (r: SourceLocation)
        ensures
            r.line == line,
            r.column == column,
    {
        SourceLocation { line, column }
    }
}

/// What follows the name inside an annotation.
#[derive(Clone, Debug, PartialEq, Eq)]
pub enum Argument {
    /// Nothing: the annotation is a bare name.
    Absent,
    /// `= "..."`: a string literal, held without its quotes and escapes.
    Text(String),
    /// Another literal, or a parenthesised list.
    Other,
    /// Tokens that are no argument at all, or a name that is longer than a
    /// single identifier. The annotation is then known by the first
    /// identifier of its name.
    Unreadable,
}

pub enum ArgumentView {
    Absent,
    Text(Seq<char>),
    Other,
    Unreadable,
}

impl View for Argument {
    type V = ArgumentView;

    open spec fn view(&self) -> ArgumentView {
        match self {
            Argument::Absent => ArgumentView::Absent,
            Argument::Text(text) => ArgumentView::Text(text@),
            Argument::Other => ArgumentView::Other,
            Argument::Unreadable => ArgumentView::Unreadable,
        }
    }
}

/// One annotation on a declaration or on a field.
#[derive(Clone, Debug, PartialEq, Eq)]
pub struct Annotation {
    pub name: String,
    pub argument: Argument,
    pub location: SourceLocation,
}

pub struct AnnotationView {
    pub name: Seq<char>,
    pub argument: ArgumentView,
    pub location: SourceLocation,
}

impl View for Annotation {
    type V = AnnotationView;

    open spec fn view(&self) -> AnnotationView {
        AnnotationView {
            name: self.name@,
            argument: self.argument@,
            location: self.location,
        }
    }
}

impl Annotation {
    /// A bare annotation such as `#[getter]`.
    pub fn word(name: &str, location: SourceLocation) -> (r: Annotation)
        ensures
            r@ == (AnnotationView { name: name@, argument: ArgumentView::Absent, location }),
    {
        Annotation { name: String::from_str(name), argument: Argument::Absent, location }
    }

    /// An annotation with a string argument such as `#[builder_name = "Bar"]`.
    pub fn name_value(name: &str, text: &str, location: SourceLocation) -> (r: Annotation)
        ensures
            r@ == (AnnotationView {
                name: name@,
                argument: ArgumentView::Text(text@),
                location,
            }),
    {
        Annotation {
            name: String::from_str(name),
            argument: Argument::Text(String::from_str(text)),
            location,
        }
    }
}

/// One argument between the angle brackets of a path segment.
#[derive(Clone, Debug, PartialEq, Eq)]
pub enum GenericArgument {
    /// A type, held as it is written.
    Type(String),
    /// A lifetime, a constant, a binding or a constraint.
    Other,
}

pub enum GenericArgumentView {
    Type(Seq<char>),
    Other,
}

impl View for GenericArgument {
    type V = GenericArgumentView;

    open spec fn view(&self) -> GenericArgumentView {
        match self {
            GenericArgument::Type(text) => GenericArgumentView::Type(text@),
            GenericArgument::Other => GenericArgumentView::Other,
        }
    }
}

/// What follows the identifier of a path segment.
#[derive(Clone, Debug, PartialEq, Eq)]
pub enum PathArguments {
    /// Nothing, as in `String`.
    Plain,
    /// `<A, B>`, as in `Vec<u8>`.
    AngleBracketed(Vec<GenericArgument>),
    /// `(A, B) -> C`, as in `Fn(u8) -> u8`.
    Parenthesized,
}

pub enum PathArgumentsView {
    Plain,
    AngleBracketed(Seq<GenericArgumentView>),
    Parenthesized,
}

impl View for PathArguments {
    type V = PathArgumentsView;

    open spec fn view(&self) -> PathArgumentsView {
        match self {
            PathArguments::Plain => PathArgumentsView::Plain,
            PathArguments::AngleBracketed(arguments) => PathArgumentsView::AngleBracketed(
                views(arguments@),
            ),
            PathArguments::Parenthesized => PathArgumentsView::Parenthesized,
        }
    }
}

/// One segment of a path: `vec` or `Vec<u8>` in `std::vec::Vec<u8>`.
#[derive(Clone, Debug, PartialEq, Eq)]
pub struct PathSegment {
    pub ident: String,
    pub arguments: PathArguments,
}

pub struct PathSegmentView {
    pub ident: Seq<char>,
    pub arguments: PathArgumentsView,
}

impl View for PathSegment {
    type V = PathSegmentView;

    open spec fn view(&self) -> PathSegmentView {
        PathSegmentView { ident: self.ident@, arguments: self.arguments@ }
    }
}

/// The syntactic form of a declared type.
#[derive(Clone, Debug, PartialEq, Eq)]
pub enum TypeForm {
    /// A path, by its segments from left to right.
    Path(Vec<PathSegment>),
    /// A reference, a tuple, an array or any other form.
    Other,
}

pub enum TypeFormView {
    Path(Seq<PathSegmentView>),
    Other,
}

impl View for TypeForm {
    type V = TypeFormView;

    open spec fn view(&self) -> TypeFormView {
        match self {
            TypeForm::Path(segments) => TypeFormView::Path(views(segments@)),
            TypeForm::Other => TypeFormView::Other,
        }
    }
}

/// The type that a field is declared with: its text, which generated code
/// repeats as it is, its form, which decides the shape of an accessor, and
/// the place where it is written.
#[derive(Clone, Debug, PartialEq, Eq)]
pub struct DeclaredType {
    pub text: String,
    pub form: TypeForm,
    pub location: SourceLocation,
}

pub struct DeclaredTypeView {
    pub text: Seq<char>,
    pub form: TypeFormView,
    pub location: SourceLocation,
}

impl View for DeclaredType {
    type V = DeclaredTypeView;

    open spec fn view(&self) -> DeclaredTypeView {
        DeclaredTypeView { text: self.text@, form: self.form@, location: self.location }
    }
}

/// The view of the type written as a single identifier.
pub open spec fn named_type(ident: Seq<char>, location: SourceLocation) -> DeclaredTypeView {
    DeclaredTypeView {
        text: ident,
        form: TypeFormView::Path(seq![PathSegmentView { ident, arguments: PathArgumentsView::Plain }]),
        location,
    }
}

/// The view of the type written as an identifier with one type between angle
/// brackets.
pub open spec fn generic_type(
    ident: Seq<char>,
    argument: Seq<char>,
    location: SourceLocation,
) -> DeclaredTypeView {
    DeclaredTypeView {
        text: ident + "<"@ + argument + ">"@,
        form: TypeFormView::Path(
            seq![
                PathSegmentView {
                    ident,
                    arguments: PathArgumentsView::AngleBracketed(
                        seq![GenericArgumentView::Type(argument)],
                    ),
                },
            ],
        ),
        location,
    }
}

impl DeclaredType {
    /// A type written as a single identifier, such as `String` or `bool`.
    pub fn named(ident: &str, location: SourceLocation) -> (r: DeclaredType)
        ensures
            r@ == named_type(ident@, location),
    {
        let mut segments: Vec<PathSegment> = Vec::new();
        segments.push(PathSegment { ident: String::from_str(ident), arguments: PathArguments::Plain });
        let r = DeclaredType {
            text: String::from_str(ident),
            form: TypeForm::Path(segments),
            location,
        };
        proof {
            assert(views(segments@) =~= seq![
                PathSegmentView { ident: ident@, arguments: PathArgumentsView::Plain },
            ]);
        }
        r
    }

    /// A type written as an identifier with one type between angle brackets,
    /// such as `Vec<String>`.
    pub fn generic(ident: &str, argument: &str, location: SourceLocation) -> (r: DeclaredType)
        ensures
            r@ == generic_type(ident@, argument@, location),
    {
        let mut arguments: Vec<GenericArgument> = Vec::new();
        arguments.push(GenericArgument::Type(String::from_str(argument)));
        proof {
            assert(views(arguments@) =~= seq![GenericArgumentView::Type(argument@)]);
        }
        let mut segments: Vec<PathSegment> = Vec::new();
        segments.push(
            PathSegment {
                ident: String::from_str(ident),
                arguments: PathArguments::AngleBracketed(arguments),
            },
        );
        proof {
            assert(views(segments@) =~= seq![
                PathSegmentView {
                    ident: ident@,
                    arguments: PathArgumentsView::AngleBracketed(
                        seq![GenericArgumentView::Type(argument@)],
                    ),
                },
            ]);
        }
        let mut text = String::from_str(ident);
        text.append("<");
        text.append(argument);
        text.append(">");
        DeclaredType { text, form: TypeForm::Path(segments), location }
    }
}

/// One named field of a record.
#[derive(Clone, Debug, PartialEq, Eq)]
pub struct Field {
    pub name: String,
    pub ty: DeclaredType,
    pub annotations: Vec<Annotation>,
}

pub struct FieldView {
    pub name: Seq<char>,
    pub ty: DeclaredTypeView,
    pub annotations: Seq<AnnotationView>,
}

impl View for Field {
    type V = FieldView;

    open spec fn view(&self) -> FieldView {
        FieldView { name: self.name@, ty: self.ty@, annotations: views(self.annotations@) }
    }
}

/// What a declaration consists of.
#[derive(Clone, Debug, PartialEq, Eq)]
pub enum Body {
    /// Named fields, in the order in which they are declared.
    Record(Vec<Field>),
    /// Positional fields.
    Tuple,
    /// A set of variants.
    Variants,
    /// Overlapping fields.
    Union,
}

pub enum BodyView {
    Record(Seq<FieldView>),
    Tuple,
    Variants,
    Union,
}

impl View for Body {
    type V = BodyView;

    open spec fn view(&self) -> BodyView {
        match self {
            Body::Record(fields) => BodyView::Record(views(fields@)),
            Body::Tuple => BodyView::Tuple,
            Body::Variants => BodyView::Variants,
            Body::Union => BodyView::Union,
        }
    }
}

/// The declaration of a data type, as a parser hands it over.
#[derive(Clone, Debug, PartialEq, Eq)]
pub struct TypeDeclaration {
    pub name: String,
    pub annotations: Vec<Annotation>,
    pub body: Body,
    pub location: SourceLocation,
}

pub struct TypeDeclarationView {
    pub name: Seq<char>,
    pub annotations: Seq<AnnotationView>,
    pub body: BodyView,
    pub location: SourceLocation,
}

impl View for TypeDeclaration {
    type V = TypeDeclarationView;

    open spec fn view(&self) -> TypeDeclarationView {
        TypeDeclarationView {
            name: self.name@,
            annotations: views(self.annotations@),
            body: self.body@,
            location: self.location,
        }
    }
}

impl TypeDeclarationView {
    /// The fields of a record; none for any other body.
    pub open spec fn fields(self) -> Seq<FieldView> {
        match self.body {
            BodyView::Record(fields) => fields,
            _ => Seq::empty(),
        }
    }

    /// No two fields of the declaration share a name.
    pub open spec fn well_formed(self) -> bool {
        forall|i: int, j: int|
            0 <= i < j < self.fields().len() ==> self.fields()[i].name != self.fields()[j].name
    }
}

} // verus!
