use transact_derive::accessor::{
    generate_getters, generate_struct_impl, return_shape, Accessor, ReturnShape,
};
use transact_derive::builder::{derive_builder, generate_builder_macro, render_error, Diagnostic};
use transact_derive::companion::{generate_builder_struct, CompanionField};
use transact_derive::directive::{
    companion_name, custom_name, extract_builder_name, generate_builder_name, get_struct_fields, has_directive,
    has_gen_build_fn_attr, has_getter_attr, has_helper_attribute, has_optional_attr,
    parse_declaration_directives, parse_field_directives, DeclarationDirectives, FieldDirectives,
};
use transact_derive::error::{Directive, GenerationError};
use transact_derive::schema::{
    Annotation, Argument, Body, DeclaredType, Field, GenericArgument, PathArguments, PathSegment,
    SourceLocation, TypeDeclaration, TypeForm,
};
use transact_derive::shape::{
    extract_type_from_generic, is_flag, is_integer, is_named, is_string, is_type, is_vec,
};
use transact_derive::text::text_eq;
use transact_derive::validator::{
    default_kind, generate_build_impl, DefaultKind, Resolution, Step,
};

fn place(line: u32, column: u32) -> SourceLocation {
    SourceLocation::new(line, column)
}

fn member(name: &str, ty: DeclaredType, directives: &[&str]) -> Field {
    let at = ty.location;
    Field {
        name: name.to_string(),
        ty,
        annotations: directives.iter().map(|d| Annotation::word(d, at)).collect(),
    }
}

fn record(name: &str, annotations: Vec<Annotation>, fields: Vec<Field>) -> TypeDeclaration {
    TypeDeclaration { name: name.to_string(), annotations, body: Body::Record(fields), location: place(1, 1) }
}

fn path_type(text: &str, segments: Vec<(&str, PathArguments)>, at: SourceLocation) -> DeclaredType {
    DeclaredType {
        text: text.to_string(),
        form: TypeForm::Path(
            segments
                .into_iter()
                .map(|(ident, arguments)| PathSegment { ident: ident.to_string(), arguments })
                .collect(),
        ),
        location: at,
    }
}

fn organization_declaration() -> TypeDeclaration {
    record(
        "Organization",
        vec![
            Annotation::word("gen_build_impl", place(1, 1)),
            Annotation::name_value("builder_name", "OrgBuilder", place(2, 1)),
        ],
        vec![member("org_id", DeclaredType::named("String", place(4, 5)), &["getter"])],
    )
}

#[test]
fn text_eq_compares_characters() {
    assert!(text_eq("getter", "getter"));
    assert!(!text_eq("getter", "getters"));
    assert!(!text_eq("Getter", "getter"));
    assert!(text_eq("", ""));
}

#[test]
fn directive_names() {
    assert_eq!("builder_name", Directive::CustomName.name());
    assert_eq!("gen_build_impl", Directive::GenerateValidator.name());
    assert_eq!("getter", Directive::Expose.name());
    assert_eq!("optional", Directive::Defaultable.name());
}

#[test]
fn constructors_of_declared_types() {
    let named = DeclaredType::named("bool", place(3, 4));
    assert_eq!("bool", named.text);
    assert_eq!(
        TypeForm::Path(vec![PathSegment { ident: "bool".to_string(), arguments: PathArguments::Plain }]),
        named.form
    );
    assert_eq!(place(3, 4), named.location);

    let generic = DeclaredType::generic("Vec", "u8", place(5, 6));
    assert_eq!("Vec<u8>", generic.text);
    assert_eq!(
        TypeForm::Path(vec![PathSegment {
            ident: "Vec".to_string(),
            arguments: PathArguments::AngleBracketed(vec![GenericArgument::Type("u8".to_string())]),
        }]),
        generic.form
    );
}

#[test]
fn constructors_of_annotations() {
    assert_eq!(
        Annotation { name: "getter".to_string(), argument: Argument::Absent, location: place(1, 2) },
        Annotation::word("getter", place(1, 2))
    );
    assert_eq!(
        Annotation {
            name: "builder_name".to_string(),
            argument: Argument::Text("Bar".to_string()),
            location: place(1, 2)
        },
        Annotation::name_value("builder_name", "Bar", place(1, 2))
    );
}

#[test]
fn field_directives_are_found_by_name() {
    let both = member("role", DeclaredType::named("String", place(1, 1)), &["getter", "optional"]);
    assert!(has_getter_attr(&both));
    assert!(has_optional_attr(&both));
    assert!(has_helper_attribute(&both, Directive::Expose));
    assert!(!has_helper_attribute(&both, Directive::CustomName));

    let neither = member("role", DeclaredType::named("String", place(1, 1)), &["serde", "doc"]);
    assert!(!has_getter_attr(&neither));
    assert!(!has_optional_attr(&neither));

    let bare = member("role", DeclaredType::named("String", place(1, 1)), &[]);
    assert!(!has_getter_attr(&bare));
}

#[test]
fn an_argument_does_not_hide_a_field_directive() {
    let mut field = member("role", DeclaredType::named("String", place(1, 1)), &[]);
    field.annotations.push(Annotation {
        name: "getter".to_string(),
        argument: Argument::Other,
        location: place(1, 1),
    });
    field.annotations.push(Annotation::name_value("optional", "yes", place(1, 1)));
    assert!(has_getter_attr(&field));
    assert!(has_optional_attr(&field));
}

#[test]
fn validator_directive_is_found_among_others() {
    assert!(has_gen_build_fn_attr(&vec![
        Annotation::word("derive", place(1, 1)),
        Annotation::word("gen_build_impl", place(2, 1)),
    ]));
    assert!(!has_gen_build_fn_attr(&vec![Annotation::word("derive", place(1, 1))]));
    assert!(!has_gen_build_fn_attr(&vec![]));
}

#[test]
fn builder_name_of_one_annotation() {
    assert_eq!(Ok(None), extract_builder_name(&Annotation::word("getter", place(1, 1))));
    assert_eq!(
        Ok(Some("Bar".to_string())),
        extract_builder_name(&Annotation::name_value("builder_name", "Bar", place(1, 1)))
    );
    assert_eq!(
        Err(GenerationError::MalformedDirectiveArgument {
            directive: Directive::CustomName,
            location: place(7, 3)
        }),
        extract_builder_name(&Annotation::word("builder_name", place(7, 3)))
    );
    assert_eq!(
        Err(GenerationError::MalformedDirectiveArgument {
            directive: Directive::CustomName,
            location: place(8, 3)
        }),
        extract_builder_name(&Annotation {
            name: "builder_name".to_string(),
            argument: Argument::Other,
            location: place(8, 3)
        })
    );
    assert_eq!(
        Ok(None),
        extract_builder_name(&Annotation::name_value("other_name", "Bar", place(1, 1)))
    );
}

#[test]
fn default_builder_name_appends_builder() {
    let declaration = record("Agent", vec![Annotation::word("gen_build_impl", place(1, 1))], vec![]);
    assert_eq!(Ok("AgentBuilder".to_string()), generate_builder_name(&declaration));
    assert_eq!(Ok(None), custom_name(&declaration.annotations));
}

#[test]
fn custom_builder_name_is_verbatim() {
    assert_eq!(Ok("OrgBuilder".to_string()), generate_builder_name(&organization_declaration()));
    let odd = record(
        "Agent",
        vec![Annotation::name_value("builder_name", "not an identifier", place(1, 1))],
        vec![],
    );
    assert_eq!(Ok("not an identifier".to_string()), generate_builder_name(&odd));
}

#[test]
fn first_custom_name_decides() {
    let two = record(
        "Agent",
        vec![
            Annotation::name_value("builder_name", "First", place(1, 1)),
            Annotation::name_value("builder_name", "Second", place(2, 1)),
        ],
        vec![],
    );
    assert_eq!(Ok("First".to_string()), generate_builder_name(&two));

    let good_then_bad = record(
        "Agent",
        vec![
            Annotation::name_value("builder_name", "First", place(1, 1)),
            Annotation::word("builder_name", place(2, 1)),
        ],
        vec![],
    );
    assert_eq!(Ok("First".to_string()), generate_builder_name(&good_then_bad));

    let bad_then_good = record(
        "Agent",
        vec![
            Annotation::word("getter", place(1, 1)),
            Annotation::word("builder_name", place(2, 1)),
            Annotation::name_value("builder_name", "Second", place(3, 1)),
        ],
        vec![],
    );
    assert_eq!(
        Err(GenerationError::MalformedDirectiveArgument {
            directive: Directive::CustomName,
            location: place(2, 1)
        }),
        generate_builder_name(&bad_then_good)
    );
}

#[test]
fn only_records_have_fields() {
    let fields = vec![member("a", DeclaredType::named("u8", place(2, 1)), &[])];
    let declaration = record("Agent", vec![], fields.clone());
    assert_eq!(Ok(&fields), get_struct_fields(&declaration));

    for body in vec![Body::Tuple, Body::Variants, Body::Union] {
        let other = TypeDeclaration {
            name: "Shape".to_string(),
            annotations: vec![],
            body,
            location: place(9, 2),
        };
        let expected = GenerationError::UnsupportedShape { location: place(9, 2) };
        assert_eq!(Err(expected), get_struct_fields(&other));
        assert_eq!(Err(expected), generate_builder_macro(&other));
        assert_eq!(Err(expected), generate_struct_impl(&other));
        assert_eq!(Err(expected), generate_builder_struct(&other));
        assert_eq!(Err(expected), generate_build_impl(&other));
    }
}

#[test]
fn a_type_is_known_by_any_segment() {
    let plain = DeclaredType::named("String", place(1, 1));
    assert!(is_string(&plain));
    assert!(!is_vec(&plain));
    assert!(is_type("String", &plain));
    assert!(!is_type("string", &plain));

    let qualified = path_type(
        "std::string::String",
        vec![
            ("std", PathArguments::Plain),
            ("string", PathArguments::Plain),
            ("String", PathArguments::Plain),
        ],
        place(1, 1),
    );
    assert!(is_string(&qualified));
    assert!(is_type("std", &qualified));

    let sequence = DeclaredType::generic("Vec", "String", place(1, 1));
    assert!(is_vec(&sequence));
    assert!(!is_string(&sequence));

    let reference = DeclaredType { text: "&'static str".to_string(), form: TypeForm::Other, location: place(1, 1) };
    assert!(!is_string(&reference));
    assert!(!is_vec(&reference));

    let empty = path_type("", vec![], place(1, 1));
    assert!(!is_string(&empty));
}

#[test]
fn element_type_of_a_sequence() {
    assert_eq!(
        Ok("String".to_string()),
        extract_type_from_generic(&DeclaredType::generic("Vec", "String", place(1, 1)))
    );
    assert_eq!(
        Ok("(u8, u8)".to_string()),
        extract_type_from_generic(&DeclaredType::generic("Vec", "(u8, u8)", place(1, 1)))
    );
}

#[test]
fn element_type_needs_exactly_one_type_argument() {
    let failure = Err(GenerationError::UnrecognizedGenericShape { location: place(4, 9) });

    let none = DeclaredType::named("Vec", place(4, 9));
    assert_eq!(failure, extract_type_from_generic(&none));

    let empty = path_type("Vec<>", vec![("Vec", PathArguments::AngleBracketed(vec![]))], place(4, 9));
    assert_eq!(failure, extract_type_from_generic(&empty));

    let two = path_type(
        "Vec<u8, A>",
        vec![(
            "Vec",
            PathArguments::AngleBracketed(vec![
                GenericArgument::Type("u8".to_string()),
                GenericArgument::Type("A".to_string()),
            ]),
        )],
        place(4, 9),
    );
    assert_eq!(failure, extract_type_from_generic(&two));

    let lifetime = path_type(
        "Vec<'a>",
        vec![("Vec", PathArguments::AngleBracketed(vec![GenericArgument::Other]))],
        place(4, 9),
    );
    assert_eq!(failure, extract_type_from_generic(&lifetime));

    let parenthesized = path_type("Vec(u8)", vec![("Vec", PathArguments::Parenthesized)], place(4, 9));
    assert_eq!(failure, extract_type_from_generic(&parenthesized));

    let other = DeclaredType { text: "[u8; 4]".to_string(), form: TypeForm::Other, location: place(4, 9) };
    assert_eq!(failure, extract_type_from_generic(&other));

    let no_segment = path_type("", vec![], place(4, 9));
    assert_eq!(failure, extract_type_from_generic(&no_segment));
}

#[test]
fn element_type_is_read_off_the_segment_that_names_the_type() {
    let qualified = path_type(
        "std::vec::Vec<u8>",
        vec![
            ("std", PathArguments::Plain),
            ("vec", PathArguments::Plain),
            ("Vec", PathArguments::AngleBracketed(vec![GenericArgument::Type("u8".to_string())])),
        ],
        place(2, 2),
    );
    assert!(is_vec(&qualified));
    assert_eq!(Ok("u8".to_string()), extract_type_from_generic(&qualified));
    assert_eq!(Ok(ReturnShape::Elements("u8".to_string())), return_shape(&qualified));

    let declaration = record("Blob", vec![], vec![member("data", qualified, &["getter"])]);
    let unit = generate_builder_macro(&declaration).unwrap();
    assert_eq!(
        vec![Accessor { name: "data".to_string(), shape: ReturnShape::Elements("u8".to_string()) }],
        unit.accessors.accessors
    );
    assert!(unit.render().contains("pub fn data(&self) -> &[u8] {"));

    let argument_on_an_earlier_segment = path_type(
        "Vec<u8>::Item",
        vec![
            ("Vec", PathArguments::AngleBracketed(vec![GenericArgument::Type("u8".to_string())])),
            ("Item", PathArguments::Plain),
        ],
        place(3, 3),
    );
    assert_eq!(
        Err(GenerationError::UnrecognizedGenericShape { location: place(3, 3) }),
        extract_type_from_generic(&argument_on_an_earlier_segment)
    );
}

#[test]
fn shape_of_an_accessor() {
    assert_eq!(Ok(ReturnShape::Text), return_shape(&DeclaredType::named("String", place(1, 1))));
    assert_eq!(
        Ok(ReturnShape::Elements("u8".to_string())),
        return_shape(&DeclaredType::generic("Vec", "u8", place(1, 1)))
    );
    assert_eq!(
        Ok(ReturnShape::Reference("bool".to_string())),
        return_shape(&DeclaredType::named("bool", place(1, 1)))
    );
    assert_eq!(
        Ok(ReturnShape::Reference("Option<String>".to_string())),
        return_shape(&DeclaredType::generic("Option", "String", place(1, 1)))
    );
    assert_eq!(
        Ok(ReturnShape::Reference("&str".to_string())),
        return_shape(&DeclaredType { text: "&str".to_string(), form: TypeForm::Other, location: place(1, 1) })
    );
}

#[test]
fn text_comes_before_sequence() {
    let both = path_type(
        "Vec::String",
        vec![("Vec", PathArguments::Plain), ("String", PathArguments::Plain)],
        place(1, 1),
    );
    assert_eq!(Ok(ReturnShape::Text), return_shape(&both));
    assert_eq!(DefaultKind::Text, default_kind(&both));
}

#[test]
fn accessors_only_for_exposed_fields_in_order() {
    let fields = vec![
        member("a", DeclaredType::named("String", place(1, 1)), &["getter"]),
        member("b", DeclaredType::named("u8", place(2, 1)), &[]),
        member("c", DeclaredType::generic("Vec", "u8", place(3, 1)), &["optional", "getter"]),
        member("d", DeclaredType::named("Vec", place(4, 1)), &["optional"]),
        member("e", DeclaredType::named("bool", place(5, 1)), &["getter"]),
    ];
    assert_eq!(
        Ok(vec![
            Accessor { name: "a".to_string(), shape: ReturnShape::Text },
            Accessor { name: "c".to_string(), shape: ReturnShape::Elements("u8".to_string()) },
            Accessor { name: "e".to_string(), shape: ReturnShape::Reference("bool".to_string()) },
        ]),
        generate_getters(&fields)
    );
    assert_eq!(Ok(vec![]), generate_getters(&vec![]));
}

#[test]
fn accessors_stop_at_the_first_failing_field() {
    let fields = vec![
        member("a", DeclaredType::named("String", place(1, 1)), &["getter"]),
        member("b", DeclaredType::named("Vec", place(2, 7)), &["getter"]),
        member("c", DeclaredType::named("Vec", place(3, 7)), &["getter"]),
    ];
    assert_eq!(
        Err(GenerationError::UnrecognizedGenericShape { location: place(2, 7) }),
        generate_getters(&fields)
    );
    let declaration = record("Agent", vec![], fields);
    assert_eq!(
        Err(GenerationError::UnrecognizedGenericShape { location: place(2, 7) }),
        generate_builder_macro(&declaration)
    );
}

#[test]
fn directives_are_read_before_accessors_are_shaped() {
    let declaration = record(
        "Agent",
        vec![Annotation::word("builder_name", place(1, 3))],
        vec![member("b", DeclaredType::named("Vec", place(2, 7)), &["getter"])],
    );
    assert_eq!(
        Err(GenerationError::MalformedDirectiveArgument {
            directive: Directive::CustomName,
            location: place(1, 3)
        }),
        generate_builder_macro(&declaration)
    );
    assert_eq!(
        Err(GenerationError::UnrecognizedGenericShape { location: place(2, 7) }),
        generate_struct_impl(&declaration)
    );

    let no_record = TypeDeclaration {
        name: "Agent".to_string(),
        annotations: vec![Annotation::word("builder_name", place(1, 3))],
        body: Body::Variants,
        location: place(2, 1),
    };
    assert_eq!(
        Err(GenerationError::UnsupportedShape { location: place(2, 1) }),
        generate_builder_macro(&no_record)
    );
}

#[test]
fn companion_mirrors_every_field() {
    let declaration = record(
        "Agent",
        vec![],
        vec![
            member("a", DeclaredType::named("String", place(1, 1)), &["getter"]),
            member("b", DeclaredType::named("u8", place(2, 1)), &[]),
            member("c", DeclaredType::generic("Vec", "u8", place(3, 1)), &["optional"]),
        ],
    );
    let companion = generate_builder_struct(&declaration).unwrap();
    assert_eq!("AgentBuilder", companion.name);
    assert_eq!(
        vec![
            CompanionField { name: "a".to_string(), ty: "String".to_string(), setter: "with_a".to_string() },
            CompanionField { name: "b".to_string(), ty: "u8".to_string(), setter: "with_b".to_string() },
            CompanionField { name: "c".to_string(), ty: "Vec<u8>".to_string(), setter: "with_c".to_string() },
        ],
        companion.fields
    );
    assert_eq!(None, companion.validator);
    assert_eq!(3, companion.new_instance().boxes.len());
}

#[test]
fn validator_has_one_step_for_each_field() {
    let declaration = record(
        "Agent",
        vec![Annotation::word("gen_build_impl", place(1, 1))],
        vec![
            member("a", DeclaredType::named("String", place(1, 1)), &["getter"]),
            member("b", DeclaredType::named("String", place(2, 1)), &["optional"]),
            member("c", DeclaredType::generic("Vec", "u8", place(3, 1)), &["optional"]),
            member("d", DeclaredType::named("u8", place(4, 1)), &["optional", "getter"]),
        ],
    );
    let validator = generate_build_impl(&declaration).unwrap();
    assert_eq!("Agent", validator.target);
    assert_eq!("AgentBuilder", validator.companion);
    assert_eq!(
        vec![
            Step { field: "a".to_string(), resolution: Resolution::Required },
            Step { field: "b".to_string(), resolution: Resolution::OrDefault(DefaultKind::Text) },
            Step { field: "c".to_string(), resolution: Resolution::OrDefault(DefaultKind::Sequence) },
            Step { field: "d".to_string(), resolution: Resolution::OrDefault(DefaultKind::Number) },
        ],
        validator.steps
    );
    assert_eq!(Some(validator), generate_builder_struct(&declaration).unwrap().validator);
}

#[test]
fn no_validator_without_the_directive() {
    let declaration = record(
        "Payload",
        vec![Annotation::word("derive", place(1, 1))],
        vec![member("action", DeclaredType::named("String", place(2, 1)), &["getter"])],
    );
    let unit = generate_builder_macro(&declaration).unwrap();
    assert!(unit.companion.validator.is_none());
    assert!(!unit.render().contains("impl Build for"));
    assert!(unit.render().contains("pub fn with_action(mut self, value: String) -> Self"));
    assert!(unit.render().contains("pub fn action(&self) -> &str"));
}

#[test]
fn text_of_a_generated_unit() {
    let expected = "\
impl Organization {
    pub fn org_id(&self) -> &str {
        &self.org_id
    }
}
#[derive(Default, Clone)]
pub struct OrgBuilder {
    org_id: Option<String>,
}
impl OrgBuilder {
    pub fn new() -> Self {
        OrgBuilder::default()
    }
    pub fn with_org_id(mut self, value: String) -> Self {
        self.org_id = Some(value);
        self
    }
}
impl Build for OrgBuilder {
    type Result = Result<Organization, BuilderError>;
    fn build(self) -> Self::Result {
        let org_id = self.org_id.ok_or_else(|| BuilderError::MissingField(stringify!(org_id).into()))?;
        Ok(Organization {
            org_id,
        })
    }
}
";
    assert_eq!(expected, generate_builder_macro(&organization_declaration()).unwrap().render());
    assert_eq!(Ok(expected.to_string()), derive_builder(&organization_declaration()));
}

#[test]
fn text_of_each_accessor_shape() {
    let declaration = record(
        "Agent",
        vec![],
        vec![
            member("known_enemies", DeclaredType::generic("Vec", "String", place(1, 1)), &["getter"]),
            member("wears_crocks", DeclaredType::named("bool", place(2, 1)), &["getter"]),
            member("secret", DeclaredType::named("u64", place(3, 1)), &[]),
        ],
    );
    let expected = "\
impl Agent {
    pub fn known_enemies(&self) -> &[String] {
        &self.known_enemies
    }
    pub fn wears_crocks(&self) -> &bool {
        &self.wears_crocks
    }
}
";
    assert_eq!(expected, generate_struct_impl(&declaration).unwrap().render());
}

#[test]
fn text_of_a_validator_with_a_default() {
    let declaration = record(
        "Agent",
        vec![Annotation::word("gen_build_impl", place(1, 1))],
        vec![
            member("public_key", DeclaredType::named("String", place(1, 1)), &[]),
            member("role", DeclaredType::named("String", place(2, 1)), &["optional"]),
        ],
    );
    let expected = "\
impl Build for AgentBuilder {
    type Result = Result<Agent, BuilderError>;
    fn build(self) -> Self::Result {
        let public_key = self.public_key.ok_or_else(|| BuilderError::MissingField(stringify!(public_key).into()))?;
        let role = self.role.unwrap_or_default();
        Ok(Agent {
            public_key,
            role,
        })
    }
}
";
    assert_eq!(expected, generate_build_impl(&declaration).unwrap().render());
}

#[test]
fn text_of_a_declaration_without_fields() {
    let declaration = record("Unit", vec![Annotation::word("gen_build_impl", place(1, 1))], vec![]);
    let expected = "\
impl Unit {
}
#[derive(Default, Clone)]
pub struct UnitBuilder {
}
impl UnitBuilder {
    pub fn new() -> Self {
        UnitBuilder::default()
    }
}
impl Build for UnitBuilder {
    type Result = Result<Unit, BuilderError>;
    fn build(self) -> Self::Result {
        Ok(Unit {
        })
    }
}
";
    assert_eq!(Ok(expected.to_string()), derive_builder(&declaration));
}

#[test]
fn a_failure_derives_a_diagnostic_at_its_place() {
    let variants = TypeDeclaration {
        name: "Shape".to_string(),
        annotations: vec![],
        body: Body::Variants,
        location: place(6, 2),
    };
    assert_eq!(
        Err(Diagnostic {
            text: "compile_error!(\"builder is only compatible with structs\");\n".to_string(),
            location: place(6, 2),
        }),
        derive_builder(&variants)
    );

    let malformed = record("Agent", vec![Annotation::word("builder_name", place(3, 4))], vec![]);
    assert_eq!(
        Err(Diagnostic {
            text: "compile_error!(\"expected a string literal as the argument of builder_name\");\n"
                .to_string(),
            location: place(3, 4),
        }),
        derive_builder(&malformed)
    );

    let sequence = record(
        "Agent",
        vec![],
        vec![
            member("a", DeclaredType::named("String", place(2, 1)), &["getter"]),
            member("b", DeclaredType::named("Vec", place(2, 7)), &["getter"]),
        ],
    );
    assert_eq!(
        Err(Diagnostic {
            text: "compile_error!(\"type does not have a single generic type argument\");\n".to_string(),
            location: place(2, 7),
        }),
        derive_builder(&sequence)
    );
}

#[test]
fn errors_know_their_place_and_message() {
    let unsupported = GenerationError::UnsupportedShape { location: place(1, 2) };
    let malformed = GenerationError::MalformedDirectiveArgument {
        directive: Directive::CustomName,
        location: place(3, 4),
    };
    let unrecognized = GenerationError::UnrecognizedGenericShape { location: place(5, 6) };
    assert_eq!(place(1, 2), unsupported.location());
    assert_eq!(place(3, 4), malformed.location());
    assert_eq!(place(5, 6), unrecognized.location());
    assert_eq!("builder is only compatible with structs", unsupported.message());
    assert_eq!("expected a string literal as the argument of builder_name", malformed.message());
    assert_eq!("type does not have a single generic type argument", unrecognized.message());
    assert_eq!(
        "compile_error!(\"builder is only compatible with structs\");\n",
        render_error(&unsupported)
    );
}

#[test]
fn generation_is_repeatable() {
    let declaration = organization_declaration();
    assert_eq!(generate_builder_macro(&declaration), generate_builder_macro(&declaration));
    assert_eq!(derive_builder(&declaration), derive_builder(&declaration));
}

#[test]
fn directives_of_a_field() {
    let both = member("role", DeclaredType::named("String", place(1, 1)), &["getter", "optional"]);
    assert_eq!(FieldDirectives { expose: true, defaultable: true }, parse_field_directives(&both));
    let exposed = member("role", DeclaredType::named("String", place(1, 1)), &["getter", "builder_name"]);
    assert_eq!(FieldDirectives { expose: true, defaultable: false }, parse_field_directives(&exposed));
    let defaultable = member("role", DeclaredType::named("String", place(1, 1)), &["gen_build_impl", "optional"]);
    assert_eq!(FieldDirectives { expose: false, defaultable: true }, parse_field_directives(&defaultable));
    let none = member("role", DeclaredType::named("String", place(1, 1)), &[]);
    assert_eq!(FieldDirectives { expose: false, defaultable: false }, parse_field_directives(&none));
}

#[test]
fn directives_of_a_declaration() {
    assert_eq!(
        Ok(DeclarationDirectives { custom_name: Some("OrgBuilder".to_string()), generate_validator: true }),
        parse_declaration_directives(&organization_declaration())
    );
    let plain = record("Payload", vec![Annotation::word("getter", place(1, 1))], vec![]);
    assert_eq!(
        Ok(DeclarationDirectives { custom_name: None, generate_validator: false }),
        parse_declaration_directives(&plain)
    );
    assert!(has_directive(&plain.annotations, Directive::Expose));
    assert!(!has_directive(&plain.annotations, Directive::GenerateValidator));
}

#[test]
fn directives_of_a_declaration_that_is_refused() {
    let malformed = record(
        "Agent",
        vec![Annotation {
            name: "builder_name".to_string(),
            argument: Argument::Other,
            location: place(3, 8),
        }],
        vec![],
    );
    assert_eq!(
        Err(GenerationError::MalformedDirectiveArgument {
            directive: Directive::CustomName,
            location: place(3, 8)
        }),
        parse_declaration_directives(&malformed)
    );
    let variants = TypeDeclaration {
        name: "Agent".to_string(),
        annotations: malformed.annotations.clone(),
        body: Body::Variants,
        location: place(4, 1),
    };
    assert_eq!(
        Err(GenerationError::UnsupportedShape { location: place(4, 1) }),
        parse_declaration_directives(&variants)
    );
}

#[test]
fn name_of_a_companion_type() {
    assert_eq!("AgentBuilder", companion_name(None, "Agent"));
    assert_eq!("Bar", companion_name(Some("Bar".to_string()), "Agent"));
    assert_eq!("Builder", companion_name(None, ""));
    assert_eq!("", companion_name(Some(String::new()), "Agent"));
}

#[test]
fn an_unreadable_annotation_is_no_field_directive() {
    let unreadable = |name: &str| Annotation {
        name: name.to_string(),
        argument: Argument::Unreadable,
        location: place(1, 1),
    };
    let mut field = member("role", DeclaredType::named("String", place(1, 1)), &[]);
    field.annotations.push(unreadable("getter"));
    field.annotations.push(unreadable("optional"));
    assert!(!has_getter_attr(&field));
    assert!(!has_optional_attr(&field));
    assert!(!has_helper_attribute(&field, Directive::Expose));
    assert_eq!(FieldDirectives { expose: false, defaultable: false }, parse_field_directives(&field));
    assert!(has_directive(&field.annotations, Directive::Expose));

    field.annotations.push(Annotation::word("getter", place(1, 1)));
    assert!(has_getter_attr(&field));
    assert!(!has_optional_attr(&field));

    let declaration = record("Agent", vec![], vec![
        Field {
            name: "role".to_string(),
            ty: DeclaredType::named("String", place(1, 1)),
            annotations: vec![unreadable("getter")],
        },
    ]);
    assert_eq!(Ok(vec![]), generate_getters(get_struct_fields(&declaration).unwrap()));
}

#[test]
fn a_declaration_directive_is_known_by_its_name_alone() {
    let unreadable = |name: &str, at: SourceLocation| Annotation {
        name: name.to_string(),
        argument: Argument::Unreadable,
        location: at,
    };
    assert!(has_gen_build_fn_attr(&vec![unreadable("gen_build_impl", place(1, 1))]));
    let declaration = record("Agent", vec![unreadable("gen_build_impl", place(1, 1))], vec![]);
    assert!(generate_builder_struct(&declaration).unwrap().validator.is_some());

    let named = record("Agent", vec![unreadable("builder_name", place(5, 5))], vec![]);
    assert_eq!(
        Err(GenerationError::MalformedDirectiveArgument {
            directive: Directive::CustomName,
            location: place(5, 5)
        }),
        generate_builder_name(&named)
    );
}

#[test]
fn annotations_under_other_names_change_nothing() {
    let plain = organization_declaration();
    let mut noisy = organization_declaration();
    noisy.annotations.insert(0, Annotation::word("derive", place(9, 1)));
    noisy.annotations.insert(2, Annotation::name_value("doc", "an organization", place(9, 2)));
    noisy.annotations.push(Annotation { name: "serde".to_string(), argument: Argument::Other, location: place(9, 3) });
    noisy.annotations.push(Annotation {
        name: "builder".to_string(),
        argument: Argument::Unreadable,
        location: place(9, 4),
    });
    if let Body::Record(fields) = &mut noisy.body {
        fields[0].annotations.insert(0, Annotation::name_value("doc", "its id", place(9, 5)));
        fields[0].annotations.push(Annotation::word("getters", place(9, 6)));
    }
    assert_eq!(generate_builder_macro(&plain), generate_builder_macro(&noisy));
    assert_eq!(derive_builder(&plain), derive_builder(&noisy));
    assert_eq!(parse_declaration_directives(&plain), parse_declaration_directives(&noisy));
}

#[test]
fn a_type_is_named_by_its_last_segment() {
    let plain = DeclaredType::named("bool", place(1, 1));
    assert!(is_named("bool", &plain));
    assert!(is_flag(&plain));
    assert!(!is_integer(&plain));
    assert!(!is_named("boo", &plain));

    let qualified = path_type(
        "core::primitive::u8",
        vec![
            ("core", PathArguments::Plain),
            ("primitive", PathArguments::Plain),
            ("u8", PathArguments::Plain),
        ],
        place(1, 1),
    );
    assert!(is_named("u8", &qualified));
    assert!(!is_named("core", &qualified));
    assert!(is_integer(&qualified));

    let with_argument = DeclaredType::generic("bool", "u8", place(1, 1));
    assert!(!is_flag(&with_argument));
    assert!(!is_integer(&with_argument));

    let other = DeclaredType { text: "&bool".to_string(), form: TypeForm::Other, location: place(1, 1) };
    assert!(!is_flag(&other));
    assert!(!is_named("bool", &path_type("", vec![], place(1, 1))));
}

#[test]
fn every_integer_type_is_an_integer() {
    for name in ["u8", "u16", "u32", "u64", "u128", "usize", "i8", "i16", "i32", "i64", "i128", "isize"] {
        let ty = DeclaredType::named(name, place(1, 1));
        assert!(is_integer(&ty));
        assert_eq!(DefaultKind::Number, default_kind(&ty));
    }
    for name in ["bool", "String", "u7", "U8", "char", "Agent"] {
        assert!(!is_integer(&DeclaredType::named(name, place(1, 1))));
    }
}

#[test]
fn default_of_each_kind_of_type() {
    assert_eq!(DefaultKind::Text, default_kind(&DeclaredType::named("String", place(1, 1))));
    assert_eq!(DefaultKind::Sequence, default_kind(&DeclaredType::generic("Vec", "bool", place(1, 1))));
    assert_eq!(DefaultKind::Flag, default_kind(&DeclaredType::named("bool", place(1, 1))));
    assert_eq!(DefaultKind::Number, default_kind(&DeclaredType::named("i64", place(1, 1))));
    assert_eq!(DefaultKind::Opaque, default_kind(&DeclaredType::named("Agent", place(1, 1))));
    assert_eq!(DefaultKind::Opaque, default_kind(&DeclaredType::generic("Option", "u8", place(1, 1))));
    assert_eq!(
        DefaultKind::Opaque,
        default_kind(&DeclaredType { text: "(u8, u8)".to_string(), form: TypeForm::Other, location: place(1, 1) })
    );
}
