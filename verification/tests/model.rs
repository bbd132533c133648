use creator::model::{build_record, DefinitionShape, Diagnostic, FieldDefinition, FieldDescriptor,
    RecordDescriptor, TypeDefinition};
use creator::tags::{ConstructionMode, ConversionKind, FieldTags, GenerationError, Vocabulary};

fn raw_field(name: &str, declared_type: &str, annotations: &[&str]) -> FieldDefinition {
    FieldDefinition {
        name: name.to_string(),
        declared_type: declared_type.to_string(),
        annotations: annotations.iter().map(|a| a.to_string()).collect(),
    }
}

fn definition(shape: DefinitionShape, generic: bool, fields: Vec<FieldDefinition>) -> TypeDefinition {
    TypeDefinition { name: "Sample".to_string(), shape, generic, fields }
}

fn descriptor(
    name: &str,
    declared_type: &str,
    conversion: ConversionKind,
    mode: ConstructionMode,
    is_boolean_flag: bool,
) -> FieldDescriptor {
    FieldDescriptor {
        name: name.to_string(),
        declared_type: declared_type.to_string(),
        conversion,
        mode,
        is_boolean_flag,
    }
}

const UNSUPPORTED: Diagnostic = Diagnostic { error: GenerationError::UnsupportedShape, field: None };

#[test]
fn tuple_like_definition_is_unsupported() {
    let tuple = definition(
        DefinitionShape::TupleRecord,
        false,
        vec![raw_field("0", "u32", &[]), raw_field("1", "String", &["string"])],
    );
    assert_eq!(build_record(&tuple, &Vocabulary::default()), Err(UNSUPPORTED));
}

#[test]
fn unit_enum_and_union_definitions_are_unsupported() {
    let vocabulary = Vocabulary::default();
    for shape in [DefinitionShape::UnitRecord, DefinitionShape::Enumeration, DefinitionShape::Union] {
        assert_eq!(build_record(&definition(shape, false, vec![]), &vocabulary), Err(UNSUPPORTED));
    }
}

#[test]
fn generic_definition_is_unsupported() {
    let generic = definition(DefinitionShape::NamedRecord, true, vec![raw_field("id", "T", &[])]);
    assert_eq!(build_record(&generic, &Vocabulary::default()), Err(UNSUPPORTED));
}

#[test]
fn shape_is_judged_before_the_fields() {
    let tuple = definition(
        DefinitionShape::TupleRecord,
        false,
        vec![raw_field("0", "String", &["string", "path_str"])],
    );
    assert_eq!(build_record(&tuple, &Vocabulary::default()), Err(UNSUPPORTED));
}

#[test]
fn conflicting_field_is_reported_by_its_index() {
    let conflicting = definition(
        DefinitionShape::NamedRecord,
        false,
        vec![
            raw_field("id", "u32", &[]),
            raw_field("name", "String", &["path_str", "string"]),
            raw_field("path", "String", &["string", "path_str"]),
        ],
    );
    assert_eq!(
        build_record(&conflicting, &Vocabulary::default()),
        Err(Diagnostic { error: GenerationError::ConflictingConversionTags, field: Some(1) })
    );
}

#[test]
fn record_keeps_name_and_declaration_order() {
    let sample = definition(
        DefinitionShape::NamedRecord,
        false,
        vec![
            raw_field("zeta", "u32", &[]),
            raw_field("alpha", "String", &["doc", "string"]),
            raw_field("mid", "Option<String>", &["option", "path_str"]),
            raw_field("enabled", "bool", &[]),
            raw_field("maybe", "Option<bool>", &["option"]),
        ],
    );
    let expected = RecordDescriptor {
        name: "Sample".to_string(),
        fields: vec![
            descriptor("zeta", "u32", ConversionKind::Verbatim, ConstructionMode::Eager, false),
            descriptor("alpha", "String", ConversionKind::StringLike, ConstructionMode::Eager, false),
            descriptor(
                "mid",
                "Option<String>",
                ConversionKind::PathLike,
                ConstructionMode::Deferred,
                false,
            ),
            descriptor("enabled", "bool", ConversionKind::Verbatim, ConstructionMode::Eager, true),
            descriptor(
                "maybe",
                "Option<bool>",
                ConversionKind::Verbatim,
                ConstructionMode::Deferred,
                false,
            ),
        ],
    };
    assert_eq!(build_record(&sample, &Vocabulary::default()), Ok(expected));
}

#[test]
fn record_without_fields_is_accepted() {
    let empty = definition(DefinitionShape::NamedRecord, false, vec![]);
    assert_eq!(
        build_record(&empty, &Vocabulary::default()),
        Ok(RecordDescriptor { name: "Sample".to_string(), fields: vec![] })
    );
}

#[test]
fn boolean_flag_follows_the_declared_type_alone() {
    let tags = FieldTags { conversion: ConversionKind::Verbatim, mode: ConstructionMode::Eager };
    assert!(FieldDescriptor::new(&raw_field("a", "bool", &[]), tags).is_boolean_flag);
    assert!(!FieldDescriptor::new(&raw_field("a", "Option<bool>", &[]), tags).is_boolean_flag);
    assert!(!FieldDescriptor::new(&raw_field("a", "Bool", &[]), tags).is_boolean_flag);
    assert!(!FieldDescriptor::new(&raw_field("a", "std::primitive::bool", &[]), tags).is_boolean_flag);
    assert!(!FieldDescriptor::new(&raw_field("bool", "u8", &["bool"]), tags).is_boolean_flag);
}

#[test]
fn field_descriptor_clone_is_equal() {
    let field = descriptor("name", "String", ConversionKind::StringLike, ConstructionMode::Deferred, false);
    assert_eq!(field.clone(), field);
}
