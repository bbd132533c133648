use creator::model::{build_record, DefinitionShape, Diagnostic, FieldDefinition, TypeDefinition};
use creator::tags::{GenerationError, Vocabulary};
use creator::{assemble, derive_creator};

fn field(name: &str, declared_type: &str, annotations: &[&str]) -> FieldDefinition {
    FieldDefinition {
        name: name.to_string(),
        declared_type: declared_type.to_string(),
        annotations: annotations.iter().map(|a| a.to_string()).collect(),
    }
}

fn record(name: &str, fields: Vec<FieldDefinition>) -> TypeDefinition {
    TypeDefinition {
        name: name.to_string(),
        shape: DefinitionShape::NamedRecord,
        generic: false,
        fields,
    }
}

fn sample() -> TypeDefinition {
    record(
        "Sample",
        vec![
            field("id", "u32", &[]),
            field("name", "String", &["string"]),
            field("path", "Option<String>", &["option", "path_str"]),
        ],
    )
}

#[test]
fn sample_record_expands_to_the_expected_text() {
    let text = derive_creator(&sample(), &Vocabulary::default()).unwrap();
    let expected = "\
impl Sample {
    pub fn create<S: AsRef<str>>(id: u32, name: S) -> Self {
        Sample {
            id: id,
            name: String::from(name.as_ref()),
            path: None,
        }
    }
    pub fn with_id(mut self, id: u32) -> Self {
        self.id = id;
        self
    }
    pub fn with_name<S: AsRef<str>>(mut self, name: S) -> Self {
        self.name = String::from(name.as_ref());
        self
    }
    pub fn with_path<P: AsRef<std::path::Path>>(mut self, path: P) -> Self {
        self.path = Some(path.as_ref().to_string_lossy().to_string());
        self
    }
}
";
    assert_eq!(text, expected);
}

#[test]
fn boolean_record_gets_a_shorthand() {
    let definition = record("Switch", vec![field("enabled", "bool", &[])]);
    let text = derive_creator(&definition, &Vocabulary::default()).unwrap();
    let expected = "\
impl Switch {
    pub fn create(enabled: bool) -> Self {
        Switch {
            enabled: enabled,
        }
    }
    pub fn enabled(self) -> Self {
        self.with_enabled(true)
    }
    pub fn with_enabled(mut self, enabled: bool) -> Self {
        self.enabled = enabled;
        self
    }
}
";
    assert_eq!(text, expected);
}

#[test]
fn record_without_eager_fields_gets_a_bare_constructor() {
    let definition = record("Lazy", vec![field("hint", "Option<String>", &["option", "string"])]);
    let text = derive_creator(&definition, &Vocabulary::default()).unwrap();
    let expected = "\
impl Lazy {
    pub fn create() -> Self {
        Lazy {
            hint: None,
        }
    }
    pub fn with_hint<S: AsRef<str>>(mut self, hint: S) -> Self {
        self.hint = Some(String::from(hint.as_ref()));
        self
    }
}
";
    assert_eq!(text, expected);
}

#[test]
fn record_without_fields_gets_a_constructor_alone() {
    let text = derive_creator(&record("Unit", vec![]), &Vocabulary::default()).unwrap();
    assert_eq!(text, "impl Unit {\n    pub fn create() -> Self {\n        Unit {\n        }\n    }\n}\n");
}

#[test]
fn tuple_like_definition_fails_without_output() {
    let tuple = TypeDefinition {
        name: "Pair".to_string(),
        shape: DefinitionShape::TupleRecord,
        generic: false,
        fields: vec![field("0", "u32", &[]), field("1", "u32", &[])],
    };
    assert_eq!(
        derive_creator(&tuple, &Vocabulary::default()),
        Err(Diagnostic { error: GenerationError::UnsupportedShape, field: None })
    );
}

#[test]
fn conflicting_markers_fail_without_output() {
    let definition = record(
        "Sample",
        vec![field("id", "u32", &[]), field("name", "String", &["string", "path_str"])],
    );
    assert_eq!(
        derive_creator(&definition, &Vocabulary::default()),
        Err(Diagnostic { error: GenerationError::ConflictingConversionTags, field: Some(1) })
    );
}

#[test]
fn two_runs_give_the_same_bytes() {
    let vocabulary = Vocabulary::default();
    let first = derive_creator(&sample(), &vocabulary).unwrap();
    let second = derive_creator(&sample().clone(), &vocabulary.clone()).unwrap();
    assert_eq!(first.as_bytes(), second.as_bytes());
    let refused = record("Sample", vec![field("name", "String", &["string", "path_str"])]);
    assert_eq!(derive_creator(&refused, &vocabulary), derive_creator(&refused, &vocabulary));
}

#[test]
fn vocabulary_decides_which_fields_are_deferred() {
    let definition = record("Job", vec![field("log", "Option<String>", &["create", "path_str"])]);
    let usual = derive_creator(&definition, &Vocabulary::default()).unwrap();
    assert!(usual.contains("pub fn create<P: AsRef<std::path::Path>>(log: P) -> Self"));
    let other = Vocabulary::new("create", "string", "path_str");
    let text = derive_creator(&definition, &other).unwrap();
    assert!(text.contains("pub fn create() -> Self"));
    assert!(text.contains("log: None,"));
}

#[test]
fn block_holds_the_constructor_first() {
    let built = build_record(&sample(), &Vocabulary::default()).unwrap();
    let block = assemble(&built);
    assert_eq!(block.record, "Sample");
    let names: Vec<&str> = block.functions.iter().map(|function| function.name.as_str()).collect();
    assert_eq!(names, vec!["create", "with_id", "with_name", "with_path"]);
}
