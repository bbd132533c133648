use creator::meaning::{construct, convert, convert_argument, evaluate, find_function,
    find_parameter, find_slot, store, RecordValue, Slot, Value};
use creator::model::{build_record, DefinitionShape, FieldDefinition, TypeDefinition};
use creator::plan::{Assignment, Expression, ImplementationBlock, Parameter, ParameterType};
use creator::tags::{ConversionKind, Vocabulary};
use creator::assemble;

fn text(value: &str) -> Value {
    Value::Text(value.to_string())
}

fn slot(field: &str, value: Value) -> Slot {
    Slot { field: field.to_string(), value }
}

fn block_of(name: &str, fields: &[(&str, &str, &[&str])]) -> ImplementationBlock {
    let definition = TypeDefinition {
        name: name.to_string(),
        shape: DefinitionShape::NamedRecord,
        generic: false,
        fields: fields
            .iter()
            .map(|(name, declared_type, annotations)| FieldDefinition {
                name: name.to_string(),
                declared_type: declared_type.to_string(),
                annotations: annotations.iter().map(|a| a.to_string()).collect(),
            })
            .collect(),
    };
    assemble(&build_record(&definition, &Vocabulary::default()).unwrap())
}

fn sample_block() -> ImplementationBlock {
    block_of(
        "Sample",
        &[
            ("id", "u32", &[]),
            ("name", "String", &["string"]),
            ("path", "Option<String>", &["option", "path_str"]),
        ],
    )
}

#[test]
fn create_then_with_path_fills_the_record() {
    let block = sample_block();
    let created = block.call("create", None, &vec![Value::Number(1), text("x")]).unwrap();
    assert_eq!(
        created,
        RecordValue {
            slots: vec![
                slot("id", Value::Number(1)),
                slot("name", text("x")),
                slot("path", Value::Absent),
            ],
        }
    );
    let filled = block.call("with_path", Some(&created), &vec![text("/tmp/a")]).unwrap();
    assert_eq!(filled.get("path"), Some(&text("/tmp/a")));
    assert_eq!(filled.get("id"), Some(&Value::Number(1)));
    assert_eq!(filled.get("name"), Some(&text("x")));
}

#[test]
fn create_false_then_enabled_gives_true() {
    let block = block_of("Switch", &[("enabled", "bool", &[])]);
    let created = block.call("create", None, &vec![Value::Flag(false)]).unwrap();
    assert_eq!(created, RecordValue { slots: vec![slot("enabled", Value::Flag(false))] });
    let enabled = block.call("enabled", Some(&created), &vec![]).unwrap();
    assert_eq!(enabled, RecordValue { slots: vec![slot("enabled", Value::Flag(true))] });
}

#[test]
fn plain_constructor_stores_its_arguments_verbatim() {
    let block = block_of("Plain", &[("a", "u32", &[]), ("b", "bool", &[]), ("c", "String", &[])]);
    let arguments = vec![Value::Number(7), Value::Flag(true), text("seven")];
    let created = block.call("create", None, &arguments).unwrap();
    assert_eq!(
        created,
        RecordValue {
            slots: vec![
                slot("a", Value::Number(7)),
                slot("b", Value::Flag(true)),
                slot("c", text("seven")),
            ],
        }
    );
    assert_eq!(block.call("create", None, &vec![Value::Number(7), Value::Flag(true)]), None);
    let mut more = arguments.clone();
    more.push(Value::Absent);
    assert_eq!(block.call("create", None, &more), None);
}

#[test]
fn deferred_fields_start_absent() {
    let block = block_of(
        "Mixed",
        &[
            ("first", "Option<u32>", &["option"]),
            ("id", "u32", &[]),
            ("second", "Option<String>", &["option", "string"]),
        ],
    );
    let created = block.call("create", None, &vec![Value::Number(3)]).unwrap();
    assert_eq!(created.get("first"), Some(&Value::Absent));
    assert_eq!(created.get("second"), Some(&Value::Absent));
    assert_eq!(created.get("id"), Some(&Value::Number(3)));
    let lazy = block_of("Lazy", &[("only", "Option<u32>", &["option"])]);
    let made = lazy.call("create", None, &vec![]).unwrap();
    assert_eq!(made, RecordValue { slots: vec![slot("only", Value::Absent)] });
}

#[test]
fn string_like_field_stores_the_text() {
    let block = sample_block();
    let created = block.call("create", None, &vec![Value::Number(1), text("héllo")]).unwrap();
    assert_eq!(created.get("name"), Some(&text("héllo")));
    let renamed = block.call("with_name", Some(&created), &vec![text("wörld")]).unwrap();
    assert_eq!(renamed.get("name"), Some(&text("wörld")));
    assert_eq!(block.call("with_name", Some(&created), &vec![Value::Number(2)]), None);
    assert_eq!(block.call("create", None, &vec![Value::Number(1), Value::Number(2)]), None);
}

#[test]
fn path_like_field_keeps_valid_text() {
    let block = sample_block();
    let created = block.call("create", None, &vec![Value::Number(1), text("x")]).unwrap();
    let by_text = block.call("with_path", Some(&created), &vec![text("/tmp/ä")]).unwrap();
    assert_eq!(by_text.get("path"), Some(&text("/tmp/ä")));
    let bytes = Value::Path("/tmp/ä".as_bytes().to_vec());
    let by_bytes = block.call("with_path", Some(&created), &vec![bytes]).unwrap();
    assert_eq!(by_bytes.get("path"), Some(&text("/tmp/ä")));
}

#[test]
fn path_like_field_replaces_invalid_bytes() {
    let block = sample_block();
    let created = block.call("create", None, &vec![Value::Number(1), text("x")]).unwrap();
    let broken = Value::Path(vec![b'/', b'a', 0xff, b'b']);
    let stored = block.call("with_path", Some(&created), &vec![broken]).unwrap();
    assert_eq!(stored.get("path"), Some(&text("/a\u{fffd}b")));
    assert_eq!(
        convert(ConversionKind::PathLike, &Value::Path(vec![0xc3])),
        Some(text("\u{fffd}"))
    );
}

#[test]
fn conversions_take_what_they_can_view() {
    assert_eq!(convert(ConversionKind::Verbatim, &Value::Absent), Some(Value::Absent));
    assert_eq!(convert(ConversionKind::Verbatim, &Value::Number(-4)), Some(Value::Number(-4)));
    assert_eq!(
        convert(ConversionKind::Verbatim, &Value::Path(vec![1, 2])),
        Some(Value::Path(vec![1, 2]))
    );
    assert_eq!(convert(ConversionKind::StringLike, &text("a")), Some(text("a")));
    assert_eq!(convert(ConversionKind::StringLike, &Value::Path(vec![b'a'])), None);
    assert_eq!(convert(ConversionKind::StringLike, &Value::Flag(true)), None);
    assert_eq!(convert(ConversionKind::PathLike, &text("a")), Some(text("a")));
    assert_eq!(convert(ConversionKind::PathLike, &Value::Path(vec![b'a'])), Some(text("a")));
    assert_eq!(convert(ConversionKind::PathLike, &Value::Absent), None);
}

#[test]
fn shorthand_equals_setter_with_true() {
    let block = block_of("Flags", &[("id", "u32", &[]), ("quiet", "bool", &[]), ("fast", "bool", &[])]);
    let created =
        block.call("create", None, &vec![Value::Number(1), Value::Flag(false), Value::Flag(false)]);
    let created = created.unwrap();
    for flag in ["quiet", "fast"] {
        let short = block.call(flag, Some(&created), &vec![]);
        let long = block.call(&format!("with_{}", flag), Some(&created), &vec![Value::Flag(true)]);
        assert!(short.is_some());
        assert_eq!(short, long);
        assert_eq!(short.unwrap().get(flag), Some(&Value::Flag(true)));
    }
    assert_eq!(block.call("id", Some(&created), &vec![]), None);
    assert_eq!(block.call("quiet", None, &vec![]), None);
    assert_eq!(block.call("quiet", Some(&created), &vec![Value::Flag(true)]), None);
}

#[test]
fn last_write_wins_and_other_fields_stay() {
    let block = sample_block();
    let created = block.call("create", None, &vec![Value::Number(1), text("x")]).unwrap();
    let once = block.call("with_name", Some(&created), &vec![text("a")]).unwrap();
    let twice = block.call("with_name", Some(&once), &vec![text("b")]).unwrap();
    assert_eq!(twice.get("name"), Some(&text("b")));
    assert_eq!(twice.get("id"), Some(&Value::Number(1)));
    assert_eq!(twice.get("path"), Some(&Value::Absent));
    assert_eq!(twice, block.call("with_name", Some(&created), &vec![text("b")]).unwrap());
    let chained = block.call("with_id", Some(&once), &vec![Value::Number(9)]).unwrap();
    assert_eq!(chained.get("name"), Some(&text("a")));
    assert_eq!(chained.get("id"), Some(&Value::Number(9)));
}

#[test]
fn calls_that_do_not_fit_give_nothing() {
    let block = sample_block();
    let created = block.call("create", None, &vec![Value::Number(1), text("x")]).unwrap();
    assert_eq!(block.call("missing", Some(&created), &vec![]), None);
    assert_eq!(block.call("create", Some(&created), &vec![Value::Number(1), text("x")]), None);
    assert_eq!(block.call("with_id", None, &vec![Value::Number(1)]), None);
    assert_eq!(block.call("with_id", Some(&created), &vec![]), None);
    let stranger = RecordValue { slots: vec![slot("other", Value::Absent)] };
    assert_eq!(block.call("with_id", Some(&stranger), &vec![Value::Number(1)]), None);
    assert_eq!(block.invoke(0, None, &vec![Value::Number(1), text("x")]), Some(created.clone()));
    assert_eq!(block.functions[1].apply(Some(&created), &vec![Value::Number(5)]).unwrap().get("id"),
        Some(&Value::Number(5)));
}

#[test]
fn names_are_found_at_their_first_place() {
    let parameters = vec![
        Parameter { name: "a".to_string(), ty: ParameterType::Declared("u8".to_string()) },
        Parameter { name: "b".to_string(), ty: ParameterType::Declared("u8".to_string()) },
        Parameter { name: "a".to_string(), ty: ParameterType::Declared("u8".to_string()) },
    ];
    assert_eq!(find_parameter(&parameters, &"a".to_string()), Some(0));
    assert_eq!(find_parameter(&parameters, &"b".to_string()), Some(1));
    assert_eq!(find_parameter(&parameters, &"c".to_string()), None);
    let slots = vec![slot("x", Value::Absent), slot("y", Value::Flag(true))];
    assert_eq!(find_slot(&slots, &"y".to_string()), Some(1));
    assert_eq!(find_slot(&slots, &"z".to_string()), None);
    let block = sample_block();
    assert_eq!(find_function(&block.functions, &"with_name".to_string()), Some(2));
    assert_eq!(find_function(&block.functions, &"name".to_string()), None);
}

#[test]
fn expressions_evaluate_against_the_arguments() {
    let parameters = vec![
        Parameter { name: "a".to_string(), ty: ParameterType::Declared("u8".to_string()) },
        Parameter { name: "b".to_string(), ty: ParameterType::Declared("String".to_string()) },
    ];
    let arguments = vec![Value::Number(1), text("t")];
    assert_eq!(evaluate(&Expression::Absent, &parameters, &arguments), Some(Value::Absent));
    assert_eq!(evaluate(&Expression::Flag(true), &parameters, &arguments), Some(Value::Flag(true)));
    let b = Expression::Converted {
        conversion: ConversionKind::StringLike,
        parameter: "b".to_string(),
    };
    assert_eq!(evaluate(&b, &parameters, &arguments), Some(text("t")));
    let present =
        Expression::Present { conversion: ConversionKind::Verbatim, parameter: "a".to_string() };
    assert_eq!(evaluate(&present, &parameters, &arguments), Some(Value::Number(1)));
    let unknown =
        Expression::Converted { conversion: ConversionKind::Verbatim, parameter: "c".to_string() };
    assert_eq!(evaluate(&unknown, &parameters, &arguments), None);
    assert_eq!(
        convert_argument(ConversionKind::Verbatim, &"b".to_string(), &parameters, &vec![Value::Absent]),
        None
    );
    assert_eq!(
        convert_argument(ConversionKind::StringLike, &"a".to_string(), &parameters, &arguments),
        None
    );
}

#[test]
fn record_literals_and_stores_work_slot_by_slot() {
    let parameters =
        vec![Parameter { name: "a".to_string(), ty: ParameterType::Declared("u8".to_string()) }];
    let fields = vec![
        Assignment {
            field: "a".to_string(),
            value: Expression::Converted {
                conversion: ConversionKind::Verbatim,
                parameter: "a".to_string(),
            },
        },
        Assignment { field: "b".to_string(), value: Expression::Absent },
    ];
    let slots = construct(&fields, &parameters, &vec![Value::Number(2)]).unwrap();
    assert_eq!(slots, vec![slot("a", Value::Number(2)), slot("b", Value::Absent)]);
    assert_eq!(construct(&fields, &parameters, &vec![]), None);
    let stored = store(&slots, &"b".to_string(), &text("now"));
    assert_eq!(stored, vec![slot("a", Value::Number(2)), slot("b", text("now"))]);
    assert_eq!(store(&slots, &"c".to_string(), &text("now")), slots);
    let record = RecordValue { slots: stored };
    assert_eq!(record.get("b"), Some(&text("now")));
    assert_eq!(record.get("c"), None);
}
