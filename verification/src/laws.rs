//! What holds of the generated functions of every record.

use crate::argument::argument_of;
use crate::constructor::{arguments_of, create_function, fields_in_mode, left_empty_all,
    supplied_all};
use crate::generics::required_generics;
use crate::implementation_of;
use crate::meaning::{applied, called, constructed, converted, evaluated, function_names,
    lemma_position, lemma_position_is, parameter_names, path_text, position, slot_names, stored,
    value_of, RecordValueView, SlotView, ValueView};
use crate::model::{FieldDescriptorView, RecordDescriptorView};
use crate::plan::{AssignmentView, ExpressionView, GeneratedFunctionView, GenericParameter,
    ImplementationBlockView, ParameterTypeView, ParameterView};
use crate::setters::{boolean_fields, convenience_of, setter_name, setter_of};
use crate::tags::{ConstructionMode, ConversionKind};
use vstd::prelude::*;
use vstd::utf8::{decode_utf8, decode_utf8_encode_utf8, encode_utf8, valid_utf8};

verus! {

/// No two fields bear the same name.
pub open spec fn distinct_names(fields: Seq<FieldDescriptorView>) -> bool {
    forall|i: int, j: int|
        0 <= i < j < fields.len() ==> (#[trigger] fields[i]).name != (#[trigger] fields[j]).name
}

/// Every field of a mode's selection is a field of that mode.
pub proof fn lemma_selected_is_field(
    fields: Seq<FieldDescriptorView>,
    mode: ConstructionMode,
    j: int,
)
    requires
        0 <= j < fields_in_mode(fields, mode).len(),
    ensures
        fields_in_mode(fields, mode)[j].mode == mode,
        exists|i: int| 0 <= i < fields.len() && fields[i] == fields_in_mode(fields, mode)[j],
    decreases fields.len(),
{
    if fields.len() > 0 {
        let rest = fields.drop_last();
        let earlier = fields_in_mode(rest, mode);
        if j < earlier.len() {
            lemma_selected_is_field(rest, mode, j);
            let i = choose|i: int| 0 <= i < rest.len() && rest[i] == earlier[j];
            assert(fields[i] == fields_in_mode(fields, mode)[j]);
        } else {
            assert(fields[fields.len() - 1] == fields_in_mode(fields, mode)[j]);
        }
    }
}

/// Every field of a mode stands in that mode's selection.
pub proof fn lemma_field_is_selected(
    fields: Seq<FieldDescriptorView>,
    mode: ConstructionMode,
    i: int,
)
    requires
        0 <= i < fields.len(),
        fields[i].mode == mode,
    ensures
        exists|j: int|
            0 <= j < fields_in_mode(fields, mode).len() && fields_in_mode(fields, mode)[j]
                == fields[i],
    decreases fields.len(),
{
    let rest = fields.drop_last();
    let earlier = fields_in_mode(rest, mode);
    if i < fields.len() - 1 {
        lemma_field_is_selected(rest, mode, i);
        let j = choose|j: int| 0 <= j < earlier.len() && earlier[j] == rest[i];
        assert(fields_in_mode(fields, mode)[j] == fields[i]);
    } else {
        assert(fields_in_mode(fields, mode)[earlier.len() as int] == fields[i]);
    }
}

/// A selection of fields with distinct names has distinct names.
pub proof fn lemma_selection_keeps_names_distinct(
    fields: Seq<FieldDescriptorView>,
    mode: ConstructionMode,
)
    requires
        distinct_names(fields),
    ensures
        distinct_names(fields_in_mode(fields, mode)),
    decreases fields.len(),
{
    if fields.len() > 0 {
        let rest = fields.drop_last();
        let earlier = fields_in_mode(rest, mode);
        assert(distinct_names(rest)) by {
            assert forall|i: int, j: int| 0 <= i < j < rest.len() implies (#[trigger] rest[i]).name
                != (#[trigger] rest[j]).name by {
                assert(rest[i] == fields[i] && rest[j] == fields[j]);
            }
        }
        lemma_selection_keeps_names_distinct(rest, mode);
        let selected = fields_in_mode(fields, mode);
        assert forall|i: int, j: int| 0 <= i < j < selected.len() implies (
        #[trigger] selected[i]).name != (#[trigger] selected[j]).name by {
            if j < earlier.len() {
                assert(selected[i] == earlier[i] && selected[j] == earlier[j]);
            } else {
                lemma_selected_is_field(rest, mode, i);
                let a = choose|a: int| 0 <= a < rest.len() && rest[a] == earlier[i];
                assert(fields[a] == selected[i]);
                assert(fields[fields.len() - 1] == selected[j]);
            }
        }
    }
}

/// Where every field has the mode, the mode's selection is all the fields,
/// and the selection of another mode is empty.
pub proof fn lemma_uniform_mode(
    fields: Seq<FieldDescriptorView>,
    mode: ConstructionMode,
    other: ConstructionMode,
)
    requires
        forall|i: int| 0 <= i < fields.len() ==> (#[trigger] fields[i]).mode == mode,
        other != mode,
    ensures
        fields_in_mode(fields, mode) == fields,
        fields_in_mode(fields, other) == Seq::<FieldDescriptorView>::empty(),
    decreases fields.len(),
{
    if fields.len() == 0 {
        assert(fields_in_mode(fields, mode) =~= fields);
    } else {
        let rest = fields.drop_last();
        assert forall|i: int| 0 <= i < rest.len() implies (#[trigger] rest[i]).mode == mode by {
            assert(rest[i] == fields[i]);
        }
        lemma_uniform_mode(rest, mode, other);
        assert(fields[fields.len() - 1].mode == mode);
        assert(fields_in_mode(fields, mode) =~= fields);
    }
}

/// Fields that are all stored verbatim ask for no generic placeholder.
pub proof fn lemma_verbatim_fields_need_no_generics(fields: Seq<FieldDescriptorView>)
    requires
        forall|i: int|
            0 <= i < fields.len() ==> (#[trigger] fields[i]).conversion
                == ConversionKind::Verbatim,
    ensures
        required_generics(fields) == Seq::<GenericParameter>::empty(),
    decreases fields.len(),
{
    if fields.len() > 0 {
        let rest = fields.drop_last();
        assert forall|i: int| 0 <= i < rest.len() implies (#[trigger] rest[i]).conversion
            == ConversionKind::Verbatim by {
            assert(rest[i] == fields[i]);
        }
        lemma_verbatim_fields_need_no_generics(rest);
        assert(fields[fields.len() - 1].conversion == ConversionKind::Verbatim);
    }
}

/// A record literal whose initializers all have a value makes one slot per
/// initializer, in order, each with its initializer's field and value.
pub proof fn lemma_constructed_slots(
    fields: Seq<AssignmentView>,
    parameters: Seq<ParameterView>,
    arguments: Seq<ValueView>,
)
    ensures
        match constructed(fields, parameters, arguments) {
            Some(slots) => {
                &&& slots.len() == fields.len()
                &&& forall|k: int|
                    0 <= k < fields.len() ==> evaluated(
                        (#[trigger] fields[k]).value,
                        parameters,
                        arguments,
                    ) == Some(slots[k].value) && slots[k].field == fields[k].field
            },
            None => exists|k: int|
                0 <= k < fields.len() && evaluated(
                    (#[trigger] fields[k]).value,
                    parameters,
                    arguments,
                ) is None,
        },
    decreases fields.len(),
{
    if fields.len() > 0 {
        let rest = fields.drop_last();
        lemma_constructed_slots(rest, parameters, arguments);
        match constructed(rest, parameters, arguments) {
            Some(earlier) => {
                match evaluated(fields.last().value, parameters, arguments) {
                    Some(value) => {
                        let slots = constructed(fields, parameters, arguments)->Some_0;
                        assert forall|k: int| 0 <= k < fields.len() implies evaluated(
                            (#[trigger] fields[k]).value,
                            parameters,
                            arguments,
                        ) == Some(slots[k].value) && slots[k].field == fields[k].field by {
                            if k < rest.len() {
                                assert(rest[k] == fields[k]);
                            }
                        }
                    },
                    None => {
                        assert(fields[fields.len() - 1] == fields.last());
                    },
                }
            },
            None => {
                let k = choose|k: int|
                    0 <= k < rest.len() && evaluated(
                        (#[trigger] rest[k]).value,
                        parameters,
                        arguments,
                    ) is None;
                assert(fields[k] == rest[k]);
            },
        }
    }
}

/// The slots that the constructor of a record makes of its arguments: the
/// eager fields in declaration order, each with its converted argument,
/// then the deferred fields in declaration order, each empty.
pub open spec fn created_slots(
    fields: Seq<FieldDescriptorView>,
    arguments: Seq<ValueView>,
) -> Seq<SlotView> {
    let eager = fields_in_mode(fields, ConstructionMode::Eager);
    let deferred = fields_in_mode(fields, ConstructionMode::Deferred);
    Seq::new(
        eager.len() + deferred.len(),
        |k: int|
            if k < eager.len() {
                SlotView {
                    field: eager[k].name,
                    value: converted(eager[k].conversion, arguments[k])->Some_0,
                }
            } else {
                SlotView { field: deferred[k - eager.len()].name, value: ValueView::Absent }
            },
    )
}

/// Whether the arguments are such as the constructor takes: one per eager
/// field, in declaration order, each of a kind that its field's conversion takes.
pub open spec fn constructor_takes(
    fields: Seq<FieldDescriptorView>,
    arguments: Seq<ValueView>,
) -> bool {
    let eager = fields_in_mode(fields, ConstructionMode::Eager);
    &&& arguments.len() == eager.len()
    &&& forall|k: int|
        0 <= k < eager.len() ==> converted((#[trigger] eager[k]).conversion, arguments[k]) is Some
}

/// In a constructor of fields with distinct names, each parameter's name
/// finds that parameter's argument.
proof fn lemma_constructor_binds(fields: Seq<FieldDescriptorView>, k: int)
    requires
        distinct_names(fields),
        0 <= k < fields.len(),
    ensures
        position(parameter_names(arguments_of(fields)), fields[k].name) == Some(k),
{
    let names = parameter_names(arguments_of(fields));
    assert forall|j: int| 0 <= j < k implies names[j] != fields[k].name by {
        assert(names[j] == fields[j].name);
    }
    assert(names[k] == fields[k].name);
    lemma_position_is(names, fields[k].name, k);
}

/// The constructor of a record whose fields have distinct names gives a
/// result exactly for the arguments it takes, and the result is the record
/// value with the slots that it makes of them.
pub proof fn lemma_constructor_result(
    record: Seq<char>,
    fields: Seq<FieldDescriptorView>,
    arguments: Seq<ValueView>,
)
    requires
        distinct_names(fields),
    ensures
        applied(create_function(record, fields), None, arguments) == if constructor_takes(
            fields,
            arguments,
        ) {
            Some(RecordValueView { slots: created_slots(fields, arguments) })
        } else {
            None
        },
{
    let eager = fields_in_mode(fields, ConstructionMode::Eager);
    let deferred = fields_in_mode(fields, ConstructionMode::Deferred);
    let function = create_function(record, fields);
    let initializers = supplied_all(eager) + left_empty_all(deferred);
    let parameters = arguments_of(eager);
    lemma_selection_keeps_names_distinct(fields, ConstructionMode::Eager);
    if arguments.len() == eager.len() {
        lemma_constructed_slots(initializers, parameters, arguments);
        assert forall|k: int| 0 <= k < initializers.len() implies evaluated(
            (#[trigger] initializers[k]).value,
            parameters,
            arguments,
        ) == if k < eager.len() {
            converted(eager[k].conversion, arguments[k])
        } else {
            Some(ValueView::Absent)
        } by {
            if k < eager.len() {
                lemma_constructor_binds(eager, k);
            }
        }
        if constructor_takes(fields, arguments) {
            match constructed(initializers, parameters, arguments) {
                Some(slots) => {
                    let expected = created_slots(fields, arguments);
                    assert forall|k: int| 0 <= k < slots.len() implies slots[k] == expected[k] by {
                        let initializer = initializers[k];
                        assert(evaluated(initializer.value, parameters, arguments) == Some(
                            slots[k].value,
                        ));
                        assert(slots[k].field == initializer.field);
                    }
                    assert(slots =~= expected);
                },
                None => {},
            }
        } else {
            let k = choose|k: int|
                0 <= k < eager.len() && !(converted(
                    (#[trigger] eager[k]).conversion,
                    arguments[k],
                ) is Some);
            assert(evaluated(initializers[k].value, parameters, arguments) is None);
        }
    }
}

/// The constructor of a record whose fields are all eager and stored
/// verbatim has no generic clause and one parameter per field, in
/// declaration order, of the field's name and declared type. It gives a
/// result exactly for one argument per field, and in the result every field
/// holds its argument as it was given.
pub proof fn lemma_plain_constructor(
    record: Seq<char>,
    fields: Seq<FieldDescriptorView>,
    arguments: Seq<ValueView>,
)
    requires
        distinct_names(fields),
        forall|i: int|
            0 <= i < fields.len() ==> (#[trigger] fields[i]).mode == ConstructionMode::Eager
                && fields[i].conversion == ConversionKind::Verbatim,
    ensures
        create_function(record, fields).generics == Seq::<GenericParameter>::empty(),
        create_function(record, fields).parameters == Seq::new(
            fields.len(),
            |i: int|
                ParameterView {
                    name: fields[i].name,
                    ty: ParameterTypeView::Declared(fields[i].declared_type),
                },
        ),
        applied(create_function(record, fields), None, arguments) == if arguments.len()
            == fields.len() {
            Some(
                RecordValueView {
                    slots: Seq::new(
                        fields.len(),
                        |i: int| SlotView { field: fields[i].name, value: arguments[i] },
                    ),
                },
            )
        } else {
            None
        },
{
    lemma_uniform_mode(fields, ConstructionMode::Eager, ConstructionMode::Deferred);
    lemma_verbatim_fields_need_no_generics(fields);
    lemma_constructor_result(record, fields, arguments);
    assert(create_function(record, fields).parameters =~= Seq::new(
        fields.len(),
        |i: int|
            ParameterView {
                name: fields[i].name,
                ty: ParameterTypeView::Declared(fields[i].declared_type),
            },
    ));
    if arguments.len() == fields.len() {
        assert(constructor_takes(fields, arguments));
        assert(created_slots(fields, arguments) =~= Seq::new(
            fields.len(),
            |i: int| SlotView { field: fields[i].name, value: arguments[i] },
        ));
    }
}

/// Whatever the constructor of a record is given, a deferred field of the
/// result is empty, however many other fields are eager; the one thing
/// asked is that no eager field bears the deferred field's name.
pub proof fn lemma_deferred_field_starts_empty(
    record: Seq<char>,
    fields: Seq<FieldDescriptorView>,
    arguments: Seq<ValueView>,
    i: int,
)
    requires
        0 <= i < fields.len(),
        fields[i].mode == ConstructionMode::Deferred,
        forall|k: int|
            0 <= k < fields.len() && (#[trigger] fields[k]).mode == ConstructionMode::Eager
                ==> fields[k].name != fields[i].name,
        applied(create_function(record, fields), None, arguments) is Some,
    ensures
        value_of(
            applied(create_function(record, fields), None, arguments)->Some_0.slots,
            fields[i].name,
        ) == Some(ValueView::Absent),
{
    let eager = fields_in_mode(fields, ConstructionMode::Eager);
    let deferred = fields_in_mode(fields, ConstructionMode::Deferred);
    let initializers = supplied_all(eager) + left_empty_all(deferred);
    let parameters = arguments_of(eager);
    let slots = applied(create_function(record, fields), None, arguments)->Some_0.slots;
    let names = slot_names(slots);
    lemma_constructed_slots(initializers, parameters, arguments);
    lemma_field_is_selected(fields, ConstructionMode::Deferred, i);
    let j = choose|j: int| 0 <= j < deferred.len() && deferred[j] == fields[i];
    assert(initializers[eager.len() + j].field == fields[i].name);
    assert(names[eager.len() + j] == fields[i].name);
    lemma_position(names, fields[i].name);
    let at = position(names, fields[i].name)->Some_0;
    assert(initializers[at].field == names[at]);
    if at < eager.len() {
        lemma_selected_is_field(fields, ConstructionMode::Eager, at);
        let k = choose|k: int| 0 <= k < fields.len() && fields[k] == eager[at];
        assert(fields[k].name != fields[i].name);
    }
    assert(initializers[at].value == ExpressionView::Absent);
}

/// A store leaves the fields and their order as they are.
pub proof fn lemma_store_keeps_fields(slots: Seq<SlotView>, field: Seq<char>, value: ValueView)
    ensures
        slot_names(stored(slots, field, value)) == slot_names(slots),
{
    assert(slot_names(stored(slots, field, value)) =~= slot_names(slots));
}

/// After a store into a field that the record has, the field holds what
/// was stored.
pub proof fn lemma_store_then_read(slots: Seq<SlotView>, field: Seq<char>, value: ValueView)
    requires
        value_of(slots, field) is Some,
    ensures
        value_of(stored(slots, field, value), field) == Some(value),
{
    lemma_store_keeps_fields(slots, field, value);
    lemma_position(slot_names(slots), field);
}

/// A store into one field leaves what every other field holds.
pub proof fn lemma_store_leaves_others(
    slots: Seq<SlotView>,
    field: Seq<char>,
    value: ValueView,
    other: Seq<char>,
)
    requires
        other != field,
    ensures
        value_of(stored(slots, field, value), other) == value_of(slots, other),
{
    lemma_store_keeps_fields(slots, field, value);
    lemma_position(slot_names(slots), other);
}

/// The setter of a field gives a result exactly when the receiver has the
/// field and the field's conversion takes the argument; the result is the
/// receiver with the converted argument stored in the field.
pub proof fn lemma_setter_result(
    field: FieldDescriptorView,
    receiver: RecordValueView,
    argument: ValueView,
)
    ensures
        applied(setter_of(field), Some(receiver), seq![argument]) == match (
            value_of(receiver.slots, field.name),
            converted(field.conversion, argument),
        ) {
            (Some(_), Some(value)) => Some(
                RecordValueView { slots: stored(receiver.slots, field.name, value) },
            ),
            _ => None,
        },
{
    let names = parameter_names(setter_of(field).parameters);
    assert(names[0] == field.name);
    lemma_position_is(names, field.name, 0);
}

/// A string-like field takes any text through a placeholder of its own, in
/// the constructor and in its setter, and stores the text as an owned
/// string, whatever the type of the value that was viewed as text.
pub proof fn lemma_string_like_field_stores_text(
    field: FieldDescriptorView,
    receiver: RecordValueView,
    text: Seq<char>,
)
    requires
        field.conversion == ConversionKind::StringLike,
        value_of(receiver.slots, field.name) is Some,
    ensures
        argument_of(field).ty == ParameterTypeView::Generic(GenericParameter::Text),
        converted(field.conversion, ValueView::Text(text)) == Some(ValueView::Text(text)),
        applied(setter_of(field), Some(receiver), seq![ValueView::Text(text)]) matches Some(after)
            && value_of(after.slots, field.name) == Some(ValueView::Text(text)),
{
    lemma_setter_result(field, receiver, ValueView::Text(text));
    lemma_store_then_read(receiver.slots, field.name, ValueView::Text(text));
}

/// A path-like field takes any path through a placeholder of its own and
/// never fails on one. A path given as text is stored as that text. A path
/// given by bytes that encode a text is stored as the text that encodes to
/// these very bytes. Any other path is stored as what the lossy conversion
/// makes of its bytes.
pub proof fn lemma_path_like_field_stores_text(
    field: FieldDescriptorView,
    receiver: RecordValueView,
    text: Seq<char>,
    bytes: Seq<u8>,
)
    requires
        field.conversion == ConversionKind::PathLike,
        value_of(receiver.slots, field.name) is Some,
    ensures
        argument_of(field).ty == ParameterTypeView::Generic(GenericParameter::Path),
        converted(field.conversion, ValueView::Text(text)) == Some(ValueView::Text(text)),
        converted(field.conversion, ValueView::Path(bytes)) == Some(
            ValueView::Text(path_text(bytes)),
        ),
        valid_utf8(bytes) ==> path_text(bytes) == decode_utf8(bytes) && encode_utf8(
            path_text(bytes),
        ) == bytes,
        applied(setter_of(field), Some(receiver), seq![ValueView::Text(text)]) matches Some(after)
            && value_of(after.slots, field.name) == Some(ValueView::Text(text)),
        applied(setter_of(field), Some(receiver), seq![ValueView::Path(bytes)]) matches Some(after)
            && value_of(after.slots, field.name) == Some(ValueView::Text(path_text(bytes))),
{
    lemma_setter_result(field, receiver, ValueView::Text(text));
    lemma_setter_result(field, receiver, ValueView::Path(bytes));
    lemma_store_then_read(receiver.slots, field.name, ValueView::Text(text));
    lemma_store_then_read(receiver.slots, field.name, ValueView::Text(path_text(bytes)));
    if valid_utf8(bytes) {
        decode_utf8_encode_utf8(bytes);
    }
}

/// Every boolean field stands among the boolean fields.
pub proof fn lemma_boolean_field_is_selected(fields: Seq<FieldDescriptorView>, i: int)
    requires
        0 <= i < fields.len(),
        fields[i].is_boolean_flag,
    ensures
        exists|j: int|
            0 <= j < boolean_fields(fields).len() && boolean_fields(fields)[j] == fields[i],
    decreases fields.len(),
{
    let rest = fields.drop_last();
    let earlier = boolean_fields(rest);
    if i < fields.len() - 1 {
        lemma_boolean_field_is_selected(rest, i);
        let j = choose|j: int| 0 <= j < earlier.len() && earlier[j] == rest[i];
        assert(boolean_fields(fields)[j] == fields[i]);
    } else {
        assert(boolean_fields(fields)[earlier.len() as int] == fields[i]);
    }
}

/// Whether a call by the name reaches the function: the first function of
/// the block that bears the name is this one.
pub open spec fn resolves_to(
    block: ImplementationBlockView,
    name: Seq<char>,
    function: GeneratedFunctionView,
) -> bool {
    position(function_names(block.functions), name) matches Some(index) && block.functions[index]
        == function
}

/// Calling the shorthand of a boolean field is calling the field's setter
/// with `true`, wherever the two names reach the field's own shorthand and
/// setter.
pub proof fn lemma_shorthand_sets_true(
    record: RecordDescriptorView,
    i: int,
    receiver: Option<RecordValueView>,
)
    requires
        0 <= i < record.fields.len(),
        record.fields[i].is_boolean_flag,
        resolves_to(
            implementation_of(record),
            record.fields[i].name,
            convenience_of(record.fields[i]),
        ),
        resolves_to(
            implementation_of(record),
            setter_name(record.fields[i].name),
            setter_of(record.fields[i]),
        ),
    ensures
        called(implementation_of(record), record.fields[i].name, receiver, Seq::empty())
            == called(
            implementation_of(record),
            setter_name(record.fields[i].name),
            receiver,
            seq![ValueView::Flag(true)],
        ),
{
}

/// In the block of a record none of whose generated functions shares its
/// name with another, the name of every boolean field reaches the field's
/// shorthand, and the name of its setter reaches its setter.
pub proof fn lemma_distinct_names_resolve(record: RecordDescriptorView, i: int)
    requires
        0 <= i < record.fields.len(),
        record.fields[i].is_boolean_flag,
        function_names(implementation_of(record).functions).no_duplicates(),
    ensures
        resolves_to(
            implementation_of(record),
            record.fields[i].name,
            convenience_of(record.fields[i]),
        ),
        resolves_to(
            implementation_of(record),
            setter_name(record.fields[i].name),
            setter_of(record.fields[i]),
        ),
{
    let block = implementation_of(record);
    let names = function_names(block.functions);
    let field = record.fields[i];
    let shorthands = boolean_fields(record.fields);
    lemma_boolean_field_is_selected(record.fields, i);
    let j = choose|j: int| 0 <= j < shorthands.len() && shorthands[j] == field;
    let short = 1 + j;
    let long = 1 + shorthands.len() + i;
    assert(block.functions[short] == convenience_of(field));
    assert(block.functions[long] == setter_of(field));
    assert(names[short] == field.name);
    assert(names[long] == setter_name(field.name));
    lemma_position_is(names, field.name, short);
    lemma_position_is(names, setter_name(field.name), long);
}

/// Of two calls of a field's setter in a row the second decides: the
/// outcome is that of the second call alone, the field holds the second
/// argument, converted, and no call touches what any other field holds.
pub proof fn lemma_last_write_wins(
    field: FieldDescriptorView,
    receiver: RecordValueView,
    first: ValueView,
    second: ValueView,
    other: Seq<char>,
)
    requires
        applied(setter_of(field), Some(receiver), seq![first]) is Some,
        other != field.name,
    ensures
        ({
            let between = applied(setter_of(field), Some(receiver), seq![first]);
            let after = applied(setter_of(field), between, seq![second]);
            &&& after == applied(setter_of(field), Some(receiver), seq![second])
            &&& value_of(between->Some_0.slots, other) == value_of(receiver.slots, other)
            &&& after is Some <==> converted(field.conversion, second) is Some
            &&& after is Some ==> value_of(after->Some_0.slots, field.name) == converted(
                field.conversion,
                second,
            ) && value_of(after->Some_0.slots, other) == value_of(receiver.slots, other)
        }),
{
    let between = applied(setter_of(field), Some(receiver), seq![first])->Some_0;
    lemma_setter_result(field, receiver, first);
    lemma_setter_result(field, receiver, second);
    lemma_setter_result(field, between, second);
    let kept = converted(field.conversion, first)->Some_0;
    lemma_store_then_read(receiver.slots, field.name, kept);
    lemma_store_leaves_others(receiver.slots, field.name, kept, other);
    match converted(field.conversion, second) {
        Some(value) => {
            assert(stored(between.slots, field.name, value) =~= stored(
                receiver.slots,
                field.name,
                value,
            ));
            lemma_store_then_read(receiver.slots, field.name, value);
            lemma_store_leaves_others(receiver.slots, field.name, value, other);
        },
        None => {},
    }
}

} // verus!
