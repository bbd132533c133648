//! What generated functions do: a model of the values they take and store,
//! and of a call of one of them.

use crate::plan::{Assignment, AssignmentView, Body, BodyView, Expression, ExpressionView,
    GeneratedFunction, GeneratedFunctionView, ImplementationBlock, ImplementationBlockView,
    Parameter, ParameterView};
use crate::tags::ConversionKind;
use vstd::prelude::*;
use vstd::utf8::{decode_utf8, valid_utf8};

verus! {

/// A value that a generated function takes as an argument or stores in a field.
#[derive(Debug, PartialEq, Eq)]
pub enum Value {
    /// The empty sentinel of an optional field.
    Absent,
    /// A boolean.
    Flag(bool),
    /// A whole number.
    Number(i64),
    /// Text: an owned string, or any value that can be viewed as text.
    Text(String),
    /// A filesystem path, given by its bytes, which need not be valid text.
    Path(Vec<u8>),
}

/// The mathematical content of a [`Value`].
pub enum ValueView {
    Absent,
    Flag(bool),
    Number(i64),
    Text(Seq<char>),
    Path(Seq<u8>),
}

impl View for Value {
    type V = ValueView;

    open spec fn view(&self) -> ValueView {
        match self {
            Value::Absent => ValueView::Absent,
            Value::Flag(flag) => ValueView::Flag(*flag),
            Value::Number(number) => ValueView::Number(*number),
            Value::Text(text) => ValueView::Text(text@),
            Value::Path(bytes) => ValueView::Path(bytes@),
        }
    }
}

impl DeepView for Value {
    type V = ValueView;

    open spec fn deep_view(&self) -> ValueView {
        self@
    }
}

impl Clone for Value {
    fn clone(&self) -> (copy: Value)
        ensures
            copy@ == self@,
    {
        match self {
            Value::Absent => Value::Absent,
            Value::Flag(flag) => Value::Flag(*flag),
            Value::Number(number) => Value::Number(*number),
            Value::Text(text) => Value::Text(text.clone()),
            Value::Path(bytes) => {
                let copy = bytes.clone();
                assert(copy@ =~= bytes@);
                Value::Path(copy)
            },
        }
    }
}

/// A field of a record value, with what it holds.
#[derive(Clone, Debug, PartialEq, Eq)]
pub struct Slot {
    pub field: String,
    pub value: Value,
}

/// The mathematical content of a [`Slot`].
pub struct SlotView {
    pub field: Seq<char>,
    pub value: ValueView,
}

impl View for Slot {
    type V = SlotView;

    open spec fn view(&self) -> SlotView {
        SlotView { field: self.field@, value: self.value@ }
    }
}

impl DeepView for Slot {
    type V = SlotView;

    open spec fn deep_view(&self) -> SlotView {
        self@
    }
}

/// A value of a record type: its fields with what they hold, in the order
/// in which the constructor wrote them.
#[derive(Clone, Debug, PartialEq, Eq)]
pub struct RecordValue {
    pub slots: Vec<Slot>,
}

/// The mathematical content of a [`RecordValue`].
pub struct RecordValueView {
    pub slots: Seq<SlotView>,
}

impl View for RecordValue {
    type V = RecordValueView;

    open spec fn view(&self) -> RecordValueView {
        RecordValueView { slots: self.slots.deep_view() }
    }
}

impl DeepView for RecordValue {
    type V = RecordValueView;

    open spec fn deep_view(&self) -> RecordValueView {
        self@
    }
}

/// The text that the lossy conversion makes of a byte string.
pub uninterp spec fn lossy_text(bytes: Seq<u8>) -> Seq<char>;

/// The text that a path-like field stores for a path of the given bytes:
/// the text that the bytes encode where they encode one, and else what the
/// lossy conversion makes of them.
pub open spec fn path_text(bytes: Seq<u8>) -> Seq<char> {
    if valid_utf8(bytes) {
        decode_utf8(bytes)
    } else {
        lossy_text(bytes)
    }
}

/// `String::from_utf8_lossy`, made an owned string. The conversion never
/// fails: it replaces what is no valid UTF-8 and keeps the rest, so valid
/// UTF-8 comes back as the text it encodes.
#[verifier::external_body]
fn decode_lossily(bytes: &Vec<u8>) -> (text: String)
    ensures
        text@ == lossy_text(bytes@),
        valid_utf8(bytes@) ==> text@ == decode_utf8(bytes@),
{
    String::from_utf8_lossy(bytes).into_owned()
}

/// What a conversion stores for a value, or nothing where the conversion
/// does not take such a value. Verbatim storage takes every value. The
/// string-like conversion takes text. The path-like conversion takes text,
/// which it keeps, and paths.
pub open spec fn converted(conversion: ConversionKind, value: ValueView) -> Option<ValueView> {
    match conversion {
        ConversionKind::Verbatim => Some(value),
        ConversionKind::StringLike => match value {
            ValueView::Text(text) => Some(ValueView::Text(text)),
            _ => None,
        },
        ConversionKind::PathLike => match value {
            ValueView::Text(text) => Some(ValueView::Text(text)),
            ValueView::Path(bytes) => Some(ValueView::Text(path_text(bytes))),
            _ => None,
        },
    }
}

/// The first place at which `name` stands among the names.
pub open spec fn position(names: Seq<Seq<char>>, name: Seq<char>) -> Option<int>
    decreases names.len(),
{
    if names.len() == 0 {
        None
    } else {
        match position(names.drop_last(), name) {
            Some(i) => Some(i),
            None => if names.last() == name {
                Some(names.len() - 1)
            } else {
                None
            },
        }
    }
}

/// A position is the first index that holds the name; there is none exactly
/// when no index holds it.
pub proof fn lemma_position(names: Seq<Seq<char>>, name: Seq<char>)
    ensures
        match position(names, name) {
            Some(i) => {
                &&& 0 <= i < names.len()
                &&& names[i] == name
                &&& forall|j: int| 0 <= j < i ==> names[j] != name
            },
            None => forall|j: int| 0 <= j < names.len() ==> names[j] != name,
        },
    decreases names.len(),
{
    if names.len() > 0 {
        lemma_position(names.drop_last(), name);
        assert(forall|j: int| 0 <= j < names.len() - 1 ==> names.drop_last()[j] == names[j]);
    }
}

/// An index is the position of a name when it holds the name and no earlier
/// index does.
pub proof fn lemma_position_is(names: Seq<Seq<char>>, name: Seq<char>, i: int)
    requires
        0 <= i < names.len(),
        names[i] == name,
        forall|j: int| 0 <= j < i ==> names[j] != name,
    ensures
        position(names, name) == Some(i),
{
    lemma_position(names, name);
}

/// The names of the parameters, in order.
pub open spec fn parameter_names(parameters: Seq<ParameterView>) -> Seq<Seq<char>> {
    Seq::new(parameters.len(), |i: int| parameters[i].name)
}

/// The names of the functions, in order.
pub open spec fn function_names(functions: Seq<GeneratedFunctionView>) -> Seq<Seq<char>> {
    Seq::new(functions.len(), |i: int| functions[i].name)
}

/// The names of the slots, in order.
pub open spec fn slot_names(slots: Seq<SlotView>) -> Seq<Seq<char>> {
    Seq::new(slots.len(), |i: int| slots[i].field)
}

/// The argument bound to the first parameter of the given name, put through
/// the conversion.
pub open spec fn converted_argument(
    conversion: ConversionKind,
    parameter: Seq<char>,
    parameters: Seq<ParameterView>,
    arguments: Seq<ValueView>,
) -> Option<ValueView> {
    match position(parameter_names(parameters), parameter) {
        Some(i) => if i < arguments.len() {
            converted(conversion, arguments[i])
        } else {
            None
        },
        None => None,
    }
}

/// The value of an expression in a call with the given arguments, or
/// nothing where it names no parameter or its conversion does not take the
/// argument. What is stored as the content of an optional field is that
/// content.
pub open spec fn evaluated(
    expression: ExpressionView,
    parameters: Seq<ParameterView>,
    arguments: Seq<ValueView>,
) -> Option<ValueView> {
    match expression {
        ExpressionView::Absent => Some(ValueView::Absent),
        ExpressionView::Flag(flag) => Some(ValueView::Flag(flag)),
        ExpressionView::Converted { conversion, parameter } => converted_argument(
            conversion,
            parameter,
            parameters,
            arguments,
        ),
        ExpressionView::Present { conversion, parameter } => converted_argument(
            conversion,
            parameter,
            parameters,
            arguments,
        ),
    }
}

/// The slots that a record literal makes: one per initializer, in order,
/// or nothing where one of the initializers has no value.
pub open spec fn constructed(
    fields: Seq<AssignmentView>,
    parameters: Seq<ParameterView>,
    arguments: Seq<ValueView>,
) -> Option<Seq<SlotView>>
    decreases fields.len(),
{
    if fields.len() == 0 {
        Some(Seq::empty())
    } else {
        match (
            constructed(fields.drop_last(), parameters, arguments),
            evaluated(fields.last().value, parameters, arguments),
        ) {
            (Some(slots), Some(value)) => Some(
                slots.push(SlotView { field: fields.last().field, value }),
            ),
            _ => None,
        }
    }
}

/// The slots after a store into the field of the given name: that field
/// holds the value, every other slot is as before.
pub open spec fn stored(slots: Seq<SlotView>, field: Seq<char>, value: ValueView) -> Seq<SlotView> {
    Seq::new(
        slots.len(),
        |i: int|
            if slots[i].field == field {
                SlotView { field, value }
            } else {
                slots[i]
            },
    )
}

/// What a field of a record value holds, or nothing where it has no such field.
pub open spec fn value_of(slots: Seq<SlotView>, field: Seq<char>) -> Option<ValueView> {
    match position(slot_names(slots), field) {
        Some(i) => Some(slots[i].value),
        None => None,
    }
}

/// What a call of a function gives that stands on its own: a constructor
/// called without a receiver, or a setter called on one. There is no result
/// where the number of arguments is not the number of parameters, where the
/// receiver is missing or uncalled for, where an expression has no value,
/// or where the receiver lacks the field that a setter stores into.
pub open spec fn applied(
    function: GeneratedFunctionView,
    receiver: Option<RecordValueView>,
    arguments: Seq<ValueView>,
) -> Option<RecordValueView> {
    if arguments.len() != function.parameters.len() {
        None
    } else {
        match (function.body, receiver) {
            (BodyView::Construct { record, fields }, None) => match constructed(
                fields,
                function.parameters,
                arguments,
            ) {
                Some(slots) => Some(RecordValueView { slots }),
                None => None,
            },
            (BodyView::Update(assignment), Some(record)) => match (
                value_of(record.slots, assignment.field),
                evaluated(assignment.value, function.parameters, arguments),
            ) {
                (Some(_), Some(value)) => Some(
                    RecordValueView { slots: stored(record.slots, assignment.field, value) },
                ),
                _ => None,
            },
            _ => None,
        }
    }
}

/// What a call of the function at `index` of a block gives. A function that
/// delegates hands its receiver and the value of its one argument on to the
/// first function of the block that bears the name it asks for.
pub open spec fn invoked(
    block: ImplementationBlockView,
    index: int,
    receiver: Option<RecordValueView>,
    arguments: Seq<ValueView>,
) -> Option<RecordValueView> {
    let function = block.functions[index];
    match function.body {
        BodyView::Delegate { function: target, argument } => match (
            position(function_names(block.functions), target),
            evaluated(argument, function.parameters, arguments),
        ) {
            (Some(to), Some(value)) => if arguments.len() == function.parameters.len()
                && receiver is Some {
                applied(block.functions[to], receiver, seq![value])
            } else {
                None
            },
            _ => None,
        },
        _ => applied(function, receiver, arguments),
    }
}

/// What a call by name gives: the call of the first function of the block
/// that bears the name, or nothing where none does.
pub open spec fn called(
    block: ImplementationBlockView,
    name: Seq<char>,
    receiver: Option<RecordValueView>,
    arguments: Seq<ValueView>,
) -> Option<RecordValueView> {
    match position(function_names(block.functions), name) {
        Some(index) => invoked(block, index, receiver, arguments),
        None => None,
    }
}

/// Puts a value through a conversion.
pub fn convert(conversion: ConversionKind, value: &Value) -> (outcome: Option<Value>)
    ensures
        outcome.deep_view() == converted(conversion, value@),
{
    match conversion {
        ConversionKind::Verbatim => Some(value.clone()),
        ConversionKind::StringLike => match value {
            Value::Text(text) => Some(Value::Text(text.clone())),
            _ => None,
        },
        ConversionKind::PathLike => match value {
            Value::Text(text) => Some(Value::Text(text.clone())),
            Value::Path(bytes) => Some(Value::Text(decode_lossily(bytes))),
            _ => None,
        },
    }
}

/// Finds the first parameter of the given name.
pub fn find_parameter(parameters: &Vec<Parameter>, name: &String) -> (found: Option<usize>)
    ensures
        match found {
            Some(i) => {
                &&& i < parameters.len()
                &&& position(parameter_names(parameters.deep_view()), name@) == Some(i as int)
            },
            None => position(parameter_names(parameters.deep_view()), name@) is None,
        },
{
    let ghost names = parameter_names(parameters.deep_view());
    let mut i: usize = 0;
    while i < parameters.len()
        invariant
            names == parameter_names(parameters.deep_view()),
            i <= parameters.len(),
            forall|j: int| 0 <= j < i ==> names[j] != name@,
        decreases parameters.len() - i,
    {
        if parameters[i].name == *name {
            proof {
                lemma_position_is(names, name@, i as int);
            }
            return Some(i);
        }
        i += 1;
    }
    proof {
        lemma_position(names, name@);
    }
    None
}

/// Finds the first slot of the given name.
pub fn find_slot(slots: &Vec<Slot>, name: &String) -> (found: Option<usize>)
    ensures
        match found {
            Some(i) => {
                &&& i < slots.len()
                &&& position(slot_names(slots.deep_view()), name@) == Some(i as int)
            },
            None => position(slot_names(slots.deep_view()), name@) is None,
        },
{
    let ghost names = slot_names(slots.deep_view());
    let mut i: usize = 0;
    while i < slots.len()
        invariant
            names == slot_names(slots.deep_view()),
            i <= slots.len(),
            forall|j: int| 0 <= j < i ==> names[j] != name@,
        decreases slots.len() - i,
    {
        if slots[i].field == *name {
            proof {
                lemma_position_is(names, name@, i as int);
            }
            return Some(i);
        }
        i += 1;
    }
    proof {
        lemma_position(names, name@);
    }
    None
}

/// Finds the first function of the given name.
pub fn find_function(functions: &Vec<GeneratedFunction>, name: &String) -> (found: Option<usize>)
    ensures
        match found {
            Some(i) => {
                &&& i < functions.len()
                &&& position(function_names(functions.deep_view()), name@) == Some(i as int)
            },
            None => position(function_names(functions.deep_view()), name@) is None,
        },
{
    let ghost names = function_names(functions.deep_view());
    let mut i: usize = 0;
    while i < functions.len()
        invariant
            names == function_names(functions.deep_view()),
            i <= functions.len(),
            forall|j: int| 0 <= j < i ==> names[j] != name@,
        decreases functions.len() - i,
    {
        if functions[i].name == *name {
            proof {
                lemma_position_is(names, name@, i as int);
            }
            return Some(i);
        }
        i += 1;
    }
    proof {
        lemma_position(names, name@);
    }
    None
}

/// Evaluates an expression in a call with the given arguments.
pub fn evaluate(
    expression: &Expression,
    parameters: &Vec<Parameter>,
    arguments: &Vec<Value>,
) -> (outcome: Option<Value>)
    ensures
        outcome.deep_view() == evaluated(
            expression@,
            parameters.deep_view(),
            arguments.deep_view(),
        ),
{
    match expression {
        Expression::Absent => Some(Value::Absent),
        Expression::Flag(flag) => Some(Value::Flag(*flag)),
        Expression::Converted { conversion, parameter } => convert_argument(
            *conversion,
            parameter,
            parameters,
            arguments,
        ),
        Expression::Present { conversion, parameter } => convert_argument(
            *conversion,
            parameter,
            parameters,
            arguments,
        ),
    }
}

/// Converts the argument bound to the first parameter of the given name.
pub fn convert_argument(
    conversion: ConversionKind,
    parameter: &String,
    parameters: &Vec<Parameter>,
    arguments: &Vec<Value>,
) -> (outcome: Option<Value>)
    ensures
        outcome.deep_view() == converted_argument(
            conversion,
            parameter@,
            parameters.deep_view(),
            arguments.deep_view(),
        ),
{
    match find_parameter(parameters, parameter) {
        Some(i) => if i < arguments.len() {
            assert(arguments.deep_view()[i as int] == arguments[i as int]@);
            convert(conversion, &arguments[i])
        } else {
            None
        },
        None => None,
    }
}

/// Builds the slots of a record literal.
pub fn construct(
    fields: &Vec<Assignment>,
    parameters: &Vec<Parameter>,
    arguments: &Vec<Value>,
) -> (outcome: Option<Vec<Slot>>)
    ensures
        outcome.deep_view() == constructed(
            fields.deep_view(),
            parameters.deep_view(),
            arguments.deep_view(),
        ),
{
    let ghost all = fields.deep_view();
    let mut slots: Vec<Slot> = Vec::new();
    let mut i: usize = 0;
    while i < fields.len()
        invariant
            all == fields.deep_view(),
            i <= fields.len(),
            constructed(all.take(i as int), parameters.deep_view(), arguments.deep_view()) == Some(
                slots.deep_view(),
            ),
        decreases fields.len() - i,
    {
        assert(all.take(i + 1).drop_last() =~= all.take(i as int));
        assert(all.take(i + 1).last() == fields[i as int]@);
        let ghost before = slots.deep_view();
        match evaluate(&fields[i].value, parameters, arguments) {
            Some(value) => {
                let slot = Slot { field: fields[i].field.clone(), value };
                slots.push(slot);
                assert(slots.deep_view() =~= before.push(slot@));
            },
            None => {
                proof {
                    lemma_constructed_fails_on(
                        all,
                        parameters.deep_view(),
                        arguments.deep_view(),
                        i + 1,
                    );
                }
                return None;
            },
        }
        i += 1;
    }
    assert(all.take(i as int) =~= all);
    Some(slots)
}

/// Where the first `n` initializers give no slots, all of them give none.
pub proof fn lemma_constructed_fails_on(
    fields: Seq<AssignmentView>,
    parameters: Seq<ParameterView>,
    arguments: Seq<ValueView>,
    n: int,
)
    requires
        0 <= n <= fields.len(),
        constructed(fields.take(n), parameters, arguments) is None,
    ensures
        constructed(fields, parameters, arguments) is None,
    decreases fields.len() - n,
{
    if n < fields.len() {
        assert(fields.take(n + 1).drop_last() =~= fields.take(n));
        lemma_constructed_fails_on(fields, parameters, arguments, n + 1);
    } else {
        assert(fields.take(n) =~= fields);
    }
}

/// Stores a value into the field of the given name.
pub fn store(slots: &Vec<Slot>, field: &String, value: &Value) -> (outcome: Vec<Slot>)
    ensures
        outcome.deep_view() == stored(slots.deep_view(), field@, value@),
{
    let mut updated: Vec<Slot> = Vec::new();
    let mut i: usize = 0;
    while i < slots.len()
        invariant
            i <= slots.len(),
            updated.len() == i,
            forall|j: int|
                0 <= j < i ==> (#[trigger] updated@[j])@ == stored(
                    slots.deep_view(),
                    field@,
                    value@,
                )[j],
        decreases slots.len() - i,
    {
        let slot = if slots[i].field == *field {
            Slot { field: field.clone(), value: value.clone() }
        } else {
            Slot { field: slots[i].field.clone(), value: slots[i].value.clone() }
        };
        updated.push(slot);
        i += 1;
    }
    assert(updated.deep_view() =~= stored(slots.deep_view(), field@, value@));
    updated
}

impl RecordValue {
    /// What the field of the given name holds.
    pub fn get(&self, field: &str) -> (value: Option<&Value>)
        ensures
            value.deep_view() == value_of(self@.slots, field@),
    {
        let name = String::from_str(field);
        match find_slot(&self.slots, &name) {
            Some(i) => {
                assert(self.slots.deep_view()[i as int] == self.slots[i as int]@);
                Some(&self.slots[i].value)
            },
            None => None,
        }
    }
}

impl GeneratedFunction {
    /// Calls a function that stands on its own.
    pub fn apply(&self, receiver: Option<&RecordValue>, arguments: &Vec<Value>) -> (outcome: Option<
        RecordValue,
    >)
        ensures
            outcome.deep_view() == applied(self@, receiver.deep_view(), arguments.deep_view()),
    {
        if arguments.len() != self.parameters.len() {
            return None;
        }
        match (&self.body, receiver) {
            (Body::Construct { record: _, fields }, None) => {
                match construct(fields, &self.parameters, arguments) {
                    Some(slots) => Some(RecordValue { slots }),
                    None => None,
                }
            },
            (Body::Update(assignment), Some(record)) => {
                match (
                    find_slot(&record.slots, &assignment.field),
                    evaluate(&assignment.value, &self.parameters, arguments),
                ) {
                    (Some(_), Some(value)) => Some(
                        RecordValue { slots: store(&record.slots, &assignment.field, &value) },
                    ),
                    _ => None,
                }
            },
            _ => None,
        }
    }
}

impl ImplementationBlock {
    /// Calls the function at `index`.
    pub fn invoke(
        &self,
        index: usize,
        receiver: Option<&RecordValue>,
        arguments: &Vec<Value>,
    ) -> (outcome: Option<RecordValue>)
        requires
            index < self.functions.len(),
        ensures
            outcome.deep_view() == invoked(
                self@,
                index as int,
                receiver.deep_view(),
                arguments.deep_view(),
            ),
    {
        let function = &self.functions[index];
        assert(function@ == self@.functions[index as int]);
        match &function.body {
            Body::Delegate { function: target, argument } => {
                match (
                    find_function(&self.functions, target),
                    evaluate(argument, &function.parameters, arguments),
                ) {
                    (Some(to), Some(value)) => {
                        if arguments.len() == function.parameters.len() && receiver.is_some() {
                            assert(self.functions[to as int]@ == self@.functions[to as int]);
                            let mut handed: Vec<Value> = Vec::new();
                            handed.push(value);
                            assert(handed.deep_view() =~= seq![value@]);
                            self.functions[to].apply(receiver, &handed)
                        } else {
                            None
                        }
                    },
                    _ => None,
                }
            },
            _ => function.apply(receiver, arguments),
        }
    }

    /// Calls the function of the given name.
    pub fn call(
        &self,
        name: &str,
        receiver: Option<&RecordValue>,
        arguments: &Vec<Value>,
    ) -> (outcome: Option<RecordValue>)
        ensures
            outcome.deep_view() == called(
                self@,
                name@,
                receiver.deep_view(),
                arguments.deep_view(),
            ),
    {
        let wanted = String::from_str(name);
        match find_function(&self.functions, &wanted) {
            Some(index) => self.invoke(index, receiver, arguments),
            None => None,
        }
    }
}

} // verus!
