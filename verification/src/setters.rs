//! The fluent setters of a record, and the shorthands for its boolean fields.

use crate::argument::{argument_of, to_argument};
use crate::generics::required_generics;
use crate::model::{FieldDescriptor, FieldDescriptorView};
use crate::plan::{generic_of, Assignment, AssignmentView, Body, BodyView, Expression,
    ExpressionView, GeneratedFunction, GeneratedFunctionView, GenericParameter, Parameter};
use crate::tags::{ConstructionMode, ConversionKind};
use vstd::prelude::*;

verus! {

/// The name of the setter of a field: `with_` and the field's name.
pub open spec fn setter_name(field: Seq<char>) -> Seq<char> {
    "with_"@ + field
}

/// Whether a setter stores its converted argument as the content of an
/// optional field. A deferred field is declared as an optional container: a
/// verbatim argument is such a container already, a converted one is what
/// the container is to hold.
pub open spec fn fills_optional(field: FieldDescriptorView) -> bool {
    field.mode == ConstructionMode::Deferred && field.conversion != ConversionKind::Verbatim
}

/// What a field's setter stores in the field: the parameter of the field's
/// name, put through the field's conversion.
pub open spec fn assigned(field: FieldDescriptorView) -> AssignmentView {
    AssignmentView {
        field: field.name,
        value: if fills_optional(field) {
            ExpressionView::Present { conversion: field.conversion, parameter: field.name }
        } else {
            ExpressionView::Converted { conversion: field.conversion, parameter: field.name }
        },
    }
}

/// The setter of a field: it takes the receiver and the field as its one
/// parameter, with the generics that this one field asks for, stores the
/// converted argument in the field and returns the receiver.
pub open spec fn setter_of(field: FieldDescriptorView) -> GeneratedFunctionView {
    GeneratedFunctionView {
        name: setter_name(field.name),
        generics: required_generics(seq![field]),
        parameters: seq![argument_of(field)],
        body: BodyView::Update(assigned(field)),
    }
}

/// The shorthand of a boolean field: it has the field's name, takes the
/// receiver alone, and returns what the field's setter gives for `true`.
pub open spec fn convenience_of(field: FieldDescriptorView) -> GeneratedFunctionView {
    GeneratedFunctionView {
        name: field.name,
        generics: Seq::empty(),
        parameters: Seq::empty(),
        body: BodyView::Delegate {
            function: setter_name(field.name),
            argument: ExpressionView::Flag(true),
        },
    }
}

/// The fields whose declared type is the primitive boolean type, in
/// declaration order.
pub open spec fn boolean_fields(fields: Seq<FieldDescriptorView>) -> Seq<FieldDescriptorView>
    decreases fields.len(),
{
    if fields.len() == 0 {
        Seq::empty()
    } else {
        let earlier = boolean_fields(fields.drop_last());
        if fields.last().is_boolean_flag {
            earlier.push(fields.last())
        } else {
            earlier
        }
    }
}

/// One setter per field, in order.
pub open spec fn setters_of(fields: Seq<FieldDescriptorView>) -> Seq<GeneratedFunctionView> {
    Seq::new(fields.len(), |i: int| setter_of(fields[i]))
}

/// One shorthand per field, in order.
pub open spec fn conveniences_of(fields: Seq<FieldDescriptorView>) -> Seq<GeneratedFunctionView> {
    Seq::new(fields.len(), |i: int| convenience_of(fields[i]))
}

/// The fluent functions of a record: the shorthands of its boolean fields,
/// then the setters of all its fields, each group in declaration order.
pub open spec fn fluent_functions(fields: Seq<FieldDescriptorView>) -> Seq<GeneratedFunctionView> {
    conveniences_of(boolean_fields(fields)) + setters_of(fields)
}

/// A single field asks for its own placeholder and no other.
pub proof fn lemma_single_field_generics(field: FieldDescriptorView)
    ensures
        required_generics(seq![field]) == match generic_of(field.conversion) {
            Some(generic) => seq![generic],
            None => Seq::empty(),
        },
{
    reveal_with_fuel(required_generics, 2);
    assert(seq![field].drop_last() =~= Seq::empty());
    assert(Seq::<GenericParameter>::empty().push(GenericParameter::Text) =~= seq![
        GenericParameter::Text,
    ]);
    assert(Seq::<GenericParameter>::empty().push(GenericParameter::Path) =~= seq![
        GenericParameter::Path,
    ]);
}

/// Generates the setter of one field.
pub fn setter(field: &FieldDescriptor) -> (function: GeneratedFunction)
    ensures
        function@ == setter_of(field@),
{
    let mut generics: Vec<GenericParameter> = Vec::new();
    match field.conversion.generic() {
        Some(generic) => {
            generics.push(generic);
        },
        None => {},
    }
    let mut parameters: Vec<Parameter> = Vec::new();
    parameters.push(to_argument(field));
    let optional = match (field.mode, field.conversion) {
        (ConstructionMode::Eager, _) => false,
        (ConstructionMode::Deferred, ConversionKind::Verbatim) => false,
        (ConstructionMode::Deferred, _) => true,
    };
    let value = if optional {
        Expression::Present { conversion: field.conversion, parameter: field.name.clone() }
    } else {
        Expression::Converted { conversion: field.conversion, parameter: field.name.clone() }
    };
    let function = GeneratedFunction {
        name: String::from_str("with_").concat(field.name.as_str()),
        generics,
        parameters,
        body: Body::Update(Assignment { field: field.name.clone(), value }),
    };
    proof {
        lemma_single_field_generics(field@);
        assert(function@.generics =~= setter_of(field@).generics);
        assert(function@.parameters =~= setter_of(field@).parameters);
    }
    function
}

/// Generates the shorthand of one boolean field.
pub fn convenience(field: &FieldDescriptor) -> (function: GeneratedFunction)
    ensures
        function@ == convenience_of(field@),
{
    let function = GeneratedFunction {
        name: field.name.clone(),
        generics: Vec::new(),
        parameters: Vec::new(),
        body: Body::Delegate {
            function: String::from_str("with_").concat(field.name.as_str()),
            argument: Expression::Flag(true),
        },
    };
    proof {
        assert(function@.generics =~= convenience_of(field@).generics);
        assert(function@.parameters =~= convenience_of(field@).parameters);
    }
    function
}

/// Generates the fluent functions of a record with the given fields.
pub fn with_functions(fields: &Vec<FieldDescriptor>) -> (functions: Vec<GeneratedFunction>)
    ensures
        functions.deep_view() == fluent_functions(fields.deep_view()),
{
    let ghost all = fields.deep_view();
    let mut functions: Vec<GeneratedFunction> = Vec::new();
    let mut i: usize = 0;
    while i < fields.len()
        invariant
            all == fields.deep_view(),
            i <= fields.len(),
            functions.deep_view() == conveniences_of(boolean_fields(all.take(i as int))),
        decreases fields.len() - i,
    {
        assert(all.take(i + 1).drop_last() =~= all.take(i as int));
        assert(all.take(i + 1).last() == fields[i as int]@);
        if fields[i].is_boolean_flag {
            let ghost before = functions.deep_view();
            let function = convenience(&fields[i]);
            functions.push(function);
            assert(functions.deep_view() =~= before.push(function@));
            assert(functions.deep_view() =~= conveniences_of(boolean_fields(all.take(i + 1))));
        }
        i += 1;
    }
    assert(all.take(i as int) =~= all);
    let ghost shorthands = functions.deep_view();
    let mut j: usize = 0;
    while j < fields.len()
        invariant
            all == fields.deep_view(),
            j <= fields.len(),
            functions.deep_view() == shorthands + setters_of(all.take(j as int)),
        decreases fields.len() - j,
    {
        let ghost before = functions.deep_view();
        let function = setter(&fields[j]);
        functions.push(function);
        assert(functions.deep_view() =~= before.push(function@));
        assert(functions.deep_view() =~= shorthands + setters_of(all.take(j + 1)));
        j += 1;
    }
    assert(all.take(j as int) =~= all);
    functions
}

} // verus!
