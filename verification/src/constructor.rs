//! The eager constructor of a record.

use crate::argument::{argument_of, to_argument};
use crate::generics::{collect_generics, required_generics};
use crate::model::{FieldDescriptor, FieldDescriptorView};
use crate::plan::{Assignment, AssignmentView, Body, BodyView, Expression, ExpressionView,
    GeneratedFunction, GeneratedFunctionView, Parameter, ParameterView};
use crate::tags::ConstructionMode;
use vstd::prelude::*;

verus! {

/// The fields of the given mode, in declaration order.
pub open spec fn fields_in_mode(
    fields: Seq<FieldDescriptorView>,
    mode: ConstructionMode,
) -> Seq<FieldDescriptorView>
    decreases fields.len(),
{
    if fields.len() == 0 {
        Seq::empty()
    } else {
        let earlier = fields_in_mode(fields.drop_last(), mode);
        if fields.last().mode == mode {
            earlier.push(fields.last())
        } else {
            earlier
        }
    }
}

/// One parameter per field, in order.
pub open spec fn arguments_of(fields: Seq<FieldDescriptorView>) -> Seq<ParameterView> {
    Seq::new(fields.len(), |i: int| argument_of(fields[i]))
}

/// What is stored in a field that a function takes as a parameter: the
/// parameter of the field's name, put through the field's conversion.
pub open spec fn supplied(field: FieldDescriptorView) -> AssignmentView {
    AssignmentView {
        field: field.name,
        value: ExpressionView::Converted { conversion: field.conversion, parameter: field.name },
    }
}

/// What the constructor stores in a deferred field: the empty sentinel.
pub open spec fn left_empty(field: FieldDescriptorView) -> AssignmentView {
    AssignmentView { field: field.name, value: ExpressionView::Absent }
}

/// The initializers of the given fields as constructor parameters, in order.
pub open spec fn supplied_all(fields: Seq<FieldDescriptorView>) -> Seq<AssignmentView> {
    Seq::new(fields.len(), |i: int| supplied(fields[i]))
}

/// The initializers that leave the given fields empty, in order.
pub open spec fn left_empty_all(fields: Seq<FieldDescriptorView>) -> Seq<AssignmentView> {
    Seq::new(fields.len(), |i: int| left_empty(fields[i]))
}

/// The constructor of a record: the function `create`, which takes the eager
/// fields in declaration order, needs the generics that those fields ask
/// for, and builds the record from the converted arguments, followed by the
/// deferred fields left empty.
pub open spec fn create_function(
    record: Seq<char>,
    fields: Seq<FieldDescriptorView>,
) -> GeneratedFunctionView {
    let eager = fields_in_mode(fields, ConstructionMode::Eager);
    let deferred = fields_in_mode(fields, ConstructionMode::Deferred);
    GeneratedFunctionView {
        name: "create"@,
        generics: required_generics(eager),
        parameters: arguments_of(eager),
        body: BodyView::Construct {
            record,
            fields: supplied_all(eager) + left_empty_all(deferred),
        },
    }
}

/// Splits the fields by mode: the eager ones and the deferred ones, each in
/// declaration order.
pub fn partition(fields: &Vec<FieldDescriptor>) -> (parts: (
    Vec<FieldDescriptor>,
    Vec<FieldDescriptor>,
))
    ensures
        parts.0.deep_view() == fields_in_mode(fields.deep_view(), ConstructionMode::Eager),
        parts.1.deep_view() == fields_in_mode(fields.deep_view(), ConstructionMode::Deferred),
{
    let ghost all = fields.deep_view();
    let mut eager: Vec<FieldDescriptor> = Vec::new();
    let mut deferred: Vec<FieldDescriptor> = Vec::new();
    let mut i: usize = 0;
    while i < fields.len()
        invariant
            all == fields.deep_view(),
            i <= fields.len(),
            eager.deep_view() == fields_in_mode(all.take(i as int), ConstructionMode::Eager),
            deferred.deep_view() == fields_in_mode(all.take(i as int), ConstructionMode::Deferred),
        decreases fields.len() - i,
    {
        assert(all.take(i + 1).drop_last() =~= all.take(i as int));
        assert(all.take(i + 1).last() == fields[i as int]@);
        let ghost eager_before = eager.deep_view();
        let ghost deferred_before = deferred.deep_view();
        let field = fields[i].clone();
        match field.mode {
            ConstructionMode::Eager => {
                eager.push(field);
                assert(eager.deep_view() =~= eager_before.push(field@));
            },
            ConstructionMode::Deferred => {
                deferred.push(field);
                assert(deferred.deep_view() =~= deferred_before.push(field@));
            },
        }
        i += 1;
    }
    assert(all.take(i as int) =~= all);
    (eager, deferred)
}

/// Generates the constructor of the record `item_ident` with the given fields.
pub fn function_create(item_ident: &String, fields: &Vec<FieldDescriptor>) -> (function:
    GeneratedFunction)
    ensures
        function@ == create_function(item_ident@, fields.deep_view()),
{
    let (eager, deferred) = partition(fields);
    let mut parameters: Vec<Parameter> = Vec::new();
    let mut initializers: Vec<Assignment> = Vec::new();
    let mut i: usize = 0;
    while i < eager.len()
        invariant
            i <= eager.len(),
            parameters.deep_view() == arguments_of(eager.deep_view().take(i as int)),
            initializers.deep_view() == supplied_all(eager.deep_view().take(i as int)),
        decreases eager.len() - i,
    {
        let field = &eager[i];
        let ghost parameters_before = parameters.deep_view();
        let ghost initializers_before = initializers.deep_view();
        let parameter = to_argument(field);
        let initializer = Assignment {
            field: field.name.clone(),
            value: Expression::Converted {
                conversion: field.conversion,
                parameter: field.name.clone(),
            },
        };
        parameters.push(parameter);
        initializers.push(initializer);
        assert(parameters.deep_view() =~= parameters_before.push(parameter@));
        assert(initializers.deep_view() =~= initializers_before.push(initializer@));
        assert(parameters.deep_view() =~= arguments_of(eager.deep_view().take(i + 1)));
        assert(initializers.deep_view() =~= supplied_all(eager.deep_view().take(i + 1)));
        i += 1;
    }
    assert(eager.deep_view().take(i as int) =~= eager.deep_view());
    let mut j: usize = 0;
    while j < deferred.len()
        invariant
            j <= deferred.len(),
            initializers.deep_view() == supplied_all(eager.deep_view()) + left_empty_all(
                deferred.deep_view().take(j as int),
            ),
        decreases deferred.len() - j,
    {
        let ghost initializers_before = initializers.deep_view();
        let initializer = Assignment { field: deferred[j].name.clone(), value: Expression::Absent };
        initializers.push(initializer);
        assert(initializers.deep_view() =~= initializers_before.push(initializer@));
        assert(initializers.deep_view() =~= supplied_all(eager.deep_view()) + left_empty_all(
            deferred.deep_view().take(j + 1),
        ));
        j += 1;
    }
    assert(deferred.deep_view().take(j as int) =~= deferred.deep_view());
    let generics = collect_generics(&eager);
    GeneratedFunction {
        name: String::from_str("create"),
        generics,
        parameters,
        body: Body::Construct { record: item_ident.clone(), fields: initializers },
    }
}

} // verus!
