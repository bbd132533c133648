//! The parameter with which a field appears in a generated signature.

use crate::model::{FieldDescriptor, FieldDescriptorView};
use crate::plan::{generic_of, Parameter, ParameterType, ParameterTypeView, ParameterView};
use vstd::prelude::*;

verus! {

/// The parameter that stands for a field: it has the field's name, and
/// either the field's declared type or the placeholder of its conversion.
pub open spec fn argument_of(field: FieldDescriptorView) -> ParameterView {
    ParameterView {
        name: field.name,
        ty: match generic_of(field.conversion) {
            Some(generic) => ParameterTypeView::Generic(generic),
            None => ParameterTypeView::Declared(field.declared_type),
        },
    }
}

/// Resolves a field to the parameter used wherever a generated function
/// accepts that field as input.
pub fn to_argument(field: &FieldDescriptor) -> (parameter: Parameter)
    ensures
        parameter@ == argument_of(field@),
{
    let ty = match field.conversion.generic() {
        Some(generic) => ParameterType::Generic(generic),
        None => ParameterType::Declared(field.declared_type.clone()),
    };
    Parameter { name: field.name.clone(), ty }
}

} // verus!
