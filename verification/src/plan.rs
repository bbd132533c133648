//! The structured form of generated code: functions with their generics,
//! parameters and bodies, before any text is produced.

use crate::tags::ConversionKind;
use vstd::prelude::*;

verus! {

/// A generic placeholder together with its bound.
#[derive(Clone, Copy, Debug, PartialEq, Eq, Structural)]
pub enum GenericParameter {
    /// Any type that can be viewed as text.
    Text,
    /// Any type that can be viewed as a filesystem path.
    Path,
}

/// The generic placeholder that a conversion asks for, if any.
pub open spec fn generic_of(conversion: ConversionKind) -> Option<GenericParameter> {
    match conversion {
        ConversionKind::Verbatim => None,
        ConversionKind::StringLike => Some(GenericParameter::Text),
        ConversionKind::PathLike => Some(GenericParameter::Path),
    }
}

impl ConversionKind {
    /// The generic placeholder that this conversion asks for, if any.
    pub fn generic(self) -> (generic: Option<GenericParameter>)
        ensures
            generic == generic_of(self),
    {
        match self {
            ConversionKind::Verbatim => None,
            ConversionKind::StringLike => Some(GenericParameter::Text),
            ConversionKind::PathLike => Some(GenericParameter::Path),
        }
    }
}

/// The type of a parameter.
#[derive(Clone, Debug, PartialEq, Eq)]
pub enum ParameterType {
    /// A type expression, used as written.
    Declared(String),
    /// A generic placeholder of the function.
    Generic(GenericParameter),
}

/// The mathematical content of a [`ParameterType`].
pub enum ParameterTypeView {
    Declared(Seq<char>),
    Generic(GenericParameter),
}

impl View for ParameterType {
    type V = ParameterTypeView;

    open spec fn view(&self) -> ParameterTypeView {
        match self {
            ParameterType::Declared(text) => ParameterTypeView::Declared(text@),
            ParameterType::Generic(generic) => ParameterTypeView::Generic(*generic),
        }
    }
}

/// A named parameter of a generated function.
#[derive(Clone, Debug, PartialEq, Eq)]
pub struct Parameter {
    pub name: String,
    pub ty: ParameterType,
}

/// The mathematical content of a [`Parameter`].
pub struct ParameterView {
    pub name: Seq<char>,
    pub ty: ParameterTypeView,
}

impl View for Parameter {
    type V = ParameterView;

    open spec fn view(&self) -> ParameterView {
        ParameterView { name: self.name@, ty: self.ty@ }
    }
}

impl DeepView for Parameter {
    type V = ParameterView;

    open spec fn deep_view(&self) -> ParameterView {
        self@
    }
}

/// The value that a generated function stores in a field.
#[derive(Clone, Debug, PartialEq, Eq)]
pub enum Expression {
    /// The empty sentinel of an optional field.
    Absent,
    /// A boolean literal.
    Flag(bool),
    /// A parameter of the function, put through a conversion.
    Converted { conversion: ConversionKind, parameter: String },
    /// A parameter of the function, put through a conversion and stored as
    /// the content of an optional field.
    Present { conversion: ConversionKind, parameter: String },
}

/// The mathematical content of an [`Expression`].
pub enum ExpressionView {
    Absent,
    Flag(bool),
    Converted { conversion: ConversionKind, parameter: Seq<char> },
    Present { conversion: ConversionKind, parameter: Seq<char> },
}

impl View for Expression {
    type V = ExpressionView;

    open spec fn view(&self) -> ExpressionView {
        match self {
            Expression::Absent => ExpressionView::Absent,
            Expression::Flag(flag) => ExpressionView::Flag(*flag),
            Expression::Converted { conversion, parameter } => ExpressionView::Converted {
                conversion: *conversion,
                parameter: parameter@,
            },
            Expression::Present { conversion, parameter } => ExpressionView::Present {
                conversion: *conversion,
                parameter: parameter@,
            },
        }
    }
}

/// A field together with the value stored in it.
#[derive(Clone, Debug, PartialEq, Eq)]
pub struct Assignment {
    pub field: String,
    pub value: Expression,
}

/// The mathematical content of an [`Assignment`].
pub struct AssignmentView {
    pub field: Seq<char>,
    pub value: ExpressionView,
}

impl View for Assignment {
    type V = AssignmentView;

    open spec fn view(&self) -> AssignmentView {
        AssignmentView { field: self.field@, value: self.value@ }
    }
}

impl DeepView for Assignment {
    type V = AssignmentView;

    open spec fn deep_view(&self) -> AssignmentView {
        self@
    }
}

/// What a generated function does.
#[derive(Clone, Debug, PartialEq, Eq)]
pub enum Body {
    /// Builds a fresh record, field by field; the function takes no receiver.
    Construct { record: String, fields: Vec<Assignment> },
    /// Takes the receiver by value, stores into one field and returns the receiver.
    Update(Assignment),
    /// Takes the receiver by value and returns what another function of the
    /// record gives for it and one argument.
    Delegate { function: String, argument: Expression },
}

/// The mathematical content of a [`Body`].
pub enum BodyView {
    Construct { record: Seq<char>, fields: Seq<AssignmentView> },
    Update(AssignmentView),
    Delegate { function: Seq<char>, argument: ExpressionView },
}

impl View for Body {
    type V = BodyView;

    open spec fn view(&self) -> BodyView {
        match self {
            Body::Construct { record, fields } => BodyView::Construct {
                record: record@,
                fields: fields.deep_view(),
            },
            Body::Update(assignment) => BodyView::Update(assignment@),
            Body::Delegate { function, argument } => BodyView::Delegate {
                function: function@,
                argument: argument@,
            },
        }
    }
}

/// One function to emit.
#[derive(Clone, Debug, PartialEq, Eq)]
pub struct GeneratedFunction {
    pub name: String,
    /// The generic parameter clause; no clause at all when this is empty.
    pub generics: Vec<GenericParameter>,
    /// The parameters after the receiver, in order.
    pub parameters: Vec<Parameter>,
    pub body: Body,
}

/// The mathematical content of a [`GeneratedFunction`].
pub struct GeneratedFunctionView {
    pub name: Seq<char>,
    pub generics: Seq<GenericParameter>,
    pub parameters: Seq<ParameterView>,
    pub body: BodyView,
}

impl View for GeneratedFunction {
    type V = GeneratedFunctionView;

    open spec fn view(&self) -> GeneratedFunctionView {
        GeneratedFunctionView {
            name: self.name@,
            generics: self.generics@,
            parameters: self.parameters.deep_view(),
            body: self.body@,
        }
    }
}

impl DeepView for GeneratedFunction {
    type V = GeneratedFunctionView;

    open spec fn deep_view(&self) -> GeneratedFunctionView {
        self@
    }
}

/// The functions generated for one record, in the order in which they are emitted.
#[derive(Clone, Debug, PartialEq, Eq)]
pub struct ImplementationBlock {
    /// The name of the record that the functions belong to.
    pub record: String,
    pub functions: Vec<GeneratedFunction>,
}

/// The mathematical content of an [`ImplementationBlock`].
pub struct ImplementationBlockView {
    pub record: Seq<char>,
    pub functions: Seq<GeneratedFunctionView>,
}

impl View for ImplementationBlock {
    type V = ImplementationBlockView;

    open spec fn view(&self) -> ImplementationBlockView {
        ImplementationBlockView { record: self.record@, functions: self.functions.deep_view() }
    }
}

} // verus!
