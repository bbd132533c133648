//! The source text of generated functions.

use crate::plan::{AssignmentView, Body, BodyView, Expression, ExpressionView, GeneratedFunction,
    GeneratedFunctionView, GenericParameter, ImplementationBlock, ImplementationBlockView,
    Parameter, ParameterType, ParameterTypeView, ParameterView};
use crate::tags::ConversionKind;
use vstd::prelude::*;

verus! {

/// The parts in order, with the separator between neighbours.
pub open spec fn joined(parts: Seq<Seq<char>>, separator: Seq<char>) -> Seq<char>
    decreases parts.len(),
{
    if parts.len() == 0 {
        Seq::empty()
    } else if parts.len() == 1 {
        parts[0]
    } else {
        joined(parts.drop_last(), separator) + separator + parts.last()
    }
}

/// The parts in order, one after the other.
pub open spec fn concatenated(parts: Seq<Seq<char>>) -> Seq<char>
    decreases parts.len(),
{
    if parts.len() == 0 {
        Seq::empty()
    } else {
        concatenated(parts.drop_last()) + parts.last()
    }
}

/// The name under which a function refers to a generic placeholder.
pub open spec fn placeholder_text(generic: GenericParameter) -> Seq<char> {
    match generic {
        GenericParameter::Text => "S"@,
        GenericParameter::Path => "P"@,
    }
}

/// A generic placeholder with its bound, as it stands in a generic clause.
pub open spec fn generic_text(generic: GenericParameter) -> Seq<char> {
    match generic {
        GenericParameter::Text => "S: AsRef<str>"@,
        GenericParameter::Path => "P: AsRef<std::path::Path>"@,
    }
}

/// The text of each placeholder, in order.
pub open spec fn generic_texts(generics: Seq<GenericParameter>) -> Seq<Seq<char>> {
    Seq::new(generics.len(), |i: int| generic_text(generics[i]))
}

/// The generic clause of a function: nothing at all without placeholders,
/// else the placeholders between angle brackets.
pub open spec fn generic_clause_text(generics: Seq<GenericParameter>) -> Seq<char> {
    if generics.len() == 0 {
        Seq::empty()
    } else {
        "<"@ + joined(generic_texts(generics), ", "@) + ">"@
    }
}

/// A parameter: its name, a colon and its type.
pub open spec fn parameter_text(parameter: ParameterView) -> Seq<char> {
    parameter.name + ": "@ + match parameter.ty {
        ParameterTypeView::Declared(text) => text,
        ParameterTypeView::Generic(generic) => placeholder_text(generic),
    }
}

/// The text of each parameter, in order.
pub open spec fn parameter_texts(parameters: Seq<ParameterView>) -> Seq<Seq<char>> {
    Seq::new(parameters.len(), |i: int| parameter_text(parameters[i]))
}

/// The receiver that a body asks for, if it asks for one.
pub open spec fn receiver_texts(body: BodyView) -> Seq<Seq<char>> {
    match body {
        BodyView::Construct { .. } => Seq::empty(),
        BodyView::Update(_) => seq!["mut self"@],
        BodyView::Delegate { .. } => seq!["self"@],
    }
}

/// A converted parameter. A verbatim one is its own name; a string-like one
/// is copied into an owned string; a path-like one is converted lossily.
pub open spec fn conversion_text(conversion: ConversionKind, parameter: Seq<char>) -> Seq<char> {
    match conversion {
        ConversionKind::Verbatim => parameter,
        ConversionKind::StringLike => "String::from("@ + parameter + ".as_ref())"@,
        ConversionKind::PathLike => parameter + ".as_ref().to_string_lossy().to_string()"@,
    }
}

/// An expression.
pub open spec fn expression_text(expression: ExpressionView) -> Seq<char> {
    match expression {
        ExpressionView::Absent => "None"@,
        ExpressionView::Flag(flag) => if flag {
            "true"@
        } else {
            "false"@
        },
        ExpressionView::Converted { conversion, parameter } => conversion_text(
            conversion,
            parameter,
        ),
        ExpressionView::Present { conversion, parameter } => "Some("@ + conversion_text(
            conversion,
            parameter,
        ) + ")"@,
    }
}

/// One line of a record literal.
pub open spec fn initializer_text(assignment: AssignmentView) -> Seq<char> {
    "            "@ + assignment.field + ": "@ + expression_text(assignment.value) + ",\n"@
}

/// The line of each initializer, in order.
pub open spec fn initializer_texts(assignments: Seq<AssignmentView>) -> Seq<Seq<char>> {
    Seq::new(assignments.len(), |i: int| initializer_text(assignments[i]))
}

/// The lines between the braces of a function.
pub open spec fn body_text(body: BodyView) -> Seq<char> {
    match body {
        BodyView::Construct { record, fields } => "        "@ + record + " {\n"@ + concatenated(
            initializer_texts(fields),
        ) + "        }\n"@,
        BodyView::Update(assignment) => "        self."@ + assignment.field + " = "@
            + expression_text(assignment.value) + ";\n        self\n"@,
        BodyView::Delegate { function, argument } => "        self."@ + function + "("@
            + expression_text(argument) + ")\n"@,
    }
}

/// A whole function: a public function that returns `Self`.
pub open spec fn function_text(function: GeneratedFunctionView) -> Seq<char> {
    "    pub fn "@ + function.name + generic_clause_text(function.generics) + "("@ + joined(
        receiver_texts(function.body) + parameter_texts(function.parameters),
        ", "@,
    ) + ") -> Self {\n"@ + body_text(function.body) + "    }\n"@
}

/// The text of each function, in order.
pub open spec fn function_texts(functions: Seq<GeneratedFunctionView>) -> Seq<Seq<char>> {
    Seq::new(functions.len(), |i: int| function_text(functions[i]))
}

/// A whole implementation block: the functions, in order, between the
/// braces of an `impl` of the record.
pub open spec fn implementation_text(block: ImplementationBlockView) -> Seq<char> {
    "impl "@ + block.record + " {\n"@ + concatenated(function_texts(block.functions)) + "}\n"@
}

/// Joins the parts with the separator between neighbours.
pub fn join(parts: &Vec<String>, separator: &str) -> (text: String)
    ensures
        text@ == joined(parts.deep_view(), separator@),
{
    let ghost all = parts.deep_view();
    let mut text = String::new();
    let mut i: usize = 0;
    while i < parts.len()
        invariant
            all == parts.deep_view(),
            i <= parts.len(),
            text@ == joined(all.take(i as int), separator@),
        decreases parts.len() - i,
    {
        assert(all.take(i + 1).drop_last() =~= all.take(i as int));
        assert(all.take(i + 1).last() == parts[i as int]@);
        if i > 0 {
            text.append(separator);
        }
        text.append(parts[i].as_str());
        assert(text@ =~= joined(all.take(i + 1), separator@));
        i += 1;
    }
    assert(all.take(i as int) =~= all);
    text
}

/// Puts the parts one after the other.
pub fn concatenate(parts: &Vec<String>) -> (text: String)
    ensures
        text@ == concatenated(parts.deep_view()),
{
    let ghost all = parts.deep_view();
    let mut text = String::new();
    let mut i: usize = 0;
    while i < parts.len()
        invariant
            all == parts.deep_view(),
            i <= parts.len(),
            text@ == concatenated(all.take(i as int)),
        decreases parts.len() - i,
    {
        assert(all.take(i + 1).drop_last() =~= all.take(i as int));
        assert(all.take(i + 1).last() == parts[i as int]@);
        text.append(parts[i].as_str());
        i += 1;
    }
    assert(all.take(i as int) =~= all);
    text
}

/// Renders a generic placeholder with its bound.
pub fn render_generic(generic: GenericParameter) -> (text: String)
    ensures
        text@ == generic_text(generic),
{
    match generic {
        GenericParameter::Text => String::from_str("S: AsRef<str>"),
        GenericParameter::Path => String::from_str("P: AsRef<std::path::Path>"),
    }
}

/// Renders the generic clause of a function.
pub fn render_generic_clause(generics: &Vec<GenericParameter>) -> (text: String)
    ensures
        text@ == generic_clause_text(generics@),
{
    if generics.len() == 0 {
        return String::new();
    }
    let mut texts: Vec<String> = Vec::new();
    let mut i: usize = 0;
    while i < generics.len()
        invariant
            i <= generics.len(),
            texts.deep_view() == generic_texts(generics@.take(i as int)),
        decreases generics.len() - i,
    {
        let ghost before = texts.deep_view();
        let text = render_generic(generics[i]);
        texts.push(text);
        assert(texts.deep_view() =~= before.push(text@));
        assert(texts.deep_view() =~= generic_texts(generics@.take(i + 1)));
        i += 1;
    }
    assert(generics@.take(i as int) =~= generics@);
    String::from_str("<").concat(join(&texts, ", ").as_str()).concat(">")
}

/// Renders a parameter.
pub fn render_parameter(parameter: &Parameter) -> (text: String)
    ensures
        text@ == parameter_text(parameter@),
{
    let text = parameter.name.clone().concat(": ");
    match &parameter.ty {
        ParameterType::Declared(declared) => text.concat(declared.as_str()),
        ParameterType::Generic(generic) => match generic {
            GenericParameter::Text => text.concat("S"),
            GenericParameter::Path => text.concat("P"),
        },
    }
}

/// Renders a converted parameter.
pub fn render_conversion(conversion: ConversionKind, parameter: &String) -> (text: String)
    ensures
        text@ == conversion_text(conversion, parameter@),
{
    match conversion {
        ConversionKind::Verbatim => parameter.clone(),
        ConversionKind::StringLike => String::from_str("String::from(").concat(
            parameter.as_str(),
        ).concat(".as_ref())"),
        ConversionKind::PathLike => parameter.clone().concat(
            ".as_ref().to_string_lossy().to_string()",
        ),
    }
}

/// Renders an expression.
pub fn render_expression(expression: &Expression) -> (text: String)
    ensures
        text@ == expression_text(expression@),
{
    match expression {
        Expression::Absent => String::from_str("None"),
        Expression::Flag(flag) => if *flag {
            String::from_str("true")
        } else {
            String::from_str("false")
        },
        Expression::Converted { conversion, parameter } => render_conversion(
            *conversion,
            parameter,
        ),
        Expression::Present { conversion, parameter } => String::from_str("Some(").concat(
            render_conversion(*conversion, parameter).as_str(),
        ).concat(")"),
    }
}

/// Renders the lines between the braces of a function.
pub fn render_body(body: &Body) -> (text: String)
    ensures
        text@ == body_text(body@),
{
    match body {
        Body::Construct { record, fields } => {
            let mut lines: Vec<String> = Vec::new();
            let mut i: usize = 0;
            while i < fields.len()
                invariant
                    i <= fields.len(),
                    lines.deep_view() == initializer_texts(fields.deep_view().take(i as int)),
                decreases fields.len() - i,
            {
                let ghost before = lines.deep_view();
                let line = String::from_str("            ").concat(fields[i].field.as_str()).concat(
                    ": ",
                ).concat(render_expression(&fields[i].value).as_str()).concat(",\n");
                lines.push(line);
                assert(lines.deep_view() =~= before.push(line@));
                assert(lines.deep_view() =~= initializer_texts(fields.deep_view().take(i + 1)));
                i += 1;
            }
            assert(fields.deep_view().take(i as int) =~= fields.deep_view());
            String::from_str("        ").concat(record.as_str()).concat(" {\n").concat(
                concatenate(&lines).as_str(),
            ).concat("        }\n")
        },
        Body::Update(assignment) => String::from_str("        self.").concat(
            assignment.field.as_str(),
        ).concat(" = ").concat(render_expression(&assignment.value).as_str()).concat(
            ";\n        self\n",
        ),
        Body::Delegate { function, argument } => String::from_str("        self.").concat(
            function.as_str(),
        ).concat("(").concat(render_expression(argument).as_str()).concat(")\n"),
    }
}

/// Renders a whole function.
pub fn render_function(function: &GeneratedFunction) -> (text: String)
    ensures
        text@ == function_text(function@),
{
    let mut inputs: Vec<String> = Vec::new();
    match &function.body {
        Body::Construct { .. } => {},
        Body::Update(_) => {
            inputs.push(String::from_str("mut self"));
        },
        Body::Delegate { .. } => {
            inputs.push(String::from_str("self"));
        },
    }
    assert(inputs.deep_view() =~= receiver_texts(function@.body));
    let mut i: usize = 0;
    while i < function.parameters.len()
        invariant
            i <= function.parameters.len(),
            inputs.deep_view() == receiver_texts(function@.body) + parameter_texts(
                function@.parameters.take(i as int),
            ),
        decreases function.parameters.len() - i,
    {
        let ghost before = inputs.deep_view();
        let text = render_parameter(&function.parameters[i]);
        inputs.push(text);
        assert(inputs.deep_view() =~= before.push(text@));
        assert(inputs.deep_view() =~= receiver_texts(function@.body) + parameter_texts(
            function@.parameters.take(i + 1),
        ));
        i += 1;
    }
    assert(function@.parameters.take(i as int) =~= function@.parameters);
    String::from_str("    pub fn ").concat(function.name.as_str()).concat(
        render_generic_clause(&function.generics).as_str(),
    ).concat("(").concat(join(&inputs, ", ").as_str()).concat(") -> Self {\n").concat(
        render_body(&function.body).as_str(),
    ).concat("    }\n")
}

/// Renders a whole implementation block.
pub fn render(block: &ImplementationBlock) -> (text: String)
    ensures
        text@ == implementation_text(block@),
{
    let mut texts: Vec<String> = Vec::new();
    let mut i: usize = 0;
    while i < block.functions.len()
        invariant
            i <= block.functions.len(),
            texts.deep_view() == function_texts(block@.functions.take(i as int)),
        decreases block.functions.len() - i,
    {
        let ghost before = texts.deep_view();
        let text = render_function(&block.functions[i]);
        texts.push(text);
        assert(texts.deep_view() =~= before.push(text@));
        assert(texts.deep_view() =~= function_texts(block@.functions.take(i + 1)));
        i += 1;
    }
    assert(block@.functions.take(i as int) =~= block@.functions);
    String::from_str("impl ").concat(block.record.as_str()).concat(" {\n").concat(
        concatenate(&texts).as_str(),
    ).concat("}\n")
}

} // verus!
