//! A generator of construction boilerplate for record types: from a
//! description of a record's fields it derives one eager constructor and a
//! fluent setter per field, and renders them as one implementation block.
//!
//! [`tags`] resolves a field's annotations, [`model`] builds the record,
//! [`argument`], [`generics`], [`constructor`] and [`setters`] generate the
//! functions in the structured form of [`plan`], and [`render`] turns them
//! into text. [`meaning`] says what a generated function does when it is
//! called, and [`laws`] proves what holds of the functions of every record.

pub mod argument;
pub mod constructor;
pub mod generics;
pub mod laws;
pub mod meaning;
pub mod model;
pub mod plan;
pub mod render;
pub mod setters;
pub mod tags;

use crate::constructor::{create_function, function_create};
use crate::model::{accepted, build_record, conflicting, described_record, refused_with,
    supported, Diagnostic, RecordDescriptor, RecordDescriptorView, TypeDefinition,
    TypeDefinitionView};
use crate::plan::{GeneratedFunction, ImplementationBlock, ImplementationBlockView};
use crate::render::{implementation_text, render};
use crate::setters::{fluent_functions, with_functions};
use crate::tags::{Vocabulary, VocabularyView};
use vstd::prelude::*;

verus! {

/// The functions generated for a record: its constructor, then its fluent
/// functions, in one block that bears the record's name.
pub open spec fn implementation_of(record: RecordDescriptorView) -> ImplementationBlockView {
    ImplementationBlockView {
        record: record.name,
        functions: seq![create_function(record.name, record.fields)] + fluent_functions(
            record.fields,
        ),
    }
}

/// The text generated for an accepted definition.
pub open spec fn expansion(definition: TypeDefinitionView, vocabulary: VocabularyView) -> Seq<
    char,
> {
    implementation_text(implementation_of(described_record(definition, vocabulary)))
}

/// Whether `outcome` is what a generation request for the definition ends
/// in: the text generated for it where it is accepted, and else the refusal
/// it earns, with no text at all.
pub open spec fn expands_to(
    definition: TypeDefinitionView,
    vocabulary: VocabularyView,
    outcome: Result<Seq<char>, Diagnostic>,
) -> bool {
    match outcome {
        Ok(text) => accepted(definition, vocabulary) && text == expansion(definition, vocabulary),
        Err(diagnostic) => refused_with(definition, vocabulary, diagnostic),
    }
}

/// Two generation requests for the same definition end in the same outcome:
/// the same text, character for character, or the same refusal.
pub proof fn lemma_generation_is_deterministic(
    definition: TypeDefinitionView,
    vocabulary: VocabularyView,
    first: Result<Seq<char>, Diagnostic>,
    second: Result<Seq<char>, Diagnostic>,
)
    requires
        expands_to(definition, vocabulary, first),
        expands_to(definition, vocabulary, second),
    ensures
        first == second,
{
    match (first, second) {
        (Err(a), Err(b)) => {
            if supported(definition) {
                let at = a.field->Some_0;
                let bt = b.field->Some_0;
                assert(at == bt) by {
                    if at < bt {
                        assert(!conflicting(definition.fields[at as int], vocabulary));
                    }
                    if bt < at {
                        assert(!conflicting(definition.fields[bt as int], vocabulary));
                    }
                }
            }
        },
        (Ok(_), Err(b)) => {
            assert(!conflicting(definition.fields[b.field->Some_0 as int], vocabulary));
        },
        (Err(a), Ok(_)) => {
            assert(!conflicting(definition.fields[a.field->Some_0 as int], vocabulary));
        },
        (Ok(_), Ok(_)) => {},
    }
}

/// Merges the constructor and the fluent functions of a record into one
/// implementation block.
pub fn assemble(record: &RecordDescriptor) -> (block: ImplementationBlock)
    ensures
        block@ == implementation_of(record@),
{
    let mut functions: Vec<GeneratedFunction> = Vec::new();
    functions.push(function_create(&record.name, &record.fields));
    let mut fluent = with_functions(&record.fields);
    let ghost fluent_view = fluent.deep_view();
    functions.append(&mut fluent);
    let block = ImplementationBlock { record: record.name.clone(), functions };
    assert(block@.functions =~= seq![create_function(record@.name, record@.fields)] + fluent_view);
    block
}

/// Generates the implementation block of a type definition, as source text.
///
/// The definition is validated in full before anything is generated: the
/// outcome is either the whole text or a refusal.
pub fn derive_creator(item: &TypeDefinition, vocabulary: &Vocabulary) -> (outcome: Result<
    String,
    Diagnostic,
>)
    ensures
        expands_to(
            item@,
            vocabulary@,
            match outcome {
                Ok(text) => Ok(text@),
                Err(diagnostic) => Err(diagnostic),
            },
        ),
{
    match build_record(item, vocabulary) {
        Ok(record) => Ok(render(&assemble(&record))),
        Err(diagnostic) => Err(diagnostic),
    }
}

} // verus!
