//! The host's description of a type definition, and the record model built
//! from it.

use crate::tags::{parse_tags, resolved_tags, ConstructionMode, ConversionKind, FieldTags,
    GenerationError, Vocabulary, VocabularyView};
use vstd::prelude::*;

verus! {

/// The kind of type definition that the host handed over.
#[derive(Clone, Copy, Debug, PartialEq, Eq, Structural)]
pub enum DefinitionShape {
    /// A record whose fields have names.
    NamedRecord,
    /// A record whose fields have positions only.
    TupleRecord,
    /// A record without fields or braces.
    UnitRecord,
    /// An enumeration.
    Enumeration,
    /// A union.
    Union,
}

/// One field as the host describes it.
#[derive(Clone, Debug, PartialEq, Eq)]
pub struct FieldDefinition {
    pub name: String,
    /// The field's type expression, as source text.
    pub declared_type: String,
    /// The identifiers of the annotations attached to the field, in source order.
    pub annotations: Vec<String>,
}

/// The mathematical content of a [`FieldDefinition`].
pub struct FieldDefinitionView {
    pub name: Seq<char>,
    pub declared_type: Seq<char>,
    pub annotations: Seq<Seq<char>>,
}

impl View for FieldDefinition {
    type V = FieldDefinitionView;

    open spec fn view(&self) -> FieldDefinitionView {
        FieldDefinitionView {
            name: self.name@,
            declared_type: self.declared_type@,
            annotations: self.annotations.deep_view(),
        }
    }
}

impl DeepView for FieldDefinition {
    type V = FieldDefinitionView;

    open spec fn deep_view(&self) -> FieldDefinitionView {
        self@
    }
}

/// One type definition as the host describes it.
#[derive(Clone, Debug, PartialEq, Eq)]
pub struct TypeDefinition {
    pub name: String,
    pub shape: DefinitionShape,
    /// Whether the definition declares generic parameters.
    pub generic: bool,
    /// The fields in declaration order.
    pub fields: Vec<FieldDefinition>,
}

/// The mathematical content of a [`TypeDefinition`].
pub struct TypeDefinitionView {
    pub name: Seq<char>,
    pub shape: DefinitionShape,
    pub generic: bool,
    pub fields: Seq<FieldDefinitionView>,
}

impl View for TypeDefinition {
    type V = TypeDefinitionView;

    open spec fn view(&self) -> TypeDefinitionView {
        TypeDefinitionView {
            name: self.name@,
            shape: self.shape,
            generic: self.generic,
            fields: self.fields.deep_view(),
        }
    }
}

/// One field of a record, with its tags resolved.
#[derive(Debug, PartialEq, Eq)]
pub struct FieldDescriptor {
    pub name: String,
    pub declared_type: String,
    pub conversion: ConversionKind,
    pub mode: ConstructionMode,
    /// Whether the declared type is exactly the primitive boolean type.
    pub is_boolean_flag: bool,
}

/// The mathematical content of a [`FieldDescriptor`].
pub struct FieldDescriptorView {
    pub name: Seq<char>,
    pub declared_type: Seq<char>,
    pub conversion: ConversionKind,
    pub mode: ConstructionMode,
    pub is_boolean_flag: bool,
}

impl View for FieldDescriptor {
    type V = FieldDescriptorView;

    open spec fn view(&self) -> FieldDescriptorView {
        FieldDescriptorView {
            name: self.name@,
            declared_type: self.declared_type@,
            conversion: self.conversion,
            mode: self.mode,
            is_boolean_flag: self.is_boolean_flag,
        }
    }
}

impl DeepView for FieldDescriptor {
    type V = FieldDescriptorView;

    open spec fn deep_view(&self) -> FieldDescriptorView {
        self@
    }
}

impl Clone for FieldDescriptor {
    fn clone(&self) -> (copy: FieldDescriptor)
        ensures
            copy@ == self@,
    {
        FieldDescriptor {
            name: self.name.clone(),
            declared_type: self.declared_type.clone(),
            conversion: self.conversion,
            mode: self.mode,
            is_boolean_flag: self.is_boolean_flag,
        }
    }
}

impl FieldDescriptorView {
    /// The flag says what the declared type is.
    pub open spec fn well_formed(self) -> bool {
        self.is_boolean_flag == is_boolean(self.declared_type)
    }
}

/// A record: its name and its fields in declaration order.
#[derive(Clone, Debug, PartialEq, Eq)]
pub struct RecordDescriptor {
    pub name: String,
    pub fields: Vec<FieldDescriptor>,
}

/// The mathematical content of a [`RecordDescriptor`].
pub struct RecordDescriptorView {
    pub name: Seq<char>,
    pub fields: Seq<FieldDescriptorView>,
}

impl View for RecordDescriptor {
    type V = RecordDescriptorView;

    open spec fn view(&self) -> RecordDescriptorView {
        RecordDescriptorView { name: self.name@, fields: self.fields.deep_view() }
    }
}

impl RecordDescriptorView {
    /// Every field's flag says what its declared type is.
    pub open spec fn well_formed(self) -> bool {
        forall|i: int| 0 <= i < self.fields.len() ==> (#[trigger] self.fields[i]).well_formed()
    }
}

/// A refusal, with the field it is about where there is one.
#[derive(Clone, Copy, Debug, PartialEq, Eq, Structural)]
pub struct Diagnostic {
    pub error: GenerationError,
    /// The declaration index of the offending field.
    pub field: Option<usize>,
}

/// Whether a type expression is exactly the primitive boolean type.
pub open spec fn is_boolean(declared_type: Seq<char>) -> bool {
    declared_type == "bool"@
}

/// Whether a definition has the one shape the generator handles: a record
/// with named fields and no generic parameters.
pub open spec fn supported(definition: TypeDefinitionView) -> bool {
    definition.shape == DefinitionShape::NamedRecord && !definition.generic
}

/// Whether a field carries both conversion markers.
pub open spec fn conflicting(field: FieldDefinitionView, vocabulary: VocabularyView) -> bool {
    resolved_tags(field.annotations, vocabulary) is Err
}

/// The descriptor of a field whose tags are `tags`.
pub open spec fn described_field(
    field: FieldDefinitionView,
    tags: FieldTags,
) -> FieldDescriptorView {
    FieldDescriptorView {
        name: field.name,
        declared_type: field.declared_type,
        conversion: tags.conversion,
        mode: tags.mode,
        is_boolean_flag: is_boolean(field.declared_type),
    }
}

/// The record that a definition describes when none of its fields conflicts:
/// the same name, and the same fields in the same order.
pub open spec fn described_record(
    definition: TypeDefinitionView,
    vocabulary: VocabularyView,
) -> RecordDescriptorView {
    RecordDescriptorView {
        name: definition.name,
        fields: Seq::new(
            definition.fields.len(),
            |i: int|
                described_field(
                    definition.fields[i],
                    resolved_tags(definition.fields[i].annotations, vocabulary)->Ok_0,
                ),
        ),
    }
}

impl FieldDescriptor {
    /// Combines a field's name and declared type with its resolved tags.
    pub fn new(field: &FieldDefinition, tags: FieldTags) -> (descriptor: FieldDescriptor)
        ensures
            descriptor@ == described_field(field@, tags),
            descriptor@.well_formed(),
    {
        let boolean = String::from_str("bool");
        FieldDescriptor {
            name: field.name.clone(),
            declared_type: field.declared_type.clone(),
            conversion: tags.conversion,
            mode: tags.mode,
            is_boolean_flag: field.declared_type == boolean,
        }
    }
}

/// Whether a definition is one that the generator takes: of the supported
/// shape, and without a field that carries both conversion markers.
pub open spec fn accepted(definition: TypeDefinitionView, vocabulary: VocabularyView) -> bool {
    &&& supported(definition)
    &&& forall|i: int|
        0 <= i < definition.fields.len() ==> !conflicting(
            #[trigger] definition.fields[i],
            vocabulary,
        )
}

/// Whether `diagnostic` is the refusal that a definition earns. A definition
/// of an unsupported shape is refused as such, whatever its fields hold. One
/// of the supported shape is refused for the first of its fields, in
/// declaration order, that carries both conversion markers.
pub open spec fn refused_with(
    definition: TypeDefinitionView,
    vocabulary: VocabularyView,
    diagnostic: Diagnostic,
) -> bool {
    if supported(definition) {
        &&& diagnostic.error == GenerationError::ConflictingConversionTags
        &&& diagnostic.field matches Some(at)
        &&& at < definition.fields.len()
        &&& conflicting(definition.fields[at as int], vocabulary)
        &&& forall|i: int|
            0 <= i < at ==> !conflicting(#[trigger] definition.fields[i], vocabulary)
    } else {
        diagnostic == (Diagnostic { error: GenerationError::UnsupportedShape, field: None })
    }
}

/// Builds the record model of a type definition.
///
/// An accepted definition gives the record it describes: the same name, and
/// one descriptor per field in declaration order. Any other definition gives
/// the refusal it earns.
pub fn build_record(definition: &TypeDefinition, vocabulary: &Vocabulary) -> (outcome: Result<
    RecordDescriptor,
    Diagnostic,
>)
    ensures
        match outcome {
            Ok(record) => {
                &&& accepted(definition@, vocabulary@)
                &&& record@ == described_record(definition@, vocabulary@)
                &&& record@.well_formed()
            },
            Err(diagnostic) => refused_with(definition@, vocabulary@, diagnostic),
        },
{
    let named = match definition.shape {
        DefinitionShape::NamedRecord => true,
        _ => false,
    };
    if !named || definition.generic {
        return Err(Diagnostic { error: GenerationError::UnsupportedShape, field: None });
    }
    let mut fields: Vec<FieldDescriptor> = Vec::new();
    let mut i: usize = 0;
    while i < definition.fields.len()
        invariant
            supported(definition@),
            i <= definition.fields.len(),
            fields.len() == i,
            forall|j: int|
                0 <= j < i ==> !conflicting(#[trigger] definition@.fields[j], vocabulary@),
            forall|j: int|
                0 <= j < i ==> (#[trigger] fields@[j])@ == described_field(
                    definition@.fields[j],
                    resolved_tags(definition@.fields[j].annotations, vocabulary@)->Ok_0,
                ),
            forall|j: int| 0 <= j < i ==> (#[trigger] fields@[j])@.well_formed(),
        decreases definition.fields.len() - i,
    {
        let field = &definition.fields[i];
        assert(field@ == definition@.fields[i as int]);
        match parse_tags(&field.annotations, vocabulary) {
            Ok(tags) => {
                let descriptor = FieldDescriptor::new(field, tags);
                fields.push(descriptor);
            },
            Err(error) => {
                return Err(Diagnostic { error, field: Some(i) });
            },
        }
        i += 1;
    }
    let record = RecordDescriptor { name: definition.name.clone(), fields };
    assert(record@.fields =~= described_record(definition@, vocabulary@).fields);
    Ok(record)
}

} // verus!
