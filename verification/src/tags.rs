//! Field annotations and the closed set of tags they resolve to.

use vstd::prelude::*;

verus! {

/// How a value handed to a generated function becomes the field's stored value.
#[derive(Clone, Copy, Debug, PartialEq, Eq, Structural)]
pub enum ConversionKind {
    /// The value is stored as given; the parameter has the field's declared type.
    Verbatim,
    /// Any text-like value is accepted and copied into an owned string.
    StringLike,
    /// Any path-like value is accepted and turned into an owned string, lossily.
    PathLike,
}

/// Whether a field is supplied to the constructor or left empty by it.
#[derive(Clone, Copy, Debug, PartialEq, Eq, Structural)]
pub enum ConstructionMode {
    /// The constructor takes the field as an argument.
    Eager,
    /// The constructor sets the field to the empty sentinel; a setter fills it later.
    Deferred,
}

/// The tags of one field: exactly one conversion and exactly one mode.
#[derive(Clone, Copy, Debug, PartialEq, Eq, Structural)]
pub struct FieldTags {
    pub conversion: ConversionKind,
    pub mode: ConstructionMode,
}

/// Why a generation request is refused.
#[derive(Clone, Copy, Debug, PartialEq, Eq, Structural)]
pub enum GenerationError {
    /// The type definition is not a plain record with named fields.
    UnsupportedShape,
    /// A field carries both the string marker and the path-string marker.
    ConflictingConversionTags,
}

impl GenerationError {
    /// The words in which the refusal is reported.
    pub fn message(self) -> (text: String)
        ensures
            text@ == match self {
                GenerationError::UnsupportedShape => "You can derive only on struct!"@,
                GenerationError::ConflictingConversionTags =>
                    "a field cannot be marked both as a string and as a path string"@,
            },
    {
        match self {
            GenerationError::UnsupportedShape => String::from_str("You can derive only on struct!"),
            GenerationError::ConflictingConversionTags => String::from_str(
                "a field cannot be marked both as a string and as a path string",
            ),
        }
    }
}

/// The annotation identifiers that the generator recognises.
#[derive(Clone, Debug, PartialEq, Eq)]
pub struct Vocabulary {
    /// Marks a field as deferred.
    pub deferred: String,
    /// Marks a field as string-like.
    pub string: String,
    /// Marks a field as path-like.
    pub path_string: String,
}

/// The mathematical content of a [`Vocabulary`].
pub struct VocabularyView {
    pub deferred: Seq<char>,
    pub string: Seq<char>,
    pub path_string: Seq<char>,
}

impl View for Vocabulary {
    type V = VocabularyView;

    open spec fn view(&self) -> VocabularyView {
        VocabularyView {
            deferred: self.deferred@,
            string: self.string@,
            path_string: self.path_string@,
        }
    }
}

impl Vocabulary {
    /// A vocabulary with the given three markers.
    pub fn new(deferred: &str, string: &str, path_string: &str) -> (v: Vocabulary)
        ensures
            v@.deferred == deferred@,
            v@.string == string@,
            v@.path_string == path_string@,
    {
        Vocabulary {
            deferred: String::from_str(deferred),
            string: String::from_str(string),
            path_string: String::from_str(path_string),
        }
    }
}

impl Default for Vocabulary {
    /// The markers `option`, `string` and `path_str`.
    fn default() -> (v: Vocabulary)
        ensures
            v@.deferred == "option"@,
            v@.string == "string"@,
            v@.path_string == "path_str"@,
    {
        Vocabulary::new("option", "string", "path_str")
    }
}

/// The tags that an annotation list resolves to under a vocabulary.
///
/// Identifiers outside the vocabulary play no part. Both conversion markers
/// on one field are a conflict; neither one is preferred.
pub open spec fn resolved_tags(annotations: Seq<Seq<char>>, vocabulary: VocabularyView) -> Result<
    FieldTags,
    GenerationError,
> {
    let string = annotations.contains(vocabulary.string);
    let path = annotations.contains(vocabulary.path_string);
    if string && path {
        Err(GenerationError::ConflictingConversionTags)
    } else {
        Ok(
            FieldTags {
                conversion: if string {
                    ConversionKind::StringLike
                } else if path {
                    ConversionKind::PathLike
                } else {
                    ConversionKind::Verbatim
                },
                mode: if annotations.contains(vocabulary.deferred) {
                    ConstructionMode::Deferred
                } else {
                    ConstructionMode::Eager
                },
            },
        )
    }
}

/// Whether `marker` occurs among the annotations.
pub fn has_marker(annotations: &Vec<String>, marker: &String) -> (found: bool)
    ensures
        found == annotations.deep_view().contains(marker@),
{
    let mut i: usize = 0;
    while i < annotations.len()
        invariant
            i <= annotations.len(),
            forall|j: int| 0 <= j < i ==> annotations.deep_view()[j] != marker@,
        decreases annotations.len() - i,
    {
        if annotations[i] == *marker {
            assert(annotations.deep_view()[i as int] == marker@);
            return true;
        }
        i += 1;
    }
    false
}

/// Resolves a field's annotation list into its tags.
pub fn parse_tags(annotations: &Vec<String>, vocabulary: &Vocabulary) -> (tags: Result<
    FieldTags,
    GenerationError,
>)
    ensures
        tags == resolved_tags(annotations.deep_view(), vocabulary@),
{
    let string = has_marker(annotations, &vocabulary.string);
    let path = has_marker(annotations, &vocabulary.path_string);
    if string && path {
        return Err(GenerationError::ConflictingConversionTags);
    }
    let conversion = if string {
        ConversionKind::StringLike
    } else if path {
        ConversionKind::PathLike
    } else {
        ConversionKind::Verbatim
    };
    let mode = if has_marker(annotations, &vocabulary.deferred) {
        ConstructionMode::Deferred
    } else {
        ConstructionMode::Eager
    };
    Ok(FieldTags { conversion, mode })
}

} // verus!
