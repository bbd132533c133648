//! The generic parameter clause that a set of fields asks of one function.

use crate::model::{FieldDescriptor, FieldDescriptorView};
use crate::plan::{generic_of, GenericParameter};
use itertools::Itertools;
use vstd::prelude::*;
use vstd::seq_lib::lemma_seq_contains_after_push;

verus! {

/// What is left of a sequence when every item that occurred before it is
/// dropped: the distinct items, in the order in which they are first seen.
pub open spec fn first_occurrences<A>(items: Seq<A>) -> Seq<A>
    decreases items.len(),
{
    if items.len() == 0 {
        items
    } else {
        let kept = first_occurrences(items.drop_last());
        if items.drop_last().contains(items.last()) {
            kept
        } else {
            kept.push(items.last())
        }
    }
}

/// The generic placeholders that the fields ask for when they are arguments
/// of one function: one per kind of conversion, in first-seen order. Fields
/// stored verbatim ask for none.
pub open spec fn required_generics(fields: Seq<FieldDescriptorView>) -> Seq<GenericParameter>
    decreases fields.len(),
{
    if fields.len() == 0 {
        Seq::empty()
    } else {
        let earlier = required_generics(fields.drop_last());
        match generic_of(fields.last().conversion) {
            Some(generic) => if earlier.contains(generic) {
                earlier
            } else {
                earlier.push(generic)
            },
            None => earlier,
        }
    }
}

/// Whether some field asks for the placeholder.
pub open spec fn requests(fields: Seq<FieldDescriptorView>, generic: GenericParameter) -> bool {
    exists|i: int|
        0 <= i < fields.len() && generic_of((#[trigger] fields[i]).conversion) == Some(generic)
}

/// The number that stands for a placeholder where placeholders are compared
/// by an outside crate.
pub open spec fn code_of(generic: GenericParameter) -> u8 {
    match generic {
        GenericParameter::Text => 0,
        GenericParameter::Path => 1,
    }
}

/// The placeholder that a number stands for.
pub open spec fn generic_with_code(code: u8) -> GenericParameter {
    if code == 0 {
        GenericParameter::Text
    } else {
        GenericParameter::Path
    }
}

/// The codes of the placeholders that the fields ask for, one per asking
/// field, in field order.
pub open spec fn requested_codes(fields: Seq<FieldDescriptorView>) -> Seq<u8>
    decreases fields.len(),
{
    if fields.len() == 0 {
        Seq::empty()
    } else {
        let earlier = requested_codes(fields.drop_last());
        match generic_of(fields.last().conversion) {
            Some(generic) => earlier.push(code_of(generic)),
            None => earlier,
        }
    }
}

/// The placeholders that a sequence of codes stands for.
pub open spec fn decoded(codes: Seq<u8>) -> Seq<GenericParameter> {
    Seq::new(codes.len(), |i: int| generic_with_code(codes[i]))
}

impl GenericParameter {
    /// The number that stands for this placeholder.
    pub fn code(self) -> (code: u8)
        ensures
            code == code_of(self),
    {
        match self {
            GenericParameter::Text => 0,
            GenericParameter::Path => 1,
        }
    }

    /// The placeholder that `code` stands for.
    pub fn with_code(code: u8) -> (generic: GenericParameter)
        ensures
            generic == generic_with_code(code),
    {
        if code == 0 {
            GenericParameter::Text
        } else {
            GenericParameter::Path
        }
    }
}

/// `Itertools::unique` over the codes, collected in the order in which the
/// adaptor yields them. The adaptor remembers every item it has yielded and
/// passes an item on only the first time it meets it, so what comes out is
/// the input without its repeats, order kept.
#[verifier::external_body]
fn unique_codes(codes: Vec<u8>) -> (kept: Vec<u8>)
    ensures
        kept@ == first_occurrences(codes@),
{
    codes.into_iter().unique().collect()
}

/// A placeholder's code is among the requested codes exactly when the
/// placeholder is among the required generics.
proof fn lemma_codes_match_generics(fields: Seq<FieldDescriptorView>, generic: GenericParameter)
    ensures
        requested_codes(fields).contains(code_of(generic)) <==> required_generics(fields).contains(
            generic,
        ),
    decreases fields.len(),
{
    if fields.len() > 0 {
        let rest = fields.drop_last();
        lemma_codes_match_generics(rest, generic);
        match generic_of(fields.last().conversion) {
            Some(last) => {
                lemma_seq_contains_after_push(
                    requested_codes(rest),
                    code_of(last),
                    code_of(generic),
                );
                lemma_seq_contains_after_push(required_generics(rest), last, generic);
            },
            None => {},
        }
    }
}

/// Dropping repeated codes and decoding gives the required generics.
proof fn lemma_unique_codes_decode(fields: Seq<FieldDescriptorView>)
    ensures
        decoded(first_occurrences(requested_codes(fields))) == required_generics(fields),
    decreases fields.len(),
{
    if fields.len() == 0 {
        assert(decoded(first_occurrences(requested_codes(fields))) =~= required_generics(fields));
    } else {
        let rest = fields.drop_last();
        lemma_unique_codes_decode(rest);
        match generic_of(fields.last().conversion) {
            Some(last) => {
                let codes = requested_codes(rest);
                assert(codes.push(code_of(last)).drop_last() =~= codes);
                lemma_codes_match_generics(rest, last);
                assert(decoded(first_occurrences(codes).push(code_of(last))) =~= decoded(
                    first_occurrences(codes),
                ).push(last));
            },
            None => {},
        }
    }
}

/// The required generics hold a placeholder exactly when some field asks for it.
pub proof fn lemma_required_generics_complete(
    fields: Seq<FieldDescriptorView>,
    generic: GenericParameter,
)
    ensures
        required_generics(fields).contains(generic) <==> requests(fields, generic),
    decreases fields.len(),
{
    if fields.len() > 0 {
        let rest = fields.drop_last();
        lemma_required_generics_complete(rest, generic);
        let last = fields.last();
        match generic_of(last.conversion) {
            Some(asked) => {
                lemma_seq_contains_after_push(required_generics(rest), asked, generic);
            },
            None => {},
        }
        if requests(rest, generic) {
            let i = choose|i: int|
                0 <= i < rest.len() && generic_of((#[trigger] rest[i]).conversion) == Some(generic);
            assert(fields[i] == rest[i]);
        }
        if requests(fields, generic) && generic_of(last.conversion) != Some(generic) {
            let i = choose|i: int|
                0 <= i < fields.len() && generic_of((#[trigger] fields[i]).conversion) == Some(
                    generic,
                );
            assert(rest[i] == fields[i]);
        }
        if generic_of(last.conversion) == Some(generic) {
            assert(fields[fields.len() - 1] == last);
        }
    }
}

/// No placeholder occurs twice among the required generics.
pub proof fn lemma_required_generics_distinct(fields: Seq<FieldDescriptorView>)
    ensures
        required_generics(fields).no_duplicates(),
    decreases fields.len(),
{
    if fields.len() > 0 {
        lemma_required_generics_distinct(fields.drop_last());
    }
}

/// Collects the generic placeholders that the given fields need when they
/// are arguments of the same function.
pub fn collect_generics(fields: &Vec<FieldDescriptor>) -> (generics: Vec<GenericParameter>)
    ensures
        generics@ == required_generics(fields.deep_view()),
{
    let ghost all = fields.deep_view();
    let mut codes: Vec<u8> = Vec::new();
    let mut i: usize = 0;
    while i < fields.len()
        invariant
            all == fields.deep_view(),
            i <= fields.len(),
            codes@ == requested_codes(all.take(i as int)),
        decreases fields.len() - i,
    {
        assert(all.take(i + 1).drop_last() =~= all.take(i as int));
        assert(all.take(i + 1).last() == fields[i as int]@);
        match fields[i].conversion.generic() {
            Some(generic) => {
                codes.push(generic.code());
            },
            None => {},
        }
        i += 1;
    }
    assert(all.take(i as int) =~= all);
    let kept = unique_codes(codes);
    let mut generics: Vec<GenericParameter> = Vec::new();
    let mut j: usize = 0;
    while j < kept.len()
        invariant
            j <= kept.len(),
            generics@ == decoded(kept@.take(j as int)),
        decreases kept.len() - j,
    {
        generics.push(GenericParameter::with_code(kept[j]));
        assert(generics@ =~= decoded(kept@.take(j + 1)));
        j += 1;
    }
    proof {
        assert(kept@.take(j as int) =~= kept@);
        lemma_unique_codes_decode(all);
    }
    generics
}

} // verus!
