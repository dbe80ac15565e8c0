//! The redaction engine: the built-in expression and the traversal of values.

use crate::compiled::{regex_compiles, CompiledRegex};
use crate::filter::{filters_redact, FilterModel, FilterSet, CREDIT_CARD_PATTERN};
use crate::laws::lemma_well_formed_kept;
use crate::redactor::Redactor;
use crate::text::str_eq;
use crate::value::{well_formed, Value, ValueModel};
use vstd::prelude::*;

verus! {

/// `value` with every string in it passed through `filters`. Sequences keep
/// their length and order, mappings keep their keys and order, and numbers,
/// booleans and null stay as they are.
pub open spec fn value_redact(
    value: ValueModel,
    filters: Seq<FilterModel>,
    redactor: Redactor,
) -> ValueModel
    decreases value,
{
    match value {
        ValueModel::String(text) => ValueModel::String(filters_redact(filters, text, redactor)),
        ValueModel::Sequence(items) => ValueModel::Sequence(
            Seq::new(
                items.len(),
                |i: int|
                    if 0 <= i < items.len() {
                        value_redact(items[i], filters, redactor)
                    } else {
                        ValueModel::Null
                    },
            ),
        ),
        ValueModel::Mapping(entries) => ValueModel::Mapping(
            Seq::new(
                entries.len(),
                |i: int|
                    if 0 <= i < entries.len() {
                        (entries[i].0, value_redact(entries[i].1, filters, redactor))
                    } else {
                        (Seq::empty(), ValueModel::Null)
                    },
            ),
        ),
        scalar => scalar,
    }
}

/// Holds the compiled card-number expression. It is built once and only read
/// afterwards, so one engine can serve any number of calls.
#[derive(Debug)]
pub struct RedactionEngine {
    card: CompiledRegex,
}

impl View for RedactionEngine {
    type V = Seq<char>;

    /// The pattern of the expression that the engine holds.
    closed spec fn view(&self) -> Seq<char> {
        self.card@
    }
}

impl RedactionEngine {
    #[verifier::type_invariant]
    spec fn card_is_built_in(&self) -> bool {
        self.card@ == CREDIT_CARD_PATTERN@
    }

    /// Makes an engine from an expression that was compiled from the built-in
    /// card-number pattern. Any other expression is refused.
    pub fn with_card(card: CompiledRegex) -> (engine: Option<RedactionEngine>)
        ensures
            engine is Some <==> card@ == CREDIT_CARD_PATTERN@,
            engine matches Some(made) ==> made@ == card@,
    {
        if str_eq(card.as_str(), CREDIT_CARD_PATTERN) {
            Some(RedactionEngine { card })
        } else {
            None
        }
    }

    /// Compiles the built-in card-number pattern and makes an engine from it.
    /// Returns the engine where `regex` accepts the pattern, and `None` where
    /// it rejects it; the engine holds the expression compiled from the
    /// built-in pattern.
    pub fn new() -> (engine: Option<RedactionEngine>)
        ensures
            engine is Some <==> regex_compiles(CREDIT_CARD_PATTERN@),
            engine matches Some(made) ==> made@ == CREDIT_CARD_PATTERN@,
    {
        match CompiledRegex::new(CREDIT_CARD_PATTERN) {
            Some(card) => RedactionEngine::with_card(card),
            None => None,
        }
    }

    /// Redacts `value`: every string in it is passed through `filters`, in
    /// order; everything else is kept.
    pub fn redact(&self, value: Value, filters: &FilterSet, redactor: &Redactor) -> (out: Value)
        ensures
            out@ == value_redact(value@, filters@, *redactor),
            well_formed(value@) ==> well_formed(out@),
        decreases value,
    {
        proof {
            if well_formed(value@) {
                lemma_well_formed_kept(value@, filters@, *redactor);
            }
        }
        match value {
            Value::String(text) => Value::String(filters.redact(text.as_str(), redactor, self)),
            Value::Sequence(items) => {
                let ghost before = items@;
                let mut out: Vec<Value> = Vec::new();
                for item in it: items
                    invariant
                        it.seq() == before,
                        forall|j: int|
                            0 <= j < before.len() ==> decreases_to!(value => #[trigger] before[j]),
                        out.len() == it.index(),
                        forall|j: int|
                            0 <= j < out.len() ==> (#[trigger] out@[j])@ == value_redact(
                                before[j]@,
                                filters@,
                                *redactor,
                            ),
                {
                    let redacted = self.redact(item, filters, redactor);
                    out.push(redacted);
                }
                let result = Value::Sequence(out);
                proof {
                    assert(result@->Sequence_0 =~= value_redact(
                        value@,
                        filters@,
                        *redactor,
                    )->Sequence_0);
                }
                result
            },
            Value::Mapping(entries) => {
                let ghost before = entries@;
                let mut out: Vec<(String, Value)> = Vec::new();
                for entry in it: entries
                    invariant
                        it.seq() == before,
                        forall|j: int|
                            0 <= j < before.len() ==> decreases_to!(value => (#[trigger] before[j]).1),
                        out.len() == it.index(),
                        forall|j: int|
                            0 <= j < out.len() ==> (#[trigger] out@[j]).0@ == before[j].0@
                                && out@[j].1@ == value_redact(before[j].1@, filters@, *redactor),
                {
                    let (key, inner) = entry;
                    let redacted = self.redact(inner, filters, redactor);
                    out.push((key, redacted));
                }
                let result = Value::Mapping(out);
                proof {
                    assert(result@->Mapping_0 =~= value_redact(
                        value@,
                        filters@,
                        *redactor,
                    )->Mapping_0);
                }
                result
            },
            scalar => scalar,
        }
    }

    /// The compiled card-number expression.
    pub fn card(&self) -> (card: &CompiledRegex)
        ensures
            card@ == self@,
            card@ == CREDIT_CARD_PATTERN@,
    {
        proof {
            use_type_invariant(self);
        }
        &self.card
    }
}

} // verus!
