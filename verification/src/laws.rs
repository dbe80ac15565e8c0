//! Properties of redaction, proved from its definition.

use crate::compiled::regex_replace_all;
use crate::config::{first_refused, parse_filter, parse_filters, ConfigModel, FilterError};
use crate::engine::value_redact;
use crate::filter::{
    filter_redact, filter_valid, filters_redact, filters_valid, matcher_redact, matchers_redact,
    FilterModel, MatcherModel, CREDIT_CARD_PATTERN,
};
use crate::redactor::Redactor;
use crate::text::replace_literal;
use crate::value::{well_formed, ValueModel};
use vstd::prelude::*;

verus! {

/// A description that stands for a filter stands for a valid one: a pattern
/// filter read from a description holds at least one matcher.
pub proof fn lemma_parsed_filter_valid(spec: ConfigModel)
    ensures
        parse_filter(spec) matches Ok(filter) ==> filter_valid(filter),
{
}

/// A list of descriptions stands for filters exactly when each description
/// does; the filters then correspond to the descriptions one to one, and a
/// list that is not empty gives a valid filter list.
pub proof fn lemma_parsed_filters_accepted(specs: Seq<ConfigModel>)
    ensures
        parse_filters(specs) is Ok <==> forall|i: int|
            0 <= i < specs.len() ==> parse_filter(#[trigger] specs[i]) is Ok,
        parse_filters(specs) matches Ok(filters) ==> {
            &&& filters.len() == specs.len()
            &&& forall|i: int|
                0 <= i < specs.len() ==> parse_filter(#[trigger] specs[i]) == Ok::<
                    FilterModel,
                    FilterError,
                >(filters[i])
            &&& specs.len() > 0 ==> filters_valid(filters)
        },
{
    if let Ok(filters) = parse_filters(specs) {
        assert forall|i: int| 0 <= i < filters.len() implies filter_valid(
            #[trigger] filters[i],
        ) by {
            lemma_parsed_filter_valid(specs[i]);
        }
    }
}

/// Where a list of descriptions is refused, the error is that of the first
/// description in it that stands for no filter.
pub proof fn lemma_parsed_filters_refused(specs: Seq<ConfigModel>)
    ensures
        parse_filters(specs) matches Err(error) ==> exists|at: int|
            first_refused(specs, at) && parse_filter(specs[at]) == Err::<FilterModel, FilterError>(
                error,
            ),
{
    if parse_filters(specs) is Err {
        let bad = choose|i: int| 0 <= i < specs.len() && !(parse_filter(specs[i]) is Ok);
        lemma_first_refused_exists(specs, bad);
    }
}

/// Below any refused description there is a first one.
proof fn lemma_first_refused_exists(specs: Seq<ConfigModel>, bad: int)
    requires
        0 <= bad < specs.len(),
        parse_filter(specs[bad]) is Err,
    ensures
        exists|at: int| first_refused(specs, at),
    decreases bad,
{
    if forall|j: int| 0 <= j < bad ==> parse_filter(#[trigger] specs[j]) is Ok {
        assert(first_refused(specs, bad));
    } else {
        let earlier = choose|j: int| 0 <= j < bad && !(parse_filter(#[trigger] specs[j]) is Ok);
        lemma_first_refused_exists(specs, earlier);
    }
}

/// Numbers, booleans and null come back unchanged, whatever the filters.
pub proof fn lemma_scalars_unchanged(
    value: ValueModel,
    filters: Seq<FilterModel>,
    redactor: Redactor,
)
    requires
        value is Number || value is Boolean || value is Null,
    ensures
        value_redact(value, filters, redactor) == value,
{
}

/// A string comes back as the filters leave it.
pub proof fn lemma_string_filtered(text: Seq<char>, filters: Seq<FilterModel>, redactor: Redactor)
    ensures
        value_redact(ValueModel::String(text), filters, redactor) == ValueModel::String(
            filters_redact(filters, text, redactor),
        ),
{
}

/// A sequence comes back as a sequence of the same length, and the element
/// at each position is the redacted element of that position.
pub proof fn lemma_sequence_elementwise(
    items: Seq<ValueModel>,
    filters: Seq<FilterModel>,
    redactor: Redactor,
)
    ensures
        value_redact(ValueModel::Sequence(items), filters, redactor) matches ValueModel::Sequence(
            out,
        ) && out.len() == items.len() && forall|i: int|
            0 <= i < items.len() ==> #[trigger] out[i] == value_redact(
                items[i],
                filters,
                redactor,
            ),
{
}

/// A mapping comes back as a mapping with the same keys in the same order;
/// the value under each key is the redacted value of that key.
pub proof fn lemma_mapping_keys_kept(
    entries: Seq<(Seq<char>, ValueModel)>,
    filters: Seq<FilterModel>,
    redactor: Redactor,
)
    ensures
        value_redact(ValueModel::Mapping(entries), filters, redactor) matches ValueModel::Mapping(
            out,
        ) && out.len() == entries.len() && forall|i: int|
            0 <= i < entries.len() ==> (#[trigger] out[i]).0 == entries[i].0 && out[i].1
                == value_redact(entries[i].1, filters, redactor),
{
}

/// Redaction keeps a well-formed value well formed: no key is added, none
/// is changed.
pub proof fn lemma_well_formed_kept(
    value: ValueModel,
    filters: Seq<FilterModel>,
    redactor: Redactor,
)
    requires
        well_formed(value),
    ensures
        well_formed(value_redact(value, filters, redactor)),
    decreases value,
{
    match value {
        ValueModel::Sequence(items) => {
            let out = value_redact(value, filters, redactor)->Sequence_0;
            assert forall|i: int| 0 <= i < out.len() implies well_formed(#[trigger] out[i]) by {
                lemma_well_formed_kept(items[i], filters, redactor);
            }
        },
        ValueModel::Mapping(entries) => {
            let out = value_redact(value, filters, redactor)->Mapping_0;
            assert forall|i: int| 0 <= i < out.len() implies well_formed(
                (#[trigger] out[i]).1,
            ) by {
                lemma_well_formed_kept(entries[i].1, filters, redactor);
            }
        },
        _ => {},
    }
}

/// A filter added at the end works on the output of the filters before it.
pub proof fn lemma_filters_in_order(
    filters: Seq<FilterModel>,
    last: FilterModel,
    text: Seq<char>,
    redactor: Redactor,
)
    ensures
        filters_redact(filters.push(last), text, redactor) == filter_redact(
            last,
            filters_redact(filters, text, redactor),
            redactor,
        ),
{
    assert(filters.push(last).drop_last() =~= filters);
}

/// A matcher added at the end works on the output of the matchers before it.
pub proof fn lemma_matchers_in_order(
    matchers: Seq<MatcherModel>,
    last: MatcherModel,
    text: Seq<char>,
    redactor: Redactor,
)
    ensures
        matchers_redact(matchers.push(last), text, redactor) == matcher_redact(
            last,
            matchers_redact(matchers, text, redactor),
            redactor,
        ),
{
    assert(matchers.push(last).drop_last() =~= matchers);
}

/// The order of filters matters: there are two filters and a text for which
/// applying the first and then the second gives another result than applying
/// them the other way round. Here the first filter's marker holds what the
/// second filter looks for.
pub proof fn lemma_filter_order_matters()
    ensures
        exists|a: FilterModel, b: FilterModel, text: Seq<char>|
            filters_redact(seq![a, b], text, Redactor::Full) != filters_redact(
                seq![b, a],
                text,
                Redactor::Full,
            ),
{
    let redactor = Redactor::Full;
    let marker = redactor.marker();
    let letter = seq!['a'];
    let bracket = seq!['['];
    let a = FilterModel::Pattern(seq![MatcherModel::Literal(letter)]);
    let b = FilterModel::Pattern(seq![MatcherModel::Literal(bracket)]);
    let empty = Seq::<char>::empty();
    reveal_strlit("[REDACTED]");

    // Each filter alone, on the text "a" and on the marker.
    assert forall|t: Seq<char>, needle: Seq<char>|
        filter_redact(
            FilterModel::Pattern(seq![MatcherModel::Literal(needle)]),
            t,
            redactor,
        ) == replace_literal(t, needle, marker) by {
        let single = seq![MatcherModel::Literal(needle)];
        assert(matchers_redact(single.drop_last(), t, redactor) == t);
    }
    assert(letter.drop_first() =~= empty);
    assert(replace_literal(empty, letter, marker) == empty);
    assert(replace_literal(empty, bracket, marker) == empty);
    assert(replace_literal(letter, letter, marker) =~= marker);
    assert(!bracket.is_prefix_of(letter)) by {
        assert(letter.subrange(0, 1)[0] != bracket[0]);
    }
    assert(replace_literal(letter, bracket, marker) =~= letter);
    assert(bracket.is_prefix_of(marker));
    let tail = marker.skip(1);
    assert(!bracket.is_prefix_of(tail));
    assert(replace_literal(tail, bracket, marker).len() >= 1);

    // Both orders.
    lemma_filters_in_order(seq![a], b, letter, redactor);
    lemma_filters_in_order(Seq::empty(), a, letter, redactor);
    lemma_filters_in_order(seq![b], a, letter, redactor);
    lemma_filters_in_order(Seq::empty(), b, letter, redactor);
    assert(Seq::<FilterModel>::empty().push(a) =~= seq![a]);
    assert(Seq::<FilterModel>::empty().push(b) =~= seq![b]);
    assert(seq![a].push(b) =~= seq![a, b]);
    assert(seq![b].push(a) =~= seq![b, a]);
    assert(filters_redact(seq![a, b], letter, redactor) == replace_literal(marker, bracket, marker));
}

/// `needle` stands somewhere in `text`.
pub open spec fn occurs_in(needle: Seq<char>, text: Seq<char>) -> bool {
    exists|at: int| 0 <= at <= text.len() && needle.is_prefix_of(#[trigger] text.skip(at))
}

/// Replacing a substring that does not occur changes nothing.
pub proof fn lemma_literal_absent(text: Seq<char>, needle: Seq<char>, marker: Seq<char>)
    requires
        needle.len() > 0,
        !occurs_in(needle, text),
    ensures
        replace_literal(text, needle, marker) == text,
    decreases text.len(),
{
    assert(text.skip(0) =~= text);
    if text.len() > 0 {
        let rest = text.drop_first();
        assert forall|at: int| 0 <= at <= rest.len() implies !needle.is_prefix_of(
            #[trigger] rest.skip(at),
        ) by {
            assert(rest.skip(at) =~= text.skip(at + 1));
        }
        lemma_literal_absent(rest, needle, marker);
    }
}

/// `filter` leaves `text` as it is: none of its matchers replaces anything
/// in it.
pub open spec fn filter_inert(filter: FilterModel, text: Seq<char>, redactor: Redactor) -> bool {
    match filter {
        FilterModel::Pattern(matchers) => forall|j: int|
            0 <= j < matchers.len() ==> matcher_redact(#[trigger] matchers[j], text, redactor)
                == text,
        FilterModel::CreditCard => regex_replace_all(
            CREDIT_CARD_PATTERN@,
            text,
            redactor.marker(),
        ) == text,
    }
}

/// No filter of `filters` replaces anything in `text`.
pub open spec fn text_settled(filters: Seq<FilterModel>, text: Seq<char>, redactor: Redactor) -> bool {
    forall|i: int| 0 <= i < filters.len() ==> filter_inert(#[trigger] filters[i], text, redactor)
}

/// No filter of `filters` replaces anything in any string of `value`.
pub open spec fn value_settled(
    filters: Seq<FilterModel>,
    value: ValueModel,
    redactor: Redactor,
) -> bool
    decreases value,
{
    match value {
        ValueModel::String(text) => text_settled(filters, text, redactor),
        ValueModel::Sequence(items) => forall|i: int|
            0 <= i < items.len() ==> value_settled(filters, #[trigger] items[i], redactor),
        ValueModel::Mapping(entries) => forall|i: int|
            0 <= i < entries.len() ==> value_settled(
                filters,
                (#[trigger] entries[i]).1,
                redactor,
            ),
        _ => true,
    }
}

/// Matchers that each leave `text` as it is leave it as it is together.
pub proof fn lemma_matchers_inert(matchers: Seq<MatcherModel>, text: Seq<char>, redactor: Redactor)
    requires
        forall|j: int|
            0 <= j < matchers.len() ==> matcher_redact(#[trigger] matchers[j], text, redactor)
                == text,
    ensures
        matchers_redact(matchers, text, redactor) == text,
    decreases matchers.len(),
{
    if matchers.len() > 0 {
        lemma_matchers_inert(matchers.drop_last(), text, redactor);
    }
}

/// A text in which no filter replaces anything comes back unchanged.
pub proof fn lemma_settled_text_unchanged(
    filters: Seq<FilterModel>,
    text: Seq<char>,
    redactor: Redactor,
)
    requires
        text_settled(filters, text, redactor),
    ensures
        filters_redact(filters, text, redactor) == text,
    decreases filters.len(),
{
    if filters.len() > 0 {
        lemma_settled_text_unchanged(filters.drop_last(), text, redactor);
        if let FilterModel::Pattern(matchers) = filters.last() {
            lemma_matchers_inert(matchers, text, redactor);
        }
    }
}

/// A value in whose strings no filter replaces anything comes back unchanged.
pub proof fn lemma_settled_value_unchanged(
    filters: Seq<FilterModel>,
    value: ValueModel,
    redactor: Redactor,
)
    requires
        value_settled(filters, value, redactor),
    ensures
        value_redact(value, filters, redactor) == value,
    decreases value,
{
    match value {
        ValueModel::String(text) => {
            lemma_settled_text_unchanged(filters, text, redactor);
        },
        ValueModel::Sequence(items) => {
            let out = value_redact(value, filters, redactor)->Sequence_0;
            assert forall|i: int| 0 <= i < items.len() implies out[i] == items[i] by {
                lemma_settled_value_unchanged(filters, items[i], redactor);
            }
            assert(out =~= items);
        },
        ValueModel::Mapping(entries) => {
            let out = value_redact(value, filters, redactor)->Mapping_0;
            assert forall|i: int| 0 <= i < entries.len() implies out[i] == entries[i] by {
                lemma_settled_value_unchanged(filters, entries[i].1, redactor);
            }
            assert(out =~= entries);
        },
        _ => {},
    }
}

/// Redacting twice gives what redacting once gives, provided that no filter
/// replaces anything in the strings of the first output: neither in a marker
/// nor in what was left around it.
pub proof fn lemma_redact_idempotent(
    filters: Seq<FilterModel>,
    value: ValueModel,
    redactor: Redactor,
)
    requires
        value_settled(filters, value_redact(value, filters, redactor), redactor),
    ensures
        value_redact(value_redact(value, filters, redactor), filters, redactor) == value_redact(
            value,
            filters,
            redactor,
        ),
{
    lemma_settled_value_unchanged(filters, value_redact(value, filters, redactor), redactor);
}

} // verus!
