//! Filters: what is matched, and how matches are replaced in a text.

use crate::compiled::{regex_replace_all, CompiledRegex};
use crate::engine::RedactionEngine;
use crate::redactor::Redactor;
use crate::text::{replace_all_literal, replace_literal};
use vstd::prelude::*;

verus! {

/// The built-in pattern for card numbers. Its alternatives are, in order:
///
/// - Visa: leading 4; 13 or 16 digits;
/// - Mastercard: leading 51 to 55, or 2221 to 2720; 16 digits;
/// - Discover: leading 6011 or 65; 16 digits;
/// - American Express: leading 34 or 37; 15 digits;
/// - Diners Club: leading 300 to 305, 36 or 38; 14 digits;
/// - JCB: leading 2131 or 1800 with 15 digits, or leading 35 with 16 digits.
pub const CREDIT_CARD_PATTERN: &'static str =
    "(?:4[0-9]{12}(?:[0-9]{3})?|5[1-5][0-9]{14}|2(?:22[1-9]|2[3-9][0-9]|[3-6][0-9]{2}|7[01][0-9]|720)[0-9]{12}|6(?:011|5[0-9][0-9])[0-9]{12}|3[47][0-9]{13}|3(?:0[0-5]|[68][0-9])[0-9]{11}|(?:2131|1800|35\\d{3})\\d{11})";

/// What a [`PatternMatcher`] stands for.
pub enum MatcherModel {
    /// A regular expression, given by its pattern text.
    Regex(Seq<char>),
    /// An exact substring.
    Literal(Seq<char>),
}

/// What a [`Filter`] stands for.
pub enum FilterModel {
    /// Matchers, applied in order.
    Pattern(Seq<MatcherModel>),
    /// The built-in card-number pattern.
    CreditCard,
}

/// `text` after `matcher` has replaced all it matches by the redactor's marker.
pub open spec fn matcher_redact(matcher: MatcherModel, text: Seq<char>, redactor: Redactor) -> Seq<
    char,
> {
    match matcher {
        MatcherModel::Regex(pattern) => regex_replace_all(pattern, text, redactor.marker()),
        MatcherModel::Literal(needle) => replace_literal(text, needle, redactor.marker()),
    }
}

/// `text` after each of `matchers`, first to last, has worked on the output of
/// the one before it.
pub open spec fn matchers_redact(
    matchers: Seq<MatcherModel>,
    text: Seq<char>,
    redactor: Redactor,
) -> Seq<char>
    decreases matchers.len(),
{
    if matchers.len() == 0 {
        text
    } else {
        matcher_redact(
            matchers.last(),
            matchers_redact(matchers.drop_last(), text, redactor),
            redactor,
        )
    }
}

/// `text` after `filter` has been applied to it.
pub open spec fn filter_redact(filter: FilterModel, text: Seq<char>, redactor: Redactor) -> Seq<
    char,
> {
    match filter {
        FilterModel::Pattern(matchers) => matchers_redact(matchers, text, redactor),
        FilterModel::CreditCard => regex_replace_all(
            CREDIT_CARD_PATTERN@,
            text,
            redactor.marker(),
        ),
    }
}

/// `text` after each of `filters`, first to last, has worked on the output of
/// the one before it.
pub open spec fn filters_redact(filters: Seq<FilterModel>, text: Seq<char>, redactor: Redactor) -> Seq<
    char,
>
    decreases filters.len(),
{
    if filters.len() == 0 {
        text
    } else {
        filter_redact(
            filters.last(),
            filters_redact(filters.drop_last(), text, redactor),
            redactor,
        )
    }
}

/// A filter is valid when it can match something: a pattern filter holds at
/// least one matcher.
pub open spec fn filter_valid(filter: FilterModel) -> bool {
    filter matches FilterModel::Pattern(matchers) ==> matchers.len() > 0
}

/// A filter list is valid when it is not empty and each filter in it is valid.
pub open spec fn filters_valid(filters: Seq<FilterModel>) -> bool {
    &&& filters.len() > 0
    &&& forall|i: int| 0 <= i < filters.len() ==> filter_valid(#[trigger] filters[i])
}

/// One matching rule: a compiled regular expression or an exact substring.
#[derive(Debug)]
pub enum PatternMatcher {
    Regex(CompiledRegex),
    Literal(String),
}

impl View for PatternMatcher {
    type V = MatcherModel;

    open spec fn view(&self) -> MatcherModel {
        match self {
            PatternMatcher::Regex(compiled) => MatcherModel::Regex(compiled@),
            PatternMatcher::Literal(needle) => MatcherModel::Literal(needle@),
        }
    }
}

impl PatternMatcher {
    /// Replaces every match in `input` by the redactor's marker.
    pub fn redact(&self, input: &str, redactor: &Redactor) -> (out: String)
        ensures
            out@ == matcher_redact(self@, input@, *redactor),
    {
        match self {
            PatternMatcher::Regex(compiled) => compiled.replace_all(input, redactor.pattern()),
            PatternMatcher::Literal(needle) => replace_all_literal(
                input,
                needle.as_str(),
                redactor.pattern(),
            ),
        }
    }
}

/// The models of `matchers`, in order.
pub open spec fn matcher_models(matchers: Seq<PatternMatcher>) -> Seq<MatcherModel> {
    matchers.map_values(|m: PatternMatcher| m@)
}

/// The redaction filter to apply to a text.
#[derive(Debug)]
pub enum Filter {
    /// One or more matchers, applied in order.
    Pattern(Vec<PatternMatcher>),
    /// The built-in card-number pattern.
    CreditCard,
}

impl View for Filter {
    type V = FilterModel;

    open spec fn view(&self) -> FilterModel {
        match self {
            Filter::Pattern(matchers) => FilterModel::Pattern(matcher_models(matchers@)),
            Filter::CreditCard => FilterModel::CreditCard,
        }
    }
}

impl Filter {
    /// Applies this filter to `input`: each matcher replaces all it matches in
    /// the output of the matcher before it. The card-number filter matches by
    /// the expression that `engine` holds.
    pub fn redact(&self, input: &str, redactor: &Redactor, engine: &RedactionEngine) -> (out: String)
        ensures
            out@ == filter_redact(self@, input@, *redactor),
    {
        match self {
            Filter::Pattern(matchers) => {
                let mut current = input.to_owned();
                let ghost models = matcher_models(matchers@);
                let mut i: usize = 0;
                while i < matchers.len()
                    invariant
                        i <= matchers.len(),
                        models == matcher_models(matchers@),
                        current@ == matchers_redact(models.take(i as int), input@, *redactor),
                    decreases matchers.len() - i,
                {
                    let next = matchers[i].redact(current.as_str(), redactor);
                    proof {
                        let upto = models.take(i + 1);
                        assert(upto.drop_last() =~= models.take(i as int));
                    }
                    current = next;
                    i += 1;
                }
                assert(models.take(i as int) =~= models);
                current
            },
            Filter::CreditCard => engine.card().replace_all(input, redactor.pattern()),
        }
    }
}

/// The models of `filters`, in order.
pub open spec fn filter_models(filters: Seq<Filter>) -> Seq<FilterModel> {
    filters.map_values(|f: Filter| f@)
}

/// An ordered, validated list of filters.
///
/// It is never empty, and none of its pattern filters is without matchers.
#[derive(Debug)]
pub struct FilterSet {
    filters: Vec<Filter>,
}

impl View for FilterSet {
    type V = Seq<FilterModel>;

    closed spec fn view(&self) -> Seq<FilterModel> {
        filter_models(self.filters@)
    }
}

impl FilterSet {
    #[verifier::type_invariant]
    spec fn valid(&self) -> bool {
        filters_valid(filter_models(self.filters@))
    }

    /// Wraps a list of filters that is known to be valid.
    pub(crate) fn from_valid(filters: Vec<Filter>) -> (set: FilterSet)
        requires
            filters_valid(filter_models(filters@)),
        ensures
            set@ == filter_models(filters@),
    {
        FilterSet { filters }
    }

    /// Makes a filter set from filters that were built by hand. Returns
    /// `None` where the list is empty or holds a pattern filter without
    /// matchers.
    pub fn from_filters(filters: Vec<Filter>) -> (r: Option<FilterSet>)
        ensures
            r is Some <==> filters_valid(filter_models(filters@)),
            r matches Some(set) ==> set@ == filter_models(filters@),
    {
        let ghost models = filter_models(filters@);
        if filters.len() == 0 {
            return None;
        }
        let mut i: usize = 0;
        while i < filters.len()
            invariant
                i <= filters.len(),
                models == filter_models(filters@),
                forall|j: int| 0 <= j < i ==> filter_valid(#[trigger] models[j]),
            decreases filters.len() - i,
        {
            let empty = match &filters[i] {
                Filter::Pattern(matchers) => matchers.len() == 0,
                Filter::CreditCard => false,
            };
            if empty {
                assert(!filter_valid(models[i as int]));
                return None;
            }
            i += 1;
        }
        Some(FilterSet::from_valid(filters))
    }

    /// The filters, in the order in which they are applied.
    pub fn filters(&self) -> (filters: &Vec<Filter>)
        ensures
            filter_models(filters@) == self@,
            filters_valid(self@),
    {
        proof {
            use_type_invariant(self);
        }
        &self.filters
    }

    /// The number of filters.
    pub fn len(&self) -> (n: usize)
        ensures
            n == self@.len(),
            n > 0,
    {
        proof {
            use_type_invariant(self);
        }
        self.filters.len()
    }

    /// Applies every filter, first to last, each to the output of the one
    /// before it.
    pub fn redact(&self, input: &str, redactor: &Redactor, engine: &RedactionEngine) -> (out: String)
        ensures
            out@ == filters_redact(self@, input@, *redactor),
    {
        let mut current = input.to_owned();
        let ghost models = filter_models(self.filters@);
        let mut i: usize = 0;
        while i < self.filters.len()
            invariant
                i <= self.filters.len(),
                models == filter_models(self.filters@),
                current@ == filters_redact(models.take(i as int), input@, *redactor),
            decreases self.filters.len() - i,
        {
            let next = self.filters[i].redact(current.as_str(), redactor, engine);
            proof {
                let upto = models.take(i + 1);
                assert(upto.drop_last() =~= models.take(i as int));
            }
            current = next;
            i += 1;
        }
        assert(models.take(i as int) =~= models);
        current
    }
}

} // verus!
