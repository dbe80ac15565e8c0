//! Filter descriptions and their validation.
//!
//! A description is a small tree of strings, regular expressions, lists and
//! objects. [`parse_filter`] says which filter a description stands for, or
//! why it stands for none; [`Filter::try_from`] and [`FilterSet::new`]
//! compute it.

use crate::compiled::CompiledRegex;
use crate::filter::{
    filter_models, filters_valid, matcher_models, Filter, FilterModel, FilterSet, MatcherModel,
    PatternMatcher,
};
use crate::text::str_eq;
use vstd::prelude::*;

verus! {

/// Why a filter description is refused.
#[derive(Debug, Clone, Copy, PartialEq, Eq, Structural)]
pub enum FilterError {
    /// An object has no `"type"` key.
    MissingTypeField,
    /// The value under `"type"` is not a string.
    InvalidTypeValue,
    /// The filter name is neither `"credit_card"` nor `"pattern"`.
    UnknownFilterName,
    /// The bare string `"pattern"`, which names no patterns.
    BareArgumentlessPattern,
    /// An object of type `"pattern"` has no `"patterns"` key.
    MissingPatternsField,
    /// The value under `"patterns"` is not a list, is an empty list, or holds
    /// an entry that is neither a string nor a regular expression.
    InvalidPatternsShape,
    /// The description is not a string, a regular expression or an object.
    InvalidFilterLiteral,
}

impl FilterError {
    /// The message of this error, as a text.
    pub open spec fn text(self) -> Seq<char> {
        match self {
            FilterError::MissingTypeField => "filters given as objects must have a `type`"@,
            FilterError::InvalidTypeValue => "`type` must be a literal string"@,
            FilterError::UnknownFilterName => "unknown filter name"@,
            FilterError::BareArgumentlessPattern => "pattern cannot be used without arguments"@,
            FilterError::MissingPatternsField => "pattern filter must have `patterns`"@,
            FilterError::InvalidPatternsShape => "`patterns` must be a non-empty list of regexes and strings"@,
            FilterError::InvalidFilterLiteral => "a filter must be a regex, a name or an object"@,
        }
    }

    /// A message that says what is wrong with the description.
    pub fn message(&self) -> (s: &'static str)
        ensures
            s@ == self.text(),
    {
        match self {
            FilterError::MissingTypeField => "filters given as objects must have a `type`",
            FilterError::InvalidTypeValue => "`type` must be a literal string",
            FilterError::UnknownFilterName => "unknown filter name",
            FilterError::BareArgumentlessPattern => "pattern cannot be used without arguments",
            FilterError::MissingPatternsField => "pattern filter must have `patterns`",
            FilterError::InvalidPatternsShape => "`patterns` must be a non-empty list of regexes and strings",
            FilterError::InvalidFilterLiteral => "a filter must be a regex, a name or an object",
        }
    }
}

/// What a [`ConfigValue`] stands for. A regular expression stands for its
/// pattern text.
pub enum ConfigModel {
    String(Seq<char>),
    Regex(Seq<char>),
    Integer(int),
    Boolean(bool),
    Null,
    List(Seq<ConfigModel>),
    Object(Seq<(Seq<char>, ConfigModel)>),
}

/// A configuration value, as handed over by whatever holds the configuration.
#[derive(Debug)]
pub enum ConfigValue {
    String(String),
    Regex(CompiledRegex),
    Integer(i64),
    Boolean(bool),
    Null,
    List(Vec<ConfigValue>),
    /// Pairs of key and value. Where a key occurs twice, the first pair counts.
    Object(Vec<(String, ConfigValue)>),
}

/// The model of `value`.
pub open spec fn config_model(value: ConfigValue) -> ConfigModel
    decreases value,
{
    match value {
        ConfigValue::String(text) => ConfigModel::String(text@),
        ConfigValue::Regex(compiled) => ConfigModel::Regex(compiled@),
        ConfigValue::Integer(n) => ConfigModel::Integer(n as int),
        ConfigValue::Boolean(b) => ConfigModel::Boolean(b),
        ConfigValue::Null => ConfigModel::Null,
        ConfigValue::List(items) => ConfigModel::List(list_models(items@)),
        ConfigValue::Object(entries) => ConfigModel::Object(entry_models(entries@)),
    }
}

/// The models of `items`, in order.
pub open spec fn list_models(items: Seq<ConfigValue>) -> Seq<ConfigModel>
    decreases items,
{
    Seq::new(
        items.len(),
        |i: int|
            if 0 <= i < items.len() {
                config_model(items[i])
            } else {
                ConfigModel::Null
            },
    )
}

/// The models of the pairs `entries`, in order.
pub open spec fn entry_models(entries: Seq<(String, ConfigValue)>) -> Seq<(Seq<char>, ConfigModel)>
    decreases entries,
{
    Seq::new(
        entries.len(),
        |i: int|
            if 0 <= i < entries.len() {
                (entries[i].0@, config_model(entries[i].1))
            } else {
                (Seq::empty(), ConfigModel::Null)
            },
    )
}

impl View for ConfigValue {
    type V = ConfigModel;

    open spec fn view(&self) -> ConfigModel {
        config_model(*self)
    }
}

/// The value of the first pair in `entries` whose key is `key`.
pub open spec fn lookup(entries: Seq<(Seq<char>, ConfigModel)>, key: Seq<char>) -> Option<
    ConfigModel,
>
    decreases entries.len(),
{
    if entries.len() == 0 {
        None
    } else if entries[0].0 == key {
        Some(entries[0].1)
    } else {
        lookup(entries.drop_first(), key)
    }
}

/// The matcher that one entry of a `"patterns"` list stands for.
pub open spec fn parse_matcher(entry: ConfigModel) -> Option<MatcherModel> {
    match entry {
        ConfigModel::Regex(pattern) => Some(MatcherModel::Regex(pattern)),
        ConfigModel::String(needle) => Some(MatcherModel::Literal(needle)),
        _ => None,
    }
}

/// The matchers that a `"patterns"` list stands for: one per entry, in order.
/// None for an empty list, or where an entry stands for no matcher.
pub open spec fn parse_matchers(entries: Seq<ConfigModel>) -> Option<Seq<MatcherModel>> {
    if entries.len() > 0 && forall|i: int|
        0 <= i < entries.len() ==> parse_matcher(#[trigger] entries[i]) is Some {
        Some(Seq::new(entries.len(), |i: int| parse_matcher(entries[i])->0))
    } else {
        None
    }
}

/// The filter that a name stands for when it is the `"type"` of an object with
/// the pairs `entries`: `"credit_card"` is the card-number filter, and
/// `"pattern"` is a pattern filter with the matchers listed under the key
/// `"patterns"`.
pub open spec fn parse_typed(name: Seq<char>, entries: Seq<(Seq<char>, ConfigModel)>) -> Result<
    FilterModel,
    FilterError,
> {
    if name == "credit_card"@ {
        Ok(FilterModel::CreditCard)
    } else if name == "pattern"@ {
        match lookup(entries, "patterns"@) {
            None => Err(FilterError::MissingPatternsField),
            Some(ConfigModel::List(items)) => match parse_matchers(items) {
                Some(matchers) => Ok(FilterModel::Pattern(matchers)),
                None => Err(FilterError::InvalidPatternsShape),
            },
            Some(_) => Err(FilterError::InvalidPatternsShape),
        }
    } else {
        Err(FilterError::UnknownFilterName)
    }
}

/// The filter that a description stands for, or the reason why it stands for
/// none.
///
/// - The string `"credit_card"` is the card-number filter; the string
///   `"pattern"` alone is refused, and so is any other string.
/// - A regular expression is a pattern filter with that one matcher.
/// - An object is read by the string under its `"type"` key, see
///   [`parse_typed`].
/// - Anything else is refused.
pub open spec fn parse_filter(spec: ConfigModel) -> Result<FilterModel, FilterError> {
    match spec {
        ConfigModel::Object(entries) => match lookup(entries, "type"@) {
            None => Err(FilterError::MissingTypeField),
            Some(ConfigModel::String(name)) => parse_typed(name, entries),
            Some(_) => Err(FilterError::InvalidTypeValue),
        },
        ConfigModel::String(name) => if name == "pattern"@ {
            Err(FilterError::BareArgumentlessPattern)
        } else if name == "credit_card"@ {
            Ok(FilterModel::CreditCard)
        } else {
            Err(FilterError::UnknownFilterName)
        },
        ConfigModel::Regex(pattern) => Ok(FilterModel::Pattern(seq![MatcherModel::Regex(pattern)])),
        _ => Err(FilterError::InvalidFilterLiteral),
    }
}

/// The description at `at` is the first of `specs` that stands for no filter.
pub open spec fn first_refused(specs: Seq<ConfigModel>, at: int) -> bool {
    &&& 0 <= at < specs.len()
    &&& parse_filter(specs[at]) is Err
    &&& forall|j: int| 0 <= j < at ==> parse_filter(#[trigger] specs[j]) is Ok
}

/// The filters that a list of descriptions stands for, one per description and
/// in the same order; or, where a description is refused, the error of the
/// first such description.
pub open spec fn parse_filters(specs: Seq<ConfigModel>) -> Result<Seq<FilterModel>, FilterError> {
    if forall|i: int| 0 <= i < specs.len() ==> parse_filter(#[trigger] specs[i]) is Ok {
        Ok(Seq::new(specs.len(), |i: int| parse_filter(specs[i])->Ok_0))
    } else {
        let at = choose|at: int| first_refused(specs, at);
        Err(parse_filter(specs[at])->Err_0)
    }
}

/// Where `key` first occurs among the keys of `entries`, it is at `at`.
pub open spec fn first_at(entries: Seq<(Seq<char>, ConfigModel)>, key: Seq<char>, at: int) -> bool {
    &&& 0 <= at < entries.len()
    &&& entries[at].0 == key
    &&& forall|j: int| 0 <= j < at ==> (#[trigger] entries[j]).0 != key
}

/// A key that first occurs at `at` is looked up to the value at `at`.
pub proof fn lemma_lookup_found(entries: Seq<(Seq<char>, ConfigModel)>, key: Seq<char>, at: int)
    requires
        first_at(entries, key, at),
    ensures
        lookup(entries, key) == Some(entries[at].1),
    decreases at,
{
    if at > 0 {
        lemma_lookup_found(entries.drop_first(), key, at - 1);
    }
}

/// A key that occurs nowhere is looked up to nothing.
pub proof fn lemma_lookup_absent(entries: Seq<(Seq<char>, ConfigModel)>, key: Seq<char>)
    requires
        forall|j: int| 0 <= j < entries.len() ==> (#[trigger] entries[j]).0 != key,
    ensures
        lookup(entries, key) is None,
    decreases entries.len(),
{
    if entries.len() > 0 {
        lemma_lookup_absent(entries.drop_first(), key);
    }
}

/// The index of the first pair of `entries` whose key is `key`.
fn find_key(entries: &Vec<(String, ConfigValue)>, key: &str) -> (found: Option<usize>)
    ensures
        match found {
            Some(at) => first_at(entry_models(entries@), key@, at as int),
            None => lookup(entry_models(entries@), key@) is None,
        },
{
    let ghost models = entry_models(entries@);
    let mut i: usize = 0;
    while i < entries.len()
        invariant
            i <= entries.len(),
            models == entry_models(entries@),
            forall|j: int| 0 <= j < i ==> (#[trigger] models[j]).0 != key@,
        decreases entries.len() - i,
    {
        if str_eq(entries[i].0.as_str(), key) {
            return Some(i);
        }
        i += 1;
    }
    proof {
        lemma_lookup_absent(models, key@);
    }
    None
}

/// Builds the matchers of a `"patterns"` list.
fn matchers_from(items: Vec<ConfigValue>) -> (r: Result<Vec<PatternMatcher>, FilterError>)
    ensures
        match parse_matchers(list_models(items@)) {
            Some(models) => r matches Ok(matchers) && matcher_models(matchers@) == models,
            None => r matches Err(e) && e == FilterError::InvalidPatternsShape,
        },
{
    let ghost given = items@;
    let ghost models = list_models(given);
    if items.len() == 0 {
        return Err(FilterError::InvalidPatternsShape);
    }
    let mut matchers: Vec<PatternMatcher> = Vec::new();
    for item in it: items
        invariant
            it.seq() == given,
            models == list_models(given),
            matchers.len() == it.index(),
            forall|j: int|
                0 <= j < matchers.len() ==> parse_matcher(models[j]) == Some(
                    (#[trigger] matchers@[j])@,
                ),
    {
        let ghost at = it.index();
        match item {
            ConfigValue::Regex(compiled) => matchers.push(PatternMatcher::Regex(compiled)),
            ConfigValue::String(needle) => matchers.push(PatternMatcher::Literal(needle)),
            _ => {
                assert(parse_matcher(models[at]) is None);
                return Err(FilterError::InvalidPatternsShape);
            },
        }
    }
    proof {
        assert forall|i: int| 0 <= i < models.len() implies parse_matcher(
            #[trigger] models[i],
        ) is Some by {
            assert(parse_matcher(models[i]) == Some(matchers@[i]@));
        }
    }
    Ok(matchers)
}

impl Filter {
    /// Reads one filter from its description: the filter that
    /// [`parse_filter`] gives for it, or the error.
    pub fn try_from(value: ConfigValue) -> (r: Result<Filter, FilterError>)
        ensures
            match parse_filter(value@) {
                Ok(model) => r matches Ok(filter) && filter@ == model,
                Err(error) => r matches Err(e) && e == error,
            },
    {
        match value {
            ConfigValue::Object(entries) => {
                let ghost models = entry_models(entries@);
                let type_at = match find_key(&entries, "type") {
                    Some(at) => at,
                    None => {
                        return Err(FilterError::MissingTypeField);
                    },
                };
                proof {
                    lemma_lookup_found(models, "type"@, type_at as int);
                }
                let is_pattern = match &entries[type_at].1 {
                    ConfigValue::String(name) => {
                        if str_eq(name.as_str(), "credit_card") {
                            return Ok(Filter::CreditCard);
                        }
                        str_eq(name.as_str(), "pattern")
                    },
                    _ => {
                        return Err(FilterError::InvalidTypeValue);
                    },
                };
                if !is_pattern {
                    return Err(FilterError::UnknownFilterName);
                }
                let patterns_at = match find_key(&entries, "patterns") {
                    Some(at) => at,
                    None => {
                        return Err(FilterError::MissingPatternsField);
                    },
                };
                proof {
                    lemma_lookup_found(models, "patterns"@, patterns_at as int);
                }
                let mut entries = entries;
                let (_, patterns) = entries.remove(patterns_at);
                match patterns {
                    ConfigValue::List(items) => match matchers_from(items) {
                        Ok(matchers) => Ok(Filter::Pattern(matchers)),
                        Err(e) => Err(e),
                    },
                    _ => Err(FilterError::InvalidPatternsShape),
                }
            },
            ConfigValue::String(name) => {
                if str_eq(name.as_str(), "pattern") {
                    Err(FilterError::BareArgumentlessPattern)
                } else if str_eq(name.as_str(), "credit_card") {
                    Ok(Filter::CreditCard)
                } else {
                    Err(FilterError::UnknownFilterName)
                }
            },
            ConfigValue::Regex(compiled) => {
                let mut matchers: Vec<PatternMatcher> = Vec::new();
                matchers.push(PatternMatcher::Regex(compiled));
                let filter = Filter::Pattern(matchers);
                assert(filter@->Pattern_0 =~= seq![MatcherModel::Regex(compiled@)]);
                Ok(filter)
            },
            _ => Err(FilterError::InvalidFilterLiteral),
        }
    }
}

impl FilterSet {
    /// Validates a list of filter descriptions, in order, and builds the
    /// filter set. The first description that is refused decides the error.
    ///
    /// The list must not be empty.
    pub fn new(specs: Vec<ConfigValue>) -> (r: Result<FilterSet, FilterError>)
        requires
            specs@.len() > 0,
        ensures
            match parse_filters(list_models(specs@)) {
                Ok(models) => r matches Ok(set) && set@ == models,
                Err(error) => r matches Err(e) && e == error,
            },
    {
        let ghost given = specs@;
        let ghost models = list_models(given);
        let mut filters: Vec<Filter> = Vec::new();
        for spec in it: specs
            invariant
                it.seq() == given,
                models == list_models(given),
                filters.len() == it.index(),
                forall|j: int|
                    0 <= j < filters.len() ==> parse_filter(models[j]) == Ok::<
                        FilterModel,
                        FilterError,
                    >((#[trigger] filters@[j])@),
        {
            let ghost at = it.index();
            match Filter::try_from(spec) {
                Ok(filter) => filters.push(filter),
                Err(e) => {
                    proof {
                        assert forall|j: int| 0 <= j < at implies parse_filter(
                            #[trigger] models[j],
                        ) is Ok by {
                            assert(parse_filter(models[j]) == Ok::<FilterModel, FilterError>(
                                filters@[j]@,
                            ));
                        }
                        assert(first_refused(models, at));
                    }
                    return Err(e);
                },
            }
        }
        proof {
            assert forall|i: int| 0 <= i < models.len() implies parse_filter(
                #[trigger] models[i],
            ) is Ok by {
                assert(parse_filter(models[i]) == Ok::<FilterModel, FilterError>(filters@[i]@));
            }
            assert(filters_valid(filter_models(filters@)));
        }
        Ok(FilterSet::from_valid(filters))
    }
}

} // verus!
