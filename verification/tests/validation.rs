use redact::compiled::CompiledRegex;
use redact::config::{ConfigValue, FilterError};
use redact::filter::{Filter, FilterSet, PatternMatcher};

fn text(s: &str) -> ConfigValue {
    ConfigValue::String(s.to_string())
}

fn expr(pattern: &str) -> ConfigValue {
    ConfigValue::Regex(CompiledRegex::new(pattern).unwrap())
}

fn object(entries: Vec<(&str, ConfigValue)>) -> ConfigValue {
    ConfigValue::Object(entries.into_iter().map(|(k, v)| (k.to_string(), v)).collect())
}

#[test]
fn bare_credit_card_is_the_card_filter() {
    assert!(matches!(Filter::try_from(text("credit_card")), Ok(Filter::CreditCard)));
}

#[test]
fn bare_pattern_is_refused() {
    assert_eq!(
        Filter::try_from(text("pattern")).unwrap_err(),
        FilterError::BareArgumentlessPattern
    );
}

#[test]
fn bare_unknown_name_is_refused() {
    assert_eq!(Filter::try_from(text("phone")).unwrap_err(), FilterError::UnknownFilterName);
    assert_eq!(Filter::try_from(text("")).unwrap_err(), FilterError::UnknownFilterName);
    assert_eq!(Filter::try_from(text("patterns")).unwrap_err(), FilterError::UnknownFilterName);
}

#[test]
fn regex_literal_is_a_single_matcher() {
    match Filter::try_from(expr(r"\d+")).unwrap() {
        Filter::Pattern(matchers) => {
            assert_eq!(matchers.len(), 1);
            match &matchers[0] {
                PatternMatcher::Regex(compiled) => assert_eq!(compiled.as_str(), r"\d+"),
                other => panic!("unexpected matcher {:?}", other),
            }
        }
        other => panic!("unexpected filter {:?}", other),
    }
}

#[test]
fn object_credit_card_is_the_card_filter() {
    let spec = object(vec![("type", text("credit_card"))]);
    assert!(matches!(Filter::try_from(spec), Ok(Filter::CreditCard)));
}

#[test]
fn object_credit_card_ignores_other_keys() {
    let spec = object(vec![("patterns", ConfigValue::Null), ("type", text("credit_card"))]);
    assert!(matches!(Filter::try_from(spec), Ok(Filter::CreditCard)));
}

#[test]
fn object_pattern_keeps_matchers_in_order() {
    let spec = object(vec![
        ("type", text("pattern")),
        (
            "patterns",
            ConfigValue::List(vec![text("123456"), expr("[a-z]+"), text("")]),
        ),
    ]);
    match Filter::try_from(spec).unwrap() {
        Filter::Pattern(matchers) => {
            assert_eq!(matchers.len(), 3);
            assert!(matches!(&matchers[0], PatternMatcher::Literal(s) if s == "123456"));
            assert!(matches!(&matchers[1], PatternMatcher::Regex(r) if r.as_str() == "[a-z]+"));
            assert!(matches!(&matchers[2], PatternMatcher::Literal(s) if s.is_empty()));
        }
        other => panic!("unexpected filter {:?}", other),
    }
}

#[test]
fn object_keys_may_come_in_any_order() {
    let spec = object(vec![
        ("patterns", ConfigValue::List(vec![text("x")])),
        ("type", text("pattern")),
    ]);
    assert!(matches!(Filter::try_from(spec), Ok(Filter::Pattern(m)) if m.len() == 1));
}

#[test]
fn object_takes_first_of_repeated_keys() {
    let spec = object(vec![("type", text("credit_card")), ("type", text("nonsense"))]);
    assert!(matches!(Filter::try_from(spec), Ok(Filter::CreditCard)));
    let spec = object(vec![("type", text("nonsense")), ("type", text("credit_card"))]);
    assert_eq!(Filter::try_from(spec).unwrap_err(), FilterError::UnknownFilterName);
}

#[test]
fn object_without_type_is_refused() {
    let spec = object(vec![("patterns", ConfigValue::List(vec![text("x")]))]);
    assert_eq!(Filter::try_from(spec).unwrap_err(), FilterError::MissingTypeField);
    assert_eq!(Filter::try_from(object(vec![])).unwrap_err(), FilterError::MissingTypeField);
}

#[test]
fn object_with_type_that_is_no_string_is_refused() {
    for bad in [
        ConfigValue::Integer(1),
        ConfigValue::Boolean(true),
        ConfigValue::Null,
        expr("pattern"),
        ConfigValue::List(vec![text("pattern")]),
        object(vec![]),
    ] {
        let spec = object(vec![("type", bad)]);
        assert_eq!(Filter::try_from(spec).unwrap_err(), FilterError::InvalidTypeValue);
    }
}

#[test]
fn object_with_unknown_type_is_refused() {
    let spec = object(vec![("type", text("phone")), ("patterns", ConfigValue::List(vec![]))]);
    assert_eq!(Filter::try_from(spec).unwrap_err(), FilterError::UnknownFilterName);
}

#[test]
fn pattern_object_without_patterns_is_refused() {
    let spec = object(vec![("type", text("pattern"))]);
    assert_eq!(Filter::try_from(spec).unwrap_err(), FilterError::MissingPatternsField);
}

#[test]
fn patterns_must_be_a_list() {
    for bad in [text("123"), expr("123"), ConfigValue::Null, ConfigValue::Integer(3), object(vec![])] {
        let spec = object(vec![("type", text("pattern")), ("patterns", bad)]);
        assert_eq!(Filter::try_from(spec).unwrap_err(), FilterError::InvalidPatternsShape);
    }
}

#[test]
fn patterns_must_not_be_empty() {
    let spec = object(vec![("type", text("pattern")), ("patterns", ConfigValue::List(vec![]))]);
    assert_eq!(Filter::try_from(spec).unwrap_err(), FilterError::InvalidPatternsShape);
}

#[test]
fn patterns_entries_must_be_strings_or_regexes() {
    for bad in [
        ConfigValue::Integer(7),
        ConfigValue::Boolean(false),
        ConfigValue::Null,
        ConfigValue::List(vec![]),
        object(vec![]),
    ] {
        let spec = object(vec![
            ("type", text("pattern")),
            ("patterns", ConfigValue::List(vec![text("ok"), bad, expr("ok")])),
        ]);
        assert_eq!(Filter::try_from(spec).unwrap_err(), FilterError::InvalidPatternsShape);
    }
}

#[test]
fn other_literals_are_refused() {
    for bad in [
        ConfigValue::Integer(0),
        ConfigValue::Boolean(true),
        ConfigValue::Null,
        ConfigValue::List(vec![text("credit_card")]),
    ] {
        assert_eq!(Filter::try_from(bad).unwrap_err(), FilterError::InvalidFilterLiteral);
    }
}

#[test]
fn filter_set_keeps_filters_in_order() {
    let set = FilterSet::new(vec![
        text("credit_card"),
        expr("a+"),
        object(vec![("type", text("pattern")), ("patterns", ConfigValue::List(vec![text("b")]))]),
    ])
    .unwrap();
    assert_eq!(set.len(), 3);
    let filters = set.filters();
    assert!(matches!(&filters[0], Filter::CreditCard));
    assert!(matches!(&filters[1], Filter::Pattern(m) if matches!(&m[0], PatternMatcher::Regex(_))));
    assert!(matches!(&filters[2], Filter::Pattern(m) if matches!(&m[0], PatternMatcher::Literal(_))));
}

#[test]
fn filter_set_reports_the_first_error() {
    let result = FilterSet::new(vec![
        text("credit_card"),
        object(vec![("type", text("pattern"))]),
        text("pattern"),
        ConfigValue::Integer(1),
    ]);
    assert_eq!(result.unwrap_err(), FilterError::MissingPatternsField);

    let result = FilterSet::new(vec![text("pattern"), object(vec![("type", text("pattern"))])]);
    assert_eq!(result.unwrap_err(), FilterError::BareArgumentlessPattern);
}

#[test]
fn filter_set_with_missing_patterns_fails() {
    let result = FilterSet::new(vec![object(vec![("type", text("pattern"))])]);
    assert_eq!(result.unwrap_err(), FilterError::MissingPatternsField);
}

#[test]
fn filter_set_with_bare_pattern_fails() {
    let result = FilterSet::new(vec![text("pattern")]);
    assert_eq!(result.unwrap_err(), FilterError::BareArgumentlessPattern);
}

#[test]
fn every_error_has_its_own_message() {
    let errors = [
        FilterError::MissingTypeField,
        FilterError::InvalidTypeValue,
        FilterError::UnknownFilterName,
        FilterError::BareArgumentlessPattern,
        FilterError::MissingPatternsField,
        FilterError::InvalidPatternsShape,
        FilterError::InvalidFilterLiteral,
    ];
    for (i, a) in errors.iter().enumerate() {
        assert!(!a.message().is_empty());
        for b in errors.iter().skip(i + 1) {
            assert_ne!(a.message(), b.message());
        }
    }
    assert_eq!(FilterError::UnknownFilterName.message(), "unknown filter name");
    assert_eq!(
        FilterError::BareArgumentlessPattern.message(),
        "pattern cannot be used without arguments"
    );
}

#[test]
fn compiled_regex_keeps_its_pattern() {
    let compiled = CompiledRegex::new(r"\d{3}-\d{4}").unwrap();
    assert_eq!(compiled.as_str(), r"\d{3}-\d{4}");
}

#[test]
fn compiled_regex_rejects_a_broken_pattern() {
    assert!(CompiledRegex::new("foo(bar").is_none());
}

#[test]
fn compiled_regex_replaces_all_matches() {
    let compiled = CompiledRegex::new("[0-9]+").unwrap();
    assert_eq!(compiled.replace_all("a1b22c333", "#"), "a#b#c#");
    assert_eq!(compiled.replace_all("no digits", "#"), "no digits");
}

#[test]
fn filter_set_from_filters_checks_the_filters() {
    let set = FilterSet::from_filters(vec![
        Filter::CreditCard,
        Filter::Pattern(vec![PatternMatcher::Literal("x".to_string())]),
    ])
    .unwrap();
    assert_eq!(set.len(), 2);
    assert!(matches!(&set.filters()[0], Filter::CreditCard));

    assert!(FilterSet::from_filters(vec![]).is_none());
    assert!(FilterSet::from_filters(vec![Filter::CreditCard, Filter::Pattern(vec![])]).is_none());
    assert!(FilterSet::from_filters(vec![Filter::Pattern(vec![])]).is_none());
}
