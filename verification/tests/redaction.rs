use redact::compiled::CompiledRegex;
use redact::config::ConfigValue;
use redact::engine::RedactionEngine;
use redact::filter::{Filter, FilterSet, PatternMatcher, CREDIT_CARD_PATTERN};
use redact::redactor::{Redactor, UnknownRedactor};
use redact::value::Value;

fn text(s: &str) -> ConfigValue {
    ConfigValue::String(s.to_string())
}

fn expr(pattern: &str) -> ConfigValue {
    ConfigValue::Regex(CompiledRegex::new(pattern).unwrap())
}

fn patterns(entries: Vec<ConfigValue>) -> ConfigValue {
    ConfigValue::Object(vec![
        ("type".to_string(), text("pattern")),
        ("patterns".to_string(), ConfigValue::List(entries)),
    ])
}

fn string(s: &str) -> Value {
    Value::String(s.to_string())
}

fn run(value: Value, specs: Vec<ConfigValue>) -> Value {
    let engine = RedactionEngine::new().unwrap();
    let filters = FilterSet::new(specs).unwrap();
    engine.redact(value, &filters, &Redactor::Full)
}

fn run_text(input: &str, specs: Vec<ConfigValue>) -> String {
    let engine = RedactionEngine::new().unwrap();
    let filters = FilterSet::new(specs).unwrap();
    filters.redact(input, &Redactor::Full, &engine)
}

#[test]
fn regex_filter_redacts_digits() {
    assert_eq!(
        run(string("hello 123456 world"), vec![expr(r"\d+")]),
        string("hello [REDACTED] world")
    );
}

#[test]
fn pattern_filter_redacts_literal() {
    assert_eq!(
        run(string("hello 123456 world"), vec![patterns(vec![text("123456")])]),
        string("hello [REDACTED] world")
    );
}

#[test]
fn credit_card_filter_redacts_card_number() {
    assert_eq!(
        run(string("hello 4916155524184782 world"), vec![text("credit_card")]),
        string("hello [REDACTED] world")
    );
}

#[test]
fn credit_card_filter_as_object() {
    let spec = ConfigValue::Object(vec![("type".to_string(), text("credit_card"))]);
    assert_eq!(
        run(string("hello 4916155524184782 world"), vec![spec]),
        string("hello [REDACTED] world")
    );
}

#[test]
fn credit_card_filter_knows_the_card_schemes() {
    for number in [
        "4222222222222",
        "4916155524184782",
        "5555555555554444",
        "5105105105105100",
        "2221000000000009",
        "2720991234567890",
        "2500000000000001",
        "378282246310005",
        "30569309025904",
        "6011111111111117",
        "3530111333300000",
        "213112345678901",
    ] {
        let input = format!("card {} end", number);
        assert_eq!(run_text(&input, vec![text("credit_card")]), "card [REDACTED] end");
    }
}

#[test]
fn credit_card_filter_leaves_other_digits() {
    assert_eq!(run_text("call 123-456-7890", vec![text("credit_card")]), "call 123-456-7890");
    assert_eq!(run_text("id 1234567890", vec![text("credit_card")]), "id 1234567890");
}

#[test]
fn mapping_values_are_redacted_and_numbers_kept() {
    let input = Value::Mapping(vec![
        ("a".to_string(), string("call 123-456-7890")),
        ("b".to_string(), Value::Number(42)),
    ]);
    let expected = Value::Mapping(vec![
        ("a".to_string(), string("call [REDACTED]")),
        ("b".to_string(), Value::Number(42)),
    ]);
    assert_eq!(run(input, vec![expr(r"\d{3}-\d{3}-\d{4}")]), expected);
}

#[test]
fn scalars_pass_through() {
    let specs = || vec![expr(r"\d+"), text("credit_card"), patterns(vec![text("true")])];
    assert_eq!(run(Value::Number(123456), specs()), Value::Number(123456));
    assert_eq!(run(Value::Number(-1), specs()), Value::Number(-1));
    assert_eq!(run(Value::Boolean(true), specs()), Value::Boolean(true));
    assert_eq!(run(Value::Boolean(false), specs()), Value::Boolean(false));
    assert_eq!(run(Value::Null, specs()), Value::Null);
}

#[test]
fn sequence_keeps_length_and_order() {
    let input = Value::Sequence(vec![
        string("one 1"),
        Value::Number(2),
        string("three"),
        Value::Null,
        string("55"),
    ]);
    let expected = Value::Sequence(vec![
        string("one [REDACTED]"),
        Value::Number(2),
        string("three"),
        Value::Null,
        string("[REDACTED]"),
    ]);
    assert_eq!(run(input, vec![expr(r"\d+")]), expected);
    assert_eq!(run(Value::Sequence(vec![]), vec![expr(r"\d+")]), Value::Sequence(vec![]));
}

#[test]
fn mapping_keeps_keys_and_order() {
    let input = Value::Mapping(vec![
        ("z 9".to_string(), string("9")),
        ("a 1".to_string(), string("1 and 2")),
        ("m".to_string(), Value::Boolean(true)),
    ]);
    let expected = Value::Mapping(vec![
        ("z 9".to_string(), string("[REDACTED]")),
        ("a 1".to_string(), string("[REDACTED] and [REDACTED]")),
        ("m".to_string(), Value::Boolean(true)),
    ]);
    assert_eq!(run(input, vec![expr(r"\d")]), expected);
    assert_eq!(run(Value::Mapping(vec![]), vec![expr(r"\d")]), Value::Mapping(vec![]));
}

#[test]
fn nested_values_are_redacted_at_every_depth() {
    let input = Value::Mapping(vec![
        (
            "list".to_string(),
            Value::Sequence(vec![
                Value::Mapping(vec![("deep".to_string(), string("pin 0000"))]),
                Value::Sequence(vec![string("0"), Value::Sequence(vec![string("x1y")])]),
            ]),
        ),
        ("top".to_string(), string("77")),
    ]);
    let expected = Value::Mapping(vec![
        (
            "list".to_string(),
            Value::Sequence(vec![
                Value::Mapping(vec![("deep".to_string(), string("pin [REDACTED]"))]),
                Value::Sequence(vec![
                    string("[REDACTED]"),
                    Value::Sequence(vec![string("x[REDACTED]y")]),
                ]),
            ]),
        ),
        ("top".to_string(), string("[REDACTED]")),
    ]);
    assert_eq!(run(input, vec![expr(r"\d+")]), expected);
}

#[test]
fn filter_order_is_significant() {
    let a = || patterns(vec![text("a")]);
    let b = || patterns(vec![text("[")]);
    assert_eq!(run_text("a", vec![a(), b()]), "[REDACTED]REDACTED]");
    assert_eq!(run_text("a", vec![b(), a()]), "[REDACTED]");

    let digits = || expr(r"\d+");
    let word = || expr("REDACTED");
    assert_eq!(run_text("id 42", vec![digits(), word()]), "id [[REDACTED]]");
    assert_eq!(run_text("id 42", vec![word(), digits()]), "id [REDACTED]");
}

#[test]
fn later_matcher_sees_output_of_earlier_one() {
    assert_eq!(
        run_text("x123", vec![patterns(vec![text("123"), text("RED")])]),
        "x[[REDACTED]ACTED]"
    );
    assert_eq!(
        run_text("x123", vec![patterns(vec![text("RED"), text("123")])]),
        "x[REDACTED]"
    );
    assert_eq!(
        run_text("abc", vec![patterns(vec![text("b"), text("abc")])]),
        "a[REDACTED]c"
    );
}

#[test]
fn redacting_twice_is_redacting_once_when_nothing_matches_the_output() {
    let specs = || vec![expr(r"\d+"), text("credit_card"), patterns(vec![text("secret")])];
    let input = || {
        Value::Sequence(vec![
            string("pin 1234, card 4916155524184782"),
            Value::Mapping(vec![("k".to_string(), string("a secret and 7"))]),
            Value::Number(5),
        ])
    };
    let once = run(input(), specs());
    let twice = run(run(input(), specs()), specs());
    assert_eq!(once, twice);
    assert_eq!(
        once,
        Value::Sequence(vec![
            string("pin [REDACTED], card [REDACTED]"),
            Value::Mapping(vec![("k".to_string(), string("a [REDACTED] and [REDACTED]"))]),
            Value::Number(5),
        ])
    );
}

#[test]
fn redacting_twice_differs_when_a_filter_matches_the_marker() {
    let specs = || vec![patterns(vec![text("E")])];
    let once = run_text("E", specs());
    let twice = run_text(&once, specs());
    assert_eq!(once, "[REDACTED]");
    assert_eq!(twice, "[R[REDACTED]DACT[REDACTED]D]");
}

#[test]
fn regex_replacement_is_leftmost_and_non_overlapping() {
    assert_eq!(run_text("aaaa", vec![expr("aa")]), "[REDACTED][REDACTED]");
    assert_eq!(run_text("aaa", vec![expr("aa")]), "[REDACTED]a");
}

#[test]
fn filter_redact_applies_one_filter() {
    let engine = RedactionEngine::new().unwrap();
    let filter = Filter::try_from(expr("[a-c]")).unwrap();
    assert_eq!(filter.redact("a-d", &Redactor::Full, &engine), "[REDACTED]-d");
    let card = Filter::try_from(text("credit_card")).unwrap();
    assert_eq!(card.redact("4916155524184782", &Redactor::Full, &engine), "[REDACTED]");
    let both = Filter::Pattern(vec![
        PatternMatcher::Literal("-".to_string()),
        PatternMatcher::Regex(CompiledRegex::new("[A-Z]+").unwrap()),
    ]);
    assert_eq!(both.redact("a-b", &Redactor::Full, &engine), "a[[REDACTED]]b");
}

#[test]
fn matcher_redact_applies_one_matcher() {
    let literal = PatternMatcher::Literal("o".to_string());
    assert_eq!(literal.redact("foo", &Redactor::Full), "f[REDACTED][REDACTED]");
    let expression = PatternMatcher::Regex(CompiledRegex::new("o+").unwrap());
    assert_eq!(expression.redact("foo", &Redactor::Full), "f[REDACTED]");
}

#[test]
fn engine_holds_the_built_in_pattern() {
    let engine = RedactionEngine::new().unwrap();
    assert_eq!(engine.card().as_str(), CREDIT_CARD_PATTERN);
}

#[test]
fn engine_accepts_only_the_built_in_pattern() {
    let card = CompiledRegex::new(CREDIT_CARD_PATTERN).unwrap();
    assert!(RedactionEngine::with_card(card).is_some());
    let other = CompiledRegex::new(r"\d{16}").unwrap();
    assert!(RedactionEngine::with_card(other).is_none());
}

#[test]
fn built_in_pattern_is_the_documented_expression() {
    assert_eq!(
        CREDIT_CARD_PATTERN,
        r"(?:4[0-9]{12}(?:[0-9]{3})?|5[1-5][0-9]{14}|2(?:22[1-9]|2[3-9][0-9]|[3-6][0-9]{2}|7[01][0-9]|720)[0-9]{12}|6(?:011|5[0-9][0-9])[0-9]{12}|3[47][0-9]{13}|3(?:0[0-5]|[68][0-9])[0-9]{11}|(?:2131|1800|35\d{3})\d{11})"
    );
}

#[test]
fn full_redactor_marker() {
    assert_eq!(Redactor::Full.pattern(), "[REDACTED]");
}

#[test]
fn redactor_default_is_full() {
    assert_eq!(Redactor::default(), Redactor::Full);
}

#[test]
fn redactor_from_str() {
    assert_eq!(Redactor::from_str("full"), Ok(Redactor::Full));
    assert_eq!(Redactor::from_str("Full"), Err(UnknownRedactor));
    assert_eq!(Redactor::from_str(""), Err(UnknownRedactor));
    assert_eq!(Redactor::from_str("partial"), Err(UnknownRedactor));
    assert_eq!(UnknownRedactor.message(), "unknown redactor");
}

fn shared_between_threads<T: Send + Sync>() {}

#[test]
fn filters_and_engine_can_be_shared_between_threads() {
    shared_between_threads::<FilterSet>();
    shared_between_threads::<Redactor>();
    shared_between_threads::<RedactionEngine>();
    shared_between_threads::<Filter>();
}

#[test]
fn empty_literal_puts_the_marker_everywhere() {
    assert_eq!(
        run_text("ab", vec![patterns(vec![text("")])]),
        "[REDACTED]a[REDACTED]b[REDACTED]"
    );
}

#[test]
fn filter_set_redact_of_text_without_matches() {
    assert_eq!(
        run_text("nothing to hide", vec![expr(r"\d+"), text("credit_card")]),
        "nothing to hide"
    );
    assert_eq!(run_text("", vec![expr(r"\d+")]), "");
}

#[test]
fn redactor_parses_from_its_name() {
    assert_eq!("full".parse::<Redactor>(), Ok(Redactor::Full));
    assert_eq!("none".parse::<Redactor>(), Err(UnknownRedactor));
}

#[test]
fn credit_card_filter_leaves_sixteen_digits_outside_the_card_ranges() {
    for number in [
        "5612345678901234",
        "5012345678901234",
        "2112345678901234",
        "2220999999999999",
        "2721000000000000",
    ] {
        assert_eq!(run_text(number, vec![text("credit_card")]), number);
        let input = format!("card {} end", number);
        assert_eq!(run_text(&input, vec![text("credit_card")]), input);
    }
}

#[test]
fn credit_card_filter_keeps_to_the_ends_of_the_card_ranges() {
    for number in ["5100000000000000", "5599999999999999", "2221000000000000", "2720999999999999"] {
        assert_eq!(run_text(number, vec![text("credit_card")]), "[REDACTED]");
    }
}

#[test]
fn engine_is_built_from_the_built_in_pattern() {
    assert!(CompiledRegex::new(CREDIT_CARD_PATTERN).is_some());
    assert!(RedactionEngine::new().is_some());
}
