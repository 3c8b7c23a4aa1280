use vesper::dict::Dict;
use vesper::number::Float;
use vesper::numerics::{Halt, NumericFact, NumericFacts, NumericQuery, Operator};
use vesper::render::{debug_value, display_value};
use vesper::text::{
    append, equal, find, from_chars, int_to_decimal, is_whitespace, matches_at, parse_int,
    replace_all, slice, to_chars, trim,
};
use vesper::types::default_true;
use vesper::{Value, VesperError};

fn float(x: f64) -> Float {
    Float::from_bits(x.to_bits())
}

fn number(f: Float) -> f64 {
    f64::from_bits(f.to_bits())
}

fn answer(query: NumericQuery) -> NumericFact {
    match query {
        NumericQuery::Parse(text) => {
            let parsed = text.parse::<f64>().ok().map(float);
            NumericFact::Parsed(text, parsed)
        }
        NumericQuery::FromInt(i) => NumericFact::Converted(i, float(i as f64)),
        NumericQuery::Apply(op, a, b) => {
            let (x, y) = (number(a), number(b));
            let r = match op {
                Operator::Add => x + y,
                Operator::Subtract => x - y,
                Operator::Multiply => x * y,
                Operator::Divide => x / y,
            };
            NumericFact::Applied(op, a, b, float(r))
        }
        NumericQuery::Display(a) => NumericFact::Displayed(a, number(a).to_string()),
        NumericQuery::Debug(a) => NumericFact::Debugged(a, format!("{:?}", number(a))),
    }
}

fn chars(s: &str) -> Vec<char> {
    s.chars().collect()
}

fn text(v: Vec<char>) -> String {
    v.into_iter().collect()
}

fn values(pairs: Vec<(&str, Value)>) -> Dict<Value> {
    let mut d = Dict::new();
    for (name, value) in pairs {
        d.insert(name.to_string(), value);
    }
    d
}

fn settle<T>(mut attempt: impl FnMut(&NumericFacts) -> Result<T, Halt>) -> Result<T, VesperError> {
    let mut facts = NumericFacts::new();
    loop {
        match attempt(&facts) {
            Ok(result) => return Ok(result),
            Err(Halt::Failed(e)) => return Err(e),
            Err(Halt::Pending(query)) => facts.record(answer(query)),
        }
    }
}

#[test]
fn chars_and_strings_convert_both_ways() {
    assert_eq!(to_chars("héllo ✓"), chars("héllo ✓"));
    assert_eq!(from_chars(&chars("héllo ✓")), "héllo ✓");
    assert_eq!(from_chars(&to_chars("")), "");
    assert_eq!(from_chars(&chars("ab")).len(), 2);
}

#[test]
fn slices_and_joins() {
    assert_eq!(text(slice(&chars("hello"), 1, 3)), "el");
    assert_eq!(text(slice(&chars("hello"), 2, 2)), "");
    let mut out = chars("x");
    append(&mut out, &chars("yz"));
    assert_eq!(text(out), "xyz");
    assert!(equal(&chars("same"), &chars("same")));
    assert!(!equal(&chars("same"), &chars("sane")));
    assert!(!equal(&chars("same"), &chars("sam")));
}

#[test]
fn find_gives_the_first_place() {
    assert_eq!(find(&chars("a == b == c"), &chars("==")), Some(2));
    assert_eq!(find(&chars("abc"), &chars("abc")), Some(0));
    assert_eq!(find(&chars("abc"), &chars("abcd")), None);
    assert_eq!(find(&chars("abc"), &chars("x")), None);
    assert_eq!(find(&chars("abc"), &chars("")), Some(0));
    assert_eq!(find(&chars(""), &chars("")), Some(0));
    assert_eq!(find(&chars("aab"), &chars("ab")), Some(1));
    assert!(matches_at(&chars("aab"), &chars("ab"), 1));
    assert!(!matches_at(&chars("aab"), &chars("ab"), 0));
}

#[test]
fn trim_takes_white_space_off_both_ends() {
    assert_eq!(text(trim(&chars("  a b \t\n"))), "a b");
    assert_eq!(text(trim(&chars("\u{a0}\u{3000}x\u{2003}\u{85}"))), "x");
    assert_eq!(text(trim(&chars("   "))), "");
    assert_eq!(text(trim(&chars(""))), "");
    assert_eq!(text(trim(&chars("\u{200b}x"))), "\u{200b}x");
    for c in ['\t', '\n', '\u{b}', '\u{c}', '\r', ' ', '\u{1680}', '\u{2028}', '\u{202f}'] {
        assert!(is_whitespace(c));
    }
    for c in ['a', '\u{8}', '\u{e}', '\u{200b}', '\u{feff}'] {
        assert!(!is_whitespace(c));
    }
    for n in 0..0x3100u32 {
        if let Some(c) = char::from_u32(n) {
            assert_eq!(is_whitespace(c), c.is_whitespace());
        }
    }
}

#[test]
fn replace_all_replaces_from_the_left() {
    assert_eq!(text(replace_all(&chars("a{x}b{x}"), &chars("{x}"), &chars("12"))), "a12b12");
    assert_eq!(text(replace_all(&chars("aaa"), &chars("aa"), &chars("b"))), "ba");
    assert_eq!(text(replace_all(&chars("abc"), &chars("x"), &chars("y"))), "abc");
    assert_eq!(text(replace_all(&chars("xx"), &chars("x"), &chars("xx"))), "xxxx");
    assert_eq!(text(replace_all(&chars(""), &chars("x"), &chars("y"))), "");
    assert_eq!(text(replace_all(&chars("abab"), &chars("ab"), &chars(""))), "");
}

#[test]
fn integers_are_parsed_as_the_standard_library_parses_them() {
    let cases = [
        "0", "7", "-7", "+7", "0012", "-0", "+", "-", "", " 1", "1 ", "1_000", "12a", "--1", "+-1",
        "9223372036854775807", "9223372036854775808", "-9223372036854775808",
        "-9223372036854775809", "99999999999999999999999", "000000000000000000000000001", "１",
    ];
    for case in cases {
        assert_eq!(parse_int(&chars(case)), case.parse::<i64>().ok(), "{:?}", case);
    }
    assert_eq!(parse_int(&chars("-9223372036854775808")), Some(i64::MIN));
    assert_eq!(parse_int(&chars("9223372036854775807")), Some(i64::MAX));
    assert_eq!(parse_int(&chars("42")), Some(42));
}

#[test]
fn integers_are_written_in_decimal() {
    for n in [0, 1, 9, 10, -1, -10, 12345, i64::MAX, i64::MIN, i64::MIN + 1] {
        assert_eq!(text(int_to_decimal(n)), n.to_string());
    }
    assert_eq!(text(int_to_decimal(-9223372036854775808)), "-9223372036854775808");
}

#[test]
fn floats_are_read_by_their_bits() {
    assert!(float(f64::NAN).is_nan());
    assert!(float(-f64::NAN).is_nan());
    assert!(!float(f64::INFINITY).is_nan());
    assert!(!float(1.0).is_nan());
    assert!(float(0.0).is_zero());
    assert!(float(-0.0).is_zero());
    assert!(!float(5e-324).is_zero());
    assert_eq!(float(1.5).to_bits(), 1.5f64.to_bits());
    let samples = [
        0.0, -0.0, 1.0, -1.0, 0.5, -0.5, 1.5, 5e-324, -5e-324, 2.2250738585072014e-308,
        f64::MAX, f64::MIN, f64::INFINITY, f64::NEG_INFINITY, f64::NAN, 9007199254740992.0,
        9007199254740993.0, 4503599627370496.5, 4503599627370497.0, 9223372036854775808.0,
        -9223372036854775808.0, 9223372036854774784.0, -9223372036854777856.0, 1e300, -1e300,
        3.0, 1024.0, 0.1, 123456789.0, 123456789.25,
    ];
    for a in samples {
        let expected = if a.fract() == 0.0 { Some(a as i64) } else { None };
        assert_eq!(float(a).to_int(), expected, "{:?}", a);
        for b in samples {
            assert_eq!(float(a).lt(&float(b)), a < b, "{:?} < {:?}", a, b);
            assert_eq!(float(a).gt(&float(b)), a > b, "{:?} > {:?}", a, b);
            assert_eq!(float(a) == float(b), a == b, "{:?} == {:?}", a, b);
        }
    }
    assert_eq!(float(3.0).to_int(), Some(3));
    assert_eq!(float(1e300).to_int(), Some(i64::MAX));
    assert_eq!(float(0.5).to_int(), None);
}

#[test]
fn truthiness() {
    assert!(!Value::Null.is_truthy());
    assert!(Value::Bool(true).is_truthy());
    assert!(!Value::Bool(false).is_truthy());
    assert!(Value::Int(-1).is_truthy());
    assert!(!Value::Int(0).is_truthy());
    assert!(Value::Float(float(0.1)).is_truthy());
    assert!(!Value::Float(float(0.0)).is_truthy());
    assert!(!Value::Float(float(-0.0)).is_truthy());
    assert!(Value::Float(float(f64::NAN)).is_truthy());
    assert!(Value::String("x".to_string()).is_truthy());
    assert!(!Value::String(String::new()).is_truthy());
    assert!(Value::Array(vec![Value::Null]).is_truthy());
    assert!(!Value::Array(vec![]).is_truthy());
    assert!(Value::Object(values(vec![("k", Value::Null)])).is_truthy());
    assert!(!Value::Object(Dict::new()).is_truthy());
}

#[test]
fn accessors() {
    assert_eq!(Value::String("x".to_string()).as_str(), Some("x"));
    assert_eq!(Value::Int(1).as_str(), None);
    assert_eq!(Value::Int(7).as_int(), Some(7));
    assert_eq!(Value::Float(float(7.0)).as_int(), None);
    let f = settle(|facts| Value::Float(float(2.5)).as_float(facts)).unwrap();
    assert_eq!(f.map(number), Some(2.5));
    let f = settle(|facts| Value::Int(3).as_float(facts)).unwrap();
    assert_eq!(f.map(number), Some(3.0));
    let f = settle(|facts| Value::Null.as_float(facts)).unwrap();
    assert!(f.is_none());
    let facts = NumericFacts::new();
    assert!(matches!(
        Value::Int(3).as_float(&facts),
        Err(Halt::Pending(NumericQuery::FromInt(3)))
    ));
}

#[test]
fn conversions_into_values() {
    assert_eq!(Value::from("x".to_string()), Value::String("x".to_string()));
    assert_eq!(Value::from_str("x"), Value::String("x".to_string()));
    assert_eq!(Value::from(5i64), Value::Int(5));
    assert_eq!(Value::from(true), Value::Bool(true));
    assert_eq!(Value::from(float(1.5)), Value::Float(float(1.5)));
    assert!(default_true());
}

#[test]
fn equality_is_structural() {
    assert_eq!(Value::Null, Value::Null);
    assert_ne!(Value::Null, Value::Bool(false));
    assert_ne!(Value::Int(1), Value::Float(float(1.0)));
    assert_eq!(Value::Float(float(0.0)), Value::Float(float(-0.0)));
    assert_ne!(Value::Float(float(f64::NAN)), Value::Float(float(f64::NAN)));
    assert_eq!(
        Value::Array(vec![Value::Int(1), Value::String("a".to_string())]),
        Value::Array(vec![Value::Int(1), Value::String("a".to_string())])
    );
    assert_ne!(
        Value::Array(vec![Value::Int(1), Value::Int(2)]),
        Value::Array(vec![Value::Int(2), Value::Int(1)])
    );
    assert_ne!(Value::Array(vec![Value::Int(1)]), Value::Array(vec![Value::Int(1), Value::Int(1)]));
    // In an object the order plays no part.
    assert_eq!(
        Value::Object(values(vec![("a", Value::Int(1)), ("b", Value::Int(2))])),
        Value::Object(values(vec![("b", Value::Int(2)), ("a", Value::Int(1))]))
    );
    assert_ne!(
        Value::Object(values(vec![("a", Value::Int(1)), ("b", Value::Int(2))])),
        Value::Object(values(vec![("a", Value::Int(1)), ("c", Value::Int(2))]))
    );
    assert_ne!(
        Value::Object(values(vec![("a", Value::Int(1))])),
        Value::Object(values(vec![("a", Value::Int(1)), ("b", Value::Int(2))]))
    );
    let nested = Value::Object(values(vec![(
        "list",
        Value::Array(vec![Value::Object(values(vec![("x", Value::Float(float(1.5)))]))]),
    )]));
    assert_eq!(nested.clone(), nested);
    assert!(nested.equals(&nested.clone()));
}

#[test]
fn a_dictionary_keeps_the_order_of_first_binding() {
    let mut d: Dict<i64> = Dict::new();
    assert!(d.is_empty());
    d.insert("b".to_string(), 1);
    d.insert("a".to_string(), 2);
    d.insert("b".to_string(), 3);
    assert_eq!(d.len(), 2);
    assert!(!d.is_empty());
    assert_eq!(d.entry(0).key, "b");
    assert_eq!(d.entry(0).value, 3);
    assert_eq!(d.entry(1).key, "a");
    assert_eq!(d.get("a"), Some(&2));
    assert_eq!(d.get("c"), None);
    assert!(d.contains_key("b"));
    assert!(!d.contains_key("B"));
    let copy = d.clone();
    assert_eq!(copy.len(), 2);
    assert_eq!(copy.get("b"), Some(&3));
    d.clear();
    assert_eq!(d.len(), 0);
    assert_eq!(copy.len(), 2);
}

#[test]
fn the_representation_for_debugging() {
    let show = |v: Value| settle(|facts| debug_value(&v, facts)).unwrap();
    assert_eq!(show(Value::Null), "Null");
    assert_eq!(show(Value::Bool(false)), "Bool(false)");
    assert_eq!(show(Value::Int(-5)), "Int(-5)");
    assert_eq!(show(Value::Float(float(1.0))), "Float(1.0)");
    assert_eq!(show(Value::Float(float(1e20))), "Float(1e20)");
    assert_eq!(show(Value::String("a\"b\n".to_string())), "String(\"a\\\"b\\n\")");
    assert_eq!(show(Value::Array(vec![])), "Array([])");
    assert_eq!(show(Value::Object(Dict::new())), "Object({})");
    assert_eq!(
        show(Value::Object(values(vec![
            ("a\"", Value::Array(vec![Value::Null, Value::Int(1)])),
            ("b", Value::Object(values(vec![("c", Value::Bool(true))]))),
        ]))),
        "Object({\"a\\\"\": Array([Null, Int(1)]), \"b\": Object({\"c\": Bool(true)})})"
    );
}

#[test]
fn the_form_for_templates() {
    let show = |v: Value| settle(|facts| display_value(&v, facts)).unwrap();
    assert_eq!(show(Value::String("a\"b".to_string())), "a\"b");
    assert_eq!(show(Value::Int(-5)), "-5");
    assert_eq!(show(Value::Float(float(1.0))), "1");
    assert_eq!(show(Value::Float(float(1e20))), "100000000000000000000");
    assert_eq!(show(Value::Bool(true)), "true");
    assert_eq!(show(Value::Null), "Null");
    assert_eq!(show(Value::Array(vec![Value::Float(float(0.5))])), "Array([Float(0.5)])");
    let facts = NumericFacts::new();
    assert!(matches!(
        display_value(&Value::Float(float(1.0)), &facts),
        Err(Halt::Pending(NumericQuery::Display(_)))
    ));
    assert!(matches!(
        display_value(&Value::Array(vec![Value::Float(float(1.0))]), &facts),
        Err(Halt::Pending(NumericQuery::Debug(_)))
    ));
}

#[test]
fn facts_answer_queries() {
    let mut facts = NumericFacts::new();
    assert!(facts.lookup(&NumericQuery::FromInt(1)).is_none());
    facts.record(NumericFact::Converted(1, float(1.0)));
    facts.record(NumericFact::Converted(1, float(2.0)));
    facts.record(NumericFact::Parsed("x".to_string(), None));
    assert_eq!(facts.from_int(1).unwrap().to_bits(), 1.0f64.to_bits());
    assert!(matches!(facts.parse("x"), Ok(None)));
    assert!(matches!(facts.parse("y"), Err(Halt::Pending(NumericQuery::Parse(_)))));
    assert!(matches!(
        facts.apply(Operator::Add, float(1.0), float(1.0)),
        Err(Halt::Pending(NumericQuery::Apply(Operator::Add, _, _)))
    ));
    assert!(NumericFact::Converted(1, float(1.0)).answers(&NumericQuery::FromInt(1)));
    assert!(!NumericFact::Converted(1, float(1.0)).answers(&NumericQuery::FromInt(2)));
    assert!(!NumericFact::Displayed(float(0.0), "0".to_string())
        .answers(&NumericQuery::Display(float(-0.0))));
}

#[test]
fn the_message_of_each_error() {
    let s = |t: &str| t.to_string();
    assert_eq!(VesperError::ParseError(s("x")).message(), "Parse error: x");
    assert_eq!(
        VesperError::ValidationError { path: s("p"), message: s("m") }.message(),
        "Validation error at p: m"
    );
    assert_eq!(VesperError::PreconditionFailed(s("c")).message(), "Precondition failed: c");
    assert_eq!(VesperError::PostconditionFailed(s("c")).message(), "Postcondition failed: c");
    assert_eq!(VesperError::InvariantViolated(s("c")).message(), "Invariant violated: c");
    assert_eq!(
        VesperError::TypeError { expected: s("number"), actual: s("Null") }.message(),
        "Type error: expected number, got Null"
    );
    assert_eq!(VesperError::UnknownOperation(s("o")).message(), "Unknown operation: o");
    assert_eq!(VesperError::MissingInput(s("x")).message(), "Missing required input: x");
    assert_eq!(VesperError::ExecutionError(s("e")).message(), "Execution error: e");
    assert_eq!(VesperError::IoError(s("e")).message(), "IO error: e");
    assert_eq!(VesperError::YamlError(s("e")).message(), "YAML error: e");
    assert_eq!(VesperError::JsonError(s("e")).message(), "JSON error: e");
}
