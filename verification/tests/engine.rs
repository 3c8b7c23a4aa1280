use vesper::context::ExecutionContext;
use vesper::contracts::ContractValidator;
use vesper::flow::{execute_flow, is_known_operation, unknown_operations};
use vesper::dict::Dict;
use vesper::executor::ExecutionResult;
use vesper::number::Float;
use vesper::numerics::{Halt, NumericFact, NumericFacts, NumericQuery, Operator};
use vesper::types::{Contracts, FlowStep, InputSpec, Literal, LiteralPair, NodeType};
use vesper::{SemanticExecutor, Value, VesperError, VesperNode};

fn float(x: f64) -> Float {
    Float::from_bits(x.to_bits())
}

fn number(f: Float) -> f64 {
    f64::from_bits(f.to_bits())
}

fn answer(query: NumericQuery) -> NumericFact {
    match query {
        NumericQuery::Parse(text) => {
            let parsed = text.parse::<f64>().ok().map(float);
            NumericFact::Parsed(text, parsed)
        }
        NumericQuery::FromInt(i) => NumericFact::Converted(i, float(i as f64)),
        NumericQuery::Apply(op, a, b) => {
            let (x, y) = (number(a), number(b));
            let r = match op {
                Operator::Add => x + y,
                Operator::Subtract => x - y,
                Operator::Multiply => x * y,
                Operator::Divide => x / y,
            };
            NumericFact::Applied(op, a, b, float(r))
        }
        NumericQuery::Display(a) => NumericFact::Displayed(a, number(a).to_string()),
        NumericQuery::Debug(a) => NumericFact::Debugged(a, format!("{:?}", number(a))),
    }
}

fn step(name: &str, operation: &str) -> FlowStep {
    FlowStep {
        step: name.to_string(),
        operation: operation.to_string(),
        description: None,
        parameters: Dict::new(),
        guards: Vec::new(),
        condition: None,
        template: None,
        expression: None,
        output: None,
        on_success: None,
        on_error: None,
        on_failure: None,
        return_success: None,
        return_error: None,
    }
}

fn input(kind: &str, required: bool) -> InputSpec {
    InputSpec {
        input_type: kind.to_string(),
        required,
        constraints: Vec::new(),
        default: None,
        description: None,
    }
}

fn node(id: &str, inputs: Vec<(&str, InputSpec)>, flow: Vec<FlowStep>) -> VesperNode {
    let mut declared = Dict::new();
    for (name, spec) in inputs {
        declared.insert(name.to_string(), spec);
    }
    VesperNode {
        node_id: id.to_string(),
        node_type: NodeType::Function,
        intent: "test".to_string(),
        metadata: None,
        inputs: declared,
        outputs: None,
        types: Dict::new(),
        contracts: None,
        flow,
        performance: None,
        security: None,
    }
}

fn values(pairs: Vec<(&str, Value)>) -> Dict<Value> {
    let mut d = Dict::new();
    for (name, value) in pairs {
        d.insert(name.to_string(), value);
    }
    d
}

fn literals(pairs: Vec<(&str, Literal)>) -> Dict<Literal> {
    let mut d = Dict::new();
    for (name, value) in pairs {
        d.insert(name.to_string(), value);
    }
    d
}

fn run(
    executor: &SemanticExecutor,
    id: &str,
    inputs: &Dict<Value>,
) -> Result<ExecutionResult, VesperError> {
    let mut facts = NumericFacts::new();
    loop {
        match executor.execute(id, inputs.clone(), &facts) {
            Ok(result) => return Ok(result),
            Err(Halt::Failed(e)) => return Err(e),
            Err(Halt::Pending(query)) => facts.record(answer(query)),
        }
    }
}

fn arithmetic(id: &str, expression: &str) -> VesperNode {
    let mut s = step("compute", "arithmetic");
    s.expression = Some(expression.to_string());
    s.output = Some("result".to_string());
    node(
        id,
        vec![("a", input("integer", true)), ("b", input("integer", true))],
        vec![s],
    )
}

fn compute(expression: &str, a: Value, b: Value) -> Result<ExecutionResult, VesperError> {
    let mut executor = SemanticExecutor::new();
    executor.register(arithmetic("calc_v1", expression));
    run(&executor, "calc_v1", &values(vec![("a", a), ("b", b)]))
}

fn run_flow(flow: Vec<FlowStep>, inputs: Vec<(&str, Value)>) -> Result<ExecutionResult, VesperError> {
    let mut executor = SemanticExecutor::new();
    executor.register(node("flow_v1", vec![], flow));
    run(&executor, "flow_v1", &values(inputs))
}

fn execution_error(result: Result<ExecutionResult, VesperError>) -> String {
    match result {
        Err(VesperError::ExecutionError(message)) => message,
        other => panic!("expected an execution error, got {:?}", other),
    }
}

#[test]
fn test_execute_arithmetic() {
    let mut add = step("add", "arithmetic");
    add.expression = Some("a + b".to_string());
    add.output = Some("result".to_string());
    let node = node(
        "add_v1",
        vec![("a", input("integer", true)), ("b", input("integer", true))],
        vec![add],
    );

    let mut executor = SemanticExecutor::new();
    executor.register(node);

    let mut inputs = Dict::new();
    inputs.insert("a".to_string(), Value::Int(5));
    inputs.insert("b".to_string(), Value::Int(3));

    let result = run(&executor, "add_v1", &inputs).unwrap();

    assert!(result.success);
    assert_eq!(result.data, Some(Value::Int(8)));
}

#[test]
fn test_execute_template() {
    let mut greet = step("greet", "string_template");
    greet.template = Some("Hello, {name}!".to_string());
    greet.output = Some("message".to_string());
    let node = node("greet_v1", vec![("name", input("string", true))], vec![greet]);

    let mut executor = SemanticExecutor::new();
    executor.register(node);

    let mut inputs = Dict::new();
    inputs.insert("name".to_string(), Value::String("World".to_string()));

    let result = run(&executor, "greet_v1", &inputs).unwrap();

    assert!(result.success);
    assert_eq!(
        result.data,
        Some(Value::String("Hello, World!".to_string()))
    );
}

#[test]
fn division_with_a_fraction_gives_a_float() {
    let result = compute("a / b", Value::Int(7), Value::Int(2)).unwrap();
    assert_eq!(result.data, Some(Value::Float(float(3.5))));
    assert!(result.error.is_none());
}

#[test]
fn division_by_zero_is_an_execution_error() {
    let message = execution_error(compute("a / b", Value::Int(7), Value::Int(0)));
    assert_eq!(message, "Division by zero");
    let message = execution_error(compute("a / b", Value::Int(7), Value::Float(float(-0.0))));
    assert_eq!(message, "Division by zero");
}

#[test]
fn each_operator_computes() {
    assert_eq!(compute("a - b", Value::Int(5), Value::Int(8)).unwrap().data, Some(Value::Int(-3)));
    assert_eq!(compute("a * b", Value::Int(6), Value::Int(7)).unwrap().data, Some(Value::Int(42)));
    assert_eq!(compute("a / b", Value::Int(8), Value::Int(2)).unwrap().data, Some(Value::Int(4)));
    assert_eq!(
        compute("a + b", Value::Float(float(0.25)), Value::Int(1)).unwrap().data,
        Some(Value::Float(float(1.25)))
    );
}

fn unresolved(result: Result<ExecutionResult, VesperError>) -> String {
    match result {
        Err(VesperError::TypeError { expected, actual }) => {
            assert_eq!(expected, "number");
            actual
        }
        other => panic!("expected a type error, got {:?}", other),
    }
}

#[test]
fn the_first_operator_of_the_list_splits_the_expression() {
    // " + " comes before " * " in the list, so the left operand is "a * b",
    // which is neither a number nor a name.
    assert_eq!(unresolved(compute("a * b + 2", Value::Int(1), Value::Int(1))), "a * b");
    assert_eq!(unresolved(compute("10 - 2 + 3", Value::Int(1), Value::Int(1))), "10 - 2");
    // An operator without spaces around it is no operator.
    assert_eq!(unresolved(compute("a+b", Value::Int(1), Value::Int(1))), "a+b");
}

#[test]
fn an_expression_may_be_one_operand() {
    assert_eq!(compute("  a  ", Value::Int(9), Value::Int(0)).unwrap().data, Some(Value::Int(9)));
    assert_eq!(compute("2.5", Value::Int(9), Value::Int(0)).unwrap().data, Some(Value::Float(float(2.5))));
    assert_eq!(compute("1e3", Value::Int(9), Value::Int(0)).unwrap().data, Some(Value::Int(1000)));
}

#[test]
fn a_literal_comes_before_a_variable() {
    // "inf" denotes a number, so the input of that name is not looked at.
    let mut s = step("compute", "arithmetic");
    s.expression = Some("inf".to_string());
    let result = run_flow(vec![s], vec![("inf", Value::Int(1))]).unwrap();
    assert_eq!(result.data, Some(Value::Float(float(f64::INFINITY))));
}

#[test]
fn a_result_beyond_the_integers_saturates() {
    let result = compute("1e300 * 1", Value::Int(0), Value::Int(0)).unwrap();
    assert_eq!(result.data, Some(Value::Int(i64::MAX)));
    let result = compute("-1e300 * 1", Value::Int(0), Value::Int(0)).unwrap();
    assert_eq!(result.data, Some(Value::Int(i64::MIN)));
}

#[test]
fn large_integers_are_rounded_as_floats_are() {
    let result = compute("a + b", Value::Int(9007199254740993), Value::Int(0)).unwrap();
    assert_eq!(result.data, Some(Value::Int(9007199254740992)));
}

#[test]
fn a_value_that_is_no_number_is_a_type_error() {
    match compute("a + b", Value::String("x\"y".to_string()), Value::Int(1)) {
        Err(VesperError::TypeError { expected, actual }) => {
            assert_eq!(expected, "number");
            assert_eq!(actual, "String(\"x\\\"y\")");
        }
        other => panic!("expected a type error, got {:?}", other),
    }
    match compute("a + b", Value::Int(1), Value::Null) {
        Err(VesperError::TypeError { expected, actual }) => {
            assert_eq!(expected, "number");
            assert_eq!(actual, "Null");
        }
        other => panic!("expected a type error, got {:?}", other),
    }
}

#[test]
fn an_unknown_name_is_a_type_error() {
    assert_eq!(unresolved(compute("a + c", Value::Int(1), Value::Int(1))), "c");
    assert_eq!(unresolved(compute("c", Value::Int(1), Value::Int(1))), "c");
    match compute("a + c", Value::Int(1), Value::Int(1)) {
        Err(e) => assert_eq!(e.message(), "Type error: expected number, got c"),
        Ok(result) => panic!("expected a type error, got {:?}", result),
    }
}

#[test]
fn a_variable_shadows_an_input() {
    let mut first = step("first", "arithmetic");
    first.expression = Some("a + 1".to_string());
    first.output = Some("a".to_string());
    let mut second = step("second", "arithmetic");
    second.expression = Some("a * 10".to_string());
    let result = run_flow(vec![first, second], vec![("a", Value::Int(1))]).unwrap();
    assert_eq!(result.data, Some(Value::Int(20)));
}

#[test]
fn a_placeholder_of_a_variable_is_left_as_it_is() {
    let mut compute = step("compute", "arithmetic");
    compute.expression = Some("a + 1".to_string());
    compute.output = Some("total".to_string());
    let mut show = step("show", "string_template");
    show.template = Some("{a} and {total}".to_string());
    let result = run_flow(vec![compute, show], vec![("a", Value::Int(1))]).unwrap();
    assert_eq!(result.data, Some(Value::String("1 and {total}".to_string())));
}

#[test]
fn a_template_shows_each_kind_of_value() {
    let mut show = step("show", "string_template");
    show.template = Some("{s}|{i}|{f}|{g}|{b}|{n}|{a}|{o}|{s}".to_string());
    let result = run_flow(
        vec![show],
        vec![
            ("s", Value::String("text".to_string())),
            ("i", Value::Int(-12)),
            ("f", Value::Float(float(1.5))),
            ("g", Value::Float(float(2.0))),
            ("b", Value::Bool(true)),
            ("n", Value::Null),
            (
                "a",
                Value::Array(vec![Value::Int(1), Value::Float(float(2.0)), Value::Bool(false)]),
            ),
            (
                "o",
                Value::Object(values(vec![
                    ("k", Value::String("v".to_string())),
                    ("l", Value::Array(vec![])),
                ])),
            ),
        ],
    )
    .unwrap();
    assert_eq!(
        result.data,
        Some(Value::String(
            "text|-12|1.5|2|true|Null|Array([Int(1), Float(2.0), Bool(false)])|Object({\"k\": String(\"v\"), \"l\": Array([])})|text"
                .to_string()
        ))
    );
}

#[test]
fn inputs_are_filled_in_one_after_the_other() {
    // The value of the first input brings in the placeholder of the second.
    let mut show = step("show", "string_template");
    show.template = Some("{x}".to_string());
    let result = run_flow(
        vec![show],
        vec![
            ("x", Value::String("{y}".to_string())),
            ("y", Value::Int(7)),
        ],
    )
    .unwrap();
    assert_eq!(result.data, Some(Value::String("7".to_string())));
}

#[test]
fn a_missing_template_is_an_execution_error() {
    let message = execution_error(run_flow(vec![step("show", "string_template")], vec![]));
    assert_eq!(message, "Template step missing template");
    let message = execution_error(run_flow(vec![step("compute", "arithmetic")], vec![]));
    assert_eq!(message, "Arithmetic step missing expression");
    let message = execution_error(run_flow(vec![step("decide", "conditional")], vec![]));
    assert_eq!(message, "Conditional step missing condition");
}

#[test]
fn a_missing_required_input_ends_the_run_before_the_flow() {
    let mut compute = step("compute", "arithmetic");
    compute.expression = Some("x + 1".to_string());
    let mut executor = SemanticExecutor::new();
    executor.register(node("needs_v1", vec![("x", input("integer", true))], vec![compute]));

    // No fact is asked for: the flow does not start.
    let facts = NumericFacts::new();
    match executor.execute("needs_v1", Dict::new(), &facts) {
        Err(Halt::Failed(VesperError::MissingInput(name))) => assert_eq!(name, "x"),
        other => panic!("expected a missing input, got {:?}", other),
    }
}

#[test]
fn an_input_that_is_not_required_may_be_missing() {
    let mut executor = SemanticExecutor::new();
    executor.register(node(
        "optional_v1",
        vec![("x", input("integer", false)), ("y", input("integer", true))],
        vec![step("check", "validation")],
    ));
    let result = run(&executor, "optional_v1", &values(vec![("y", Value::Int(1))])).unwrap();
    assert_eq!(result.data, Some(Value::Bool(true)));
    match run(&executor, "optional_v1", &values(vec![("x", Value::Int(1))])) {
        Err(VesperError::MissingInput(name)) => assert_eq!(name, "y"),
        other => panic!("expected a missing input, got {:?}", other),
    }
}

#[test]
fn a_node_that_is_not_registered_is_not_found() {
    let executor = SemanticExecutor::new();
    let message = execution_error(run(&executor, "nobody_v1", &Dict::new()));
    assert_eq!(message, "Node not found: nobody_v1");
}

#[test]
fn a_second_registration_replaces_the_first() {
    let mut executor = SemanticExecutor::new();
    executor.register(arithmetic("n_v1", "a + b"));
    executor.register(arithmetic("n_v1", "a * b"));
    let inputs = values(vec![("a", Value::Int(5)), ("b", Value::Int(3))]);
    assert_eq!(run(&executor, "n_v1", &inputs).unwrap().data, Some(Value::Int(15)));

    // A node under another name is not touched.
    executor.register(arithmetic("m_v1", "a - b"));
    assert_eq!(run(&executor, "n_v1", &inputs).unwrap().data, Some(Value::Int(15)));
    assert_eq!(run(&executor, "m_v1", &inputs).unwrap().data, Some(Value::Int(2)));
}

#[test]
fn an_empty_flow_gives_null() {
    let result = run_flow(vec![], vec![]).unwrap();
    assert!(result.success);
    assert_eq!(result.data, Some(Value::Null));
}

#[test]
fn an_unknown_operation_gives_null_and_the_flow_goes_on() {
    let mut compute = step("compute", "arithmetic");
    compute.expression = Some("1 + 1".to_string());
    let result = run_flow(vec![step("odd", "teleport"), compute], vec![]).unwrap();
    assert_eq!(result.data, Some(Value::Int(2)));
    let result = run_flow(vec![step("odd", "teleport")], vec![]).unwrap();
    assert_eq!(result.data, Some(Value::Null));
}

#[test]
fn validation_and_conditional_decide_nothing() {
    let mut check = step("check", "validation");
    check.guards = vec!["a > 100".to_string()];
    let result = run_flow(vec![check], vec![("a", Value::Int(1))]).unwrap();
    assert_eq!(result.data, Some(Value::Bool(true)));

    let mut decide = step("decide", "conditional");
    decide.condition = Some("a > 100".to_string());
    let result = run_flow(vec![decide], vec![("a", Value::Int(1))]).unwrap();
    assert_eq!(result.data, Some(Value::Null));
}

#[test]
fn a_return_step_builds_an_object() {
    let mut compute = step("compute", "arithmetic");
    compute.expression = Some("a + 1".to_string());
    compute.output = Some("total".to_string());
    let mut done = step("done", "return");
    done.return_success = Some(literals(vec![
        ("total", Literal::String("{total}".to_string())),
        ("input", Literal::String("{a}".to_string())),
        ("missing", Literal::String("{nothing}".to_string())),
        ("part", Literal::String("x{a}".to_string())),
        ("empty", Literal::String("{}".to_string())),
        ("count", Literal::Int(3)),
        ("ratio", Literal::Float(float(0.5))),
        ("flag", Literal::Bool(true)),
        ("none", Literal::Null),
        ("tagged", Literal::Tagged),
        (
            "list",
            Literal::Sequence(vec![Literal::String("{a}".to_string()), Literal::Int(2)]),
        ),
        (
            "map",
            Literal::Mapping(vec![
                LiteralPair { key: Literal::String("k".to_string()), value: Literal::Int(1) },
                LiteralPair { key: Literal::Int(5), value: Literal::Int(2) },
                LiteralPair { key: Literal::String("k".to_string()), value: Literal::Int(3) },
            ]),
        ),
    ]));
    let mut after = step("after", "arithmetic");
    after.expression = Some("a + 100".to_string());

    let result = run_flow(vec![compute, done, after], vec![("a", Value::Int(1))]).unwrap();
    let expected = Value::Object(values(vec![
        ("total", Value::Int(2)),
        ("input", Value::Int(1)),
        ("missing", Value::String("{nothing}".to_string())),
        ("part", Value::String("x{a}".to_string())),
        ("empty", Value::String("{}".to_string())),
        ("count", Value::Int(3)),
        ("ratio", Value::Float(float(0.5))),
        ("flag", Value::Bool(true)),
        ("none", Value::Null),
        ("tagged", Value::Null),
        ("list", Value::Array(vec![Value::Int(1), Value::Int(2)])),
        ("map", Value::Object(values(vec![("k", Value::Int(3))]))),
    ]));
    assert_eq!(result.data, Some(expected));
}

#[test]
fn a_return_step_without_fields_gives_null() {
    let result = run_flow(vec![step("done", "return")], vec![]).unwrap();
    assert_eq!(result.data, Some(Value::Null));
}

#[test]
fn a_returned_error_fails_the_run() {
    let mut fail = step("fail", "return");
    fail.return_error = Some(literals(vec![
        ("error_code", Literal::String("E42".to_string())),
        ("message", Literal::String("no luck".to_string())),
    ]));
    assert_eq!(execution_error(run_flow(vec![fail], vec![])), "E42: no luck");

    let mut fail = step("fail", "return");
    fail.return_error = Some(literals(vec![("error_code", Literal::Int(7))]));
    assert_eq!(execution_error(run_flow(vec![fail], vec![])), "unknown: An error occurred");
}

#[test]
fn a_payload_ends_the_flow_whatever_the_operation() {
    let mut check = step("check", "validation");
    check.return_error = Some(Dict::new());
    let mut compute = step("compute", "arithmetic");
    compute.expression = Some("1 + 1".to_string());
    let result = run_flow(vec![check, compute], vec![]).unwrap();
    assert_eq!(result.data, Some(Value::Bool(true)));
}

fn guarded(pre: Vec<&str>, post: Vec<&str>, flow: Vec<FlowStep>) -> VesperNode {
    let mut n = node("guarded_v1", vec![("amount", input("integer", true))], flow);
    n.contracts = Some(Contracts {
        preconditions: pre.into_iter().map(String::from).collect(),
        postconditions: post.into_iter().map(String::from).collect(),
        invariants: Vec::new(),
    });
    n
}

#[test]
fn a_strict_engine_stops_at_a_precondition() {
    let mut executor = SemanticExecutor::new();
    executor.register(guarded(vec!["amount > 0"], vec![], vec![step("check", "validation")]));
    match run(&executor, "guarded_v1", &values(vec![("amount", Value::Int(-10))])) {
        Err(VesperError::PreconditionFailed(condition)) => assert_eq!(condition, "amount > 0"),
        other => panic!("expected a failed precondition, got {:?}", other),
    }
    let result = run(&executor, "guarded_v1", &values(vec![("amount", Value::Int(10))])).unwrap();
    assert_eq!(result.data, Some(Value::Bool(true)));
}

#[test]
fn a_permissive_engine_goes_on() {
    let mut executor = SemanticExecutor::with_validator(ContractValidator::permissive());
    executor.register(guarded(
        vec!["amount > 0"],
        vec!["amount > 0"],
        vec![step("check", "validation")],
    ));
    let result = run(&executor, "guarded_v1", &values(vec![("amount", Value::Int(-10))])).unwrap();
    assert!(result.success);
    assert_eq!(result.data, Some(Value::Bool(true)));
}

#[test]
fn postconditions_see_the_variables_of_the_flow() {
    let mut double = step("double", "arithmetic");
    double.expression = Some("amount * 2".to_string());
    double.output = Some("result".to_string());
    let mut executor = SemanticExecutor::new();
    executor.register(guarded(vec![], vec!["result > 10"], vec![double]));
    let result = run(&executor, "guarded_v1", &values(vec![("amount", Value::Int(6))])).unwrap();
    assert_eq!(result.data, Some(Value::Int(12)));
    match run(&executor, "guarded_v1", &values(vec![("amount", Value::Int(5))])) {
        Err(VesperError::PostconditionFailed(condition)) => assert_eq!(condition, "result > 10"),
        other => panic!("expected a failed postcondition, got {:?}", other),
    }
}

#[test]
fn postconditions_see_the_fields_of_a_returned_object() {
    let mut done = step("done", "return");
    done.return_success = Some(literals(vec![("status", Literal::String("ok".to_string()))]));
    let mut executor = SemanticExecutor::new();
    executor.register(guarded(vec![], vec!["status == 'ok'"], vec![done]));
    assert!(run(&executor, "guarded_v1", &values(vec![("amount", Value::Int(1))])).is_ok());

    let mut done = step("done", "return");
    done.return_success = Some(literals(vec![("status", Literal::String("bad".to_string()))]));
    let mut executor = SemanticExecutor::new();
    executor.register(guarded(vec![], vec!["status == 'ok'"], vec![done]));
    match run(&executor, "guarded_v1", &values(vec![("amount", Value::Int(1))])) {
        Err(VesperError::PostconditionFailed(condition)) => assert_eq!(condition, "status == 'ok'"),
        other => panic!("expected a failed postcondition, got {:?}", other),
    }
}

#[test]
fn a_missing_fact_is_pending_and_nothing_else() {
    let mut executor = SemanticExecutor::new();
    executor.register(arithmetic("calc_v1", "a + b"));
    let inputs = values(vec![("a", Value::Int(5)), ("b", Value::Int(3))]);
    let mut facts = NumericFacts::new();
    let mut asked: Vec<String> = Vec::new();
    let result = loop {
        match executor.execute("calc_v1", inputs.clone(), &facts) {
            Ok(result) => break result,
            Err(Halt::Failed(e)) => panic!("unexpected error {:?}", e),
            Err(Halt::Pending(query)) => {
                asked.push(format!("{:?}", query));
                facts.record(answer(query));
            }
        }
    };
    assert_eq!(result.data, Some(Value::Int(8)));
    assert_eq!(asked.len(), 5);
    assert_eq!(asked[0], "Parse(\"a\")");
    assert_eq!(asked[1], "FromInt(5)");
    assert_eq!(asked[2], "Parse(\"b\")");
    assert_eq!(asked[3], "FromInt(3)");
}

#[test]
fn the_first_fact_on_a_query_keeps_the_word() {
    let mut executor = SemanticExecutor::new();
    executor.register(arithmetic("calc_v1", "7 + 1"));
    let mut facts = NumericFacts::new();
    facts.record(NumericFact::Parsed("7".to_string(), Some(float(7.0))));
    facts.record(NumericFact::Parsed("1".to_string(), Some(float(1.0))));
    facts.record(NumericFact::Applied(Operator::Add, float(7.0), float(1.0), float(8.0)));
    facts.record(NumericFact::Applied(Operator::Add, float(7.0), float(1.0), float(9.0)));
    let result = executor.execute("calc_v1", values(vec![("a", Value::Int(0)), ("b", Value::Int(0))]), &facts);
    match result {
        Ok(result) => assert_eq!(result.data, Some(Value::Int(8))),
        Err(halt) => panic!("unexpected halt {:?}", halt),
    }
}

#[test]
fn a_failing_flow_leaves_what_the_steps_before_have_bound() {
    let mut first = step("first", "arithmetic");
    first.expression = Some("a + 1".to_string());
    first.output = Some("p".to_string());
    let mut second = step("second", "arithmetic");
    second.expression = Some("a / b".to_string());
    second.output = Some("q".to_string());
    let mut third = step("third", "arithmetic");
    third.expression = Some("a + 1".to_string());
    third.output = Some("r".to_string());
    let n = node("fail_v1", vec![], vec![first, second, third]);
    let inputs = values(vec![("a", Value::Int(1)), ("b", Value::Int(0))]);

    let mut facts = NumericFacts::new();
    loop {
        let mut ctx = ExecutionContext::new(inputs.clone());
        match execute_flow(&n, &mut ctx, &facts) {
            Err(Halt::Pending(query)) => facts.record(answer(query)),
            Err(Halt::Failed(VesperError::ExecutionError(message))) => {
                assert_eq!(message, "Division by zero");
                assert_eq!(ctx.get("p"), Some(&Value::Int(2)));
                assert_eq!(ctx.get("q"), None);
                assert_eq!(ctx.get("r"), None);
                assert_eq!(ctx.get_input("a"), Some(&Value::Int(1)));
                assert_eq!(ctx.variables().len(), 1);
                break;
            }
            other => panic!("expected a division by zero, got {:?}", other),
        }
    }
}

#[test]
fn unknown_operations_are_reported_up_to_the_end_of_the_flow() {
    let mut done = step("done", "teleport");
    done.return_success = Some(Dict::new());
    let flow = vec![
        step("check", "validation"),
        step("odd", "levitate"),
        step("show", "string_template"),
        done,
        step("late", "vanish"),
    ];
    let found: Vec<String> = unknown_operations(&flow).iter().map(|e| e.message()).collect();
    assert_eq!(found, vec!["Unknown operation: levitate", "Unknown operation: teleport"]);
    assert!(unknown_operations(&Vec::new()).is_empty());
    for known in ["validation", "string_template", "arithmetic", "return", "conditional"] {
        assert!(is_known_operation(known));
    }
    for unknown in ["", "Validation", "returns", "teleport"] {
        assert!(!is_known_operation(unknown));
    }
}

fn passed_over(executor: &SemanticExecutor, id: &str, inputs: &Dict<Value>) -> Vec<String> {
    let mut facts = NumericFacts::new();
    loop {
        match executor.violations(id, inputs.clone(), &facts) {
            Ok(found) => return found.iter().map(|e| e.message()).collect(),
            Err(Halt::Failed(e)) => panic!("unexpected error {:?}", e),
            Err(Halt::Pending(query)) => facts.record(answer(query)),
        }
    }
}

#[test]
fn the_conditions_that_do_not_hold_are_reported() {
    let mut double = step("double", "arithmetic");
    double.expression = Some("amount * 2".to_string());
    double.output = Some("result".to_string());
    let mut executor = SemanticExecutor::with_validator(ContractValidator::permissive());
    assert!(!executor.strict());
    assert!(SemanticExecutor::new().strict());
    executor.register(guarded(
        vec!["amount > 0", "amount < 100", "amount != -1"],
        vec!["result > 0", "result == -2"],
        vec![double],
    ));
    let inputs = values(vec![("amount", Value::Int(-1))]);
    assert_eq!(
        passed_over(&executor, "guarded_v1", &inputs),
        vec![
            "Precondition failed: amount > 0",
            "Precondition failed: amount != -1",
            "Postcondition failed: result > 0",
        ]
    );
    assert_eq!(run(&executor, "guarded_v1", &inputs).unwrap().data, Some(Value::Int(-2)));
    let inputs = values(vec![("amount", Value::Int(1))]);
    assert_eq!(passed_over(&executor, "guarded_v1", &inputs), vec!["Postcondition failed: result == -2"]);
    // Without a node, without contracts or without a required input there is
    // nothing to report.
    assert!(passed_over(&executor, "nobody_v1", &inputs).is_empty());
    assert!(passed_over(&executor, "guarded_v1", &Dict::new()).is_empty());
    executor.register(node("plain_v1", vec![], vec![]));
    assert!(passed_over(&executor, "plain_v1", &inputs).is_empty());
    // Where the flow fails, only the preconditions are reported.
    let mut divide = step("divide", "arithmetic");
    divide.expression = Some("amount / 0".to_string());
    executor.register(guarded(vec!["amount > 5"], vec!["amount > 5"], vec![divide]));
    assert_eq!(passed_over(&executor, "guarded_v1", &inputs), vec!["Precondition failed: amount > 5"]);
}
