use redis_graph::{DoubleLiteral, GraphQuery, Parameter};

#[test]
fn test_query_macro() {
    assert_eq!(
        GraphQuery::from("Return 1"),
        GraphQuery {
            query: "Return 1",
            read_only: false,
            params: vec![]
        }
    );
    let mut ro = GraphQuery::from("Return 1");
    ro.read_only(true);
    assert_eq!(
        ro,
        GraphQuery {
            query: "Return 1",
            read_only: true,
            params: vec![]
        }
    );
    let mut with_params = GraphQuery::from("Return 1");
    with_params.add_parameter("a", 4.into());
    with_params.add_parameter("b", "test".into());
    assert_eq!(
        with_params,
        GraphQuery {
            query: "Return 1",
            read_only: false,
            params: vec![("a", 4.into()), ("b", "test".into())]
        }
    );
    let mut both = GraphQuery::from("Return 1");
    both.add_parameter("a", Parameter::Double(DoubleLiteral("4.5".to_string())));
    both.add_parameter("b", "test".into());
    both.read_only(true);
    assert_eq!(
        both,
        GraphQuery {
            query: "Return 1",
            read_only: true,
            params: vec![
                ("a", Parameter::Double(DoubleLiteral("4.5".to_string()))),
                ("b", "test".into())
            ]
        }
    );
}

#[test]
fn render_without_parameters_is_the_template() {
    let q = GraphQuery::from("Match (a) Return a");
    assert_eq!(q.construct_query(), "Match (a) Return a");
}

#[test]
fn render_with_string_parameter_escapes_quotes() {
    let mut q = GraphQuery::from("Return $a");
    q.add_parameter("a", Parameter::String("x\"y".to_string()));
    assert_eq!(q.construct_query(), "CYPHER a=\"x\\\"y\" Return $a");
}

#[test]
fn render_with_several_parameters_keeps_insertion_order() {
    let mut q = GraphQuery::from("Return $p");
    q.add_parameter("n", Parameter::Int(-42));
    q.add_parameter("d", Parameter::Double(DoubleLiteral("4.5".to_string())));
    q.add_parameter("s", Parameter::String("hi".to_string()));
    assert_eq!(q.construct_query(), "CYPHER n=-42 d=4.5 s=\"hi\" Return $p");
}

#[test]
fn render_escapes_control_characters_and_non_ascii() {
    let mut q = GraphQuery::from("Return $a");
    q.add_parameter("a", Parameter::String("t\tn\nr\rb\\q'\u{e9}".to_string()));
    assert_eq!(
        q.construct_query(),
        "CYPHER a=\"t\\tn\\nr\\rb\\\\q\\'\\u{e9}\" Return $a"
    );
}

#[test]
fn render_matches_the_standard_escaping_transform() {
    let raw = "mixed: \"quotes\", line\nbreaks, caf\u{e9}, \u{1f600}";
    let mut q = GraphQuery::from("Return $a");
    q.add_parameter("a", Parameter::String(raw.to_string()));
    let expected: String = raw.chars().flat_map(|c| c.escape_default()).collect();
    assert_eq!(q.construct_query(), format!("CYPHER a=\"{}\" Return $a", expected));
}

#[test]
fn render_extreme_integers() {
    let mut q = GraphQuery::from("Return 1");
    q.add_parameter("lo", Parameter::Int(i64::MIN));
    q.add_parameter("hi", Parameter::Int(i64::MAX));
    assert_eq!(
        q.construct_query(),
        "CYPHER lo=-9223372036854775808 hi=9223372036854775807 Return 1"
    );
}

#[test]
fn read_type_follows_the_read_only_flag() {
    let mut q = GraphQuery::from("Return 1");
    assert_eq!(q.read_type(), "GRAPH.QUERY");
    q.read_only(true);
    assert_eq!(q.read_type(), "GRAPH.RO_QUERY");
}

#[test]
fn parameter_conversions_cover_the_numeric_and_string_shapes() {
    assert_eq!(Parameter::from(5i8), Parameter::Int(5));
    assert_eq!(Parameter::from(5i16), Parameter::Int(5));
    assert_eq!(Parameter::from(5i32), Parameter::Int(5));
    assert_eq!(Parameter::from(5i64), Parameter::Int(5));
    assert_eq!(Parameter::from(5u8), Parameter::Int(5));
    assert_eq!(Parameter::from(5u16), Parameter::Int(5));
    assert_eq!(Parameter::from(5u32), Parameter::Int(5));
    assert_eq!(Parameter::from("s"), Parameter::String("s".to_string()));
    assert_eq!(
        Parameter::from("s".to_string()),
        Parameter::String("s".to_string())
    );
    assert_eq!(
        Parameter::from(&"s".to_string()),
        Parameter::String("s".to_string())
    );
}
