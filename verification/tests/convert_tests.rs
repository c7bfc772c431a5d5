use redis_graph::{
    from_graph_value, DoubleLiteral, FromGraphValue, GeoPoint, GraphError, GraphMap, GraphPath,
    GraphValue, Node, PropertyAccess, PropertyMap, Relationship, TargetKind, WireValue,
};

#[test]
fn integer_targets_accept_only_the_integer_kind() {
    assert_eq!(from_graph_value::<u8>(GraphValue::Integer(7)), Ok(7u8));
    assert_eq!(from_graph_value::<i32>(GraphValue::Integer(-7)), Ok(-7i32));
    assert_eq!(from_graph_value::<i64>(GraphValue::Integer(i64::MIN)), Ok(i64::MIN));
    assert_eq!(
        from_graph_value::<bool>(GraphValue::Integer(7)),
        Err(GraphError::Mismatch {
            expected: TargetKind::Boolean,
            found: GraphValue::Integer(7)
        })
    );
    assert_eq!(
        from_graph_value::<u8>(GraphValue::String("7".to_string())),
        Err(GraphError::Mismatch {
            expected: TargetKind::U8,
            found: GraphValue::String("7".to_string())
        })
    );
}

#[test]
fn integer_narrowing_fails_out_of_range() {
    assert_eq!(
        from_graph_value::<u8>(GraphValue::Integer(256)),
        Err(GraphError::OutOfRange {
            expected: TargetKind::U8,
            found: 256
        })
    );
    assert_eq!(
        from_graph_value::<i8>(GraphValue::Integer(-129)),
        Err(GraphError::OutOfRange {
            expected: TargetKind::I8,
            found: -129
        })
    );
    assert_eq!(
        from_graph_value::<u64>(GraphValue::Integer(-1)),
        Err(GraphError::OutOfRange {
            expected: TargetKind::U64,
            found: -1
        })
    );
    assert_eq!(from_graph_value::<u64>(GraphValue::Integer(i64::MAX)), Ok(i64::MAX as u64));
}

#[test]
fn scalar_targets_accept_their_matching_kinds() {
    assert_eq!(
        from_graph_value::<bool>(GraphValue::Boolean(true)),
        Ok(true)
    );
    assert_eq!(
        from_graph_value::<String>(GraphValue::String("s".to_string())),
        Ok("s".to_string())
    );
    assert_eq!(
        from_graph_value::<DoubleLiteral>(GraphValue::Double(DoubleLiteral("4.5".to_string()))),
        Ok(DoubleLiteral("4.5".to_string()))
    );
    assert_eq!(
        from_graph_value::<DoubleLiteral>(GraphValue::Integer(4)),
        Err(GraphError::Mismatch {
            expected: TargetKind::Double,
            found: GraphValue::Integer(4)
        })
    );
}

#[test]
fn unit_target_ignores_the_value() {
    assert_eq!(from_graph_value::<()>(GraphValue::Integer(7)), Ok(()));
    assert_eq!(from_graph_value::<()>(GraphValue::Null), Ok(()));
}

#[test]
fn identity_target_hands_the_value_back() {
    assert_eq!(
        from_graph_value::<GraphValue>(GraphValue::Null),
        Ok(GraphValue::Null)
    );
}

#[test]
fn optional_target_follows_the_null_rule() {
    assert_eq!(from_graph_value::<Option<i32>>(GraphValue::Null), Ok(None));
    assert_eq!(
        from_graph_value::<Option<i32>>(GraphValue::Integer(4)),
        Ok(Some(4))
    );
    // an inner failure does not become "absent"
    assert_eq!(
        from_graph_value::<Option<i32>>(GraphValue::Boolean(true)),
        Err(GraphError::Mismatch {
            expected: TargetKind::I32,
            found: GraphValue::Boolean(true)
        })
    );
}

#[test]
fn sequence_target_converts_every_element_or_fails_atomically() {
    let arr = GraphValue::Array(vec![
        GraphValue::Integer(1),
        GraphValue::Integer(2),
        GraphValue::Integer(3),
        GraphValue::Integer(4),
    ]);
    assert_eq!(from_graph_value::<Vec<i32>>(arr), Ok(vec![1, 2, 3, 4]));
    let nested = GraphValue::Array(vec![GraphValue::Array(vec![GraphValue::Integer(5)])]);
    assert_eq!(from_graph_value::<Vec<Vec<i32>>>(nested), Ok(vec![vec![5]]));
    let opt = GraphValue::Array(vec![GraphValue::Integer(5), GraphValue::Integer(6)]);
    assert_eq!(
        from_graph_value::<Option<Vec<i32>>>(opt),
        Ok(Some(vec![5, 6]))
    );
    // the first offending element decides the error
    let mixed = GraphValue::Array(vec![
        GraphValue::Integer(1),
        GraphValue::Boolean(true),
        GraphValue::String("x".to_string()),
    ]);
    assert_eq!(
        from_graph_value::<Vec<i32>>(mixed),
        Err(GraphError::Mismatch {
            expected: TargetKind::I32,
            found: GraphValue::Boolean(true)
        })
    );
    assert_eq!(
        from_graph_value::<Vec<i32>>(GraphValue::Null),
        Err(GraphError::Mismatch {
            expected: TargetKind::Sequence,
            found: GraphValue::Null
        })
    );
}

#[test]
fn empty_sequences_convert_to_empty_vectors() {
    assert_eq!(
        from_graph_value::<Vec<i32>>(GraphValue::Array(vec![])),
        Ok(Vec::<i32>::new())
    );
}

#[test]
fn tuple_targets_are_arity_exact() {
    let two = GraphValue::Array(vec![
        GraphValue::Integer(1),
        GraphValue::String("x".to_string()),
    ]);
    assert_eq!(
        from_graph_value::<(i32, String)>(two),
        Ok((1, "x".to_string()))
    );
    let two_again = GraphValue::Array(vec![
        GraphValue::Integer(1),
        GraphValue::String("x".to_string()),
    ]);
    assert_eq!(
        from_graph_value::<(i32, String, bool)>(two_again),
        Err(GraphError::WrongLength {
            expected: 3,
            found: 2
        })
    );
    let one = GraphValue::Array(vec![GraphValue::Integer(4)]);
    assert_eq!(from_graph_value::<(i32,)>(one), Ok((4,)));
    assert_eq!(
        from_graph_value::<(i32,)>(GraphValue::Integer(4)),
        Err(GraphError::Mismatch {
            expected: TargetKind::Tuple,
            found: GraphValue::Integer(4)
        })
    );
    let eight = GraphValue::Array((1..=8).map(GraphValue::Integer).collect());
    assert_eq!(
        from_graph_value::<(u8, u16, u32, u64, i8, i16, i32, i64)>(eight),
        Ok((1, 2, 3, 4, 5, 6, 7, 8))
    );
    let twelve = GraphValue::Array((1..=12).map(GraphValue::Integer).collect());
    assert_eq!(
        from_graph_value::<(i64, i64, i64, i64, i64, i64, i64, i64, i64, i64, i64, i64)>(twelve),
        Ok((1, 2, 3, 4, 5, 6, 7, 8, 9, 10, 11, 12))
    );
    // elements are converted left to right, short-circuiting on the first failure
    let bad = GraphValue::Array(vec![GraphValue::Null, GraphValue::Null]);
    assert_eq!(
        from_graph_value::<(i32, bool)>(bad),
        Err(GraphError::Mismatch {
            expected: TargetKind::I32,
            found: GraphValue::Null
        })
    );
}

#[test]
fn struct_targets_accept_only_their_matching_kinds() {
    let node = Node::new(1, vec![], PropertyMap::new());
    assert_eq!(
        from_graph_value::<Node>(GraphValue::Node(node.clone())),
        Ok(node)
    );
    let rel = Relationship::new(1, 2, 3, 4, PropertyMap::new());
    assert_eq!(
        from_graph_value::<Relationship>(GraphValue::Relation(rel.clone())),
        Ok(rel)
    );
    let path = GraphPath {
        nodes: vec![],
        relationships: vec![],
    };
    assert_eq!(
        from_graph_value::<GraphPath>(GraphValue::Path(path.clone())),
        Ok(path)
    );
    let point = GeoPoint {
        latitude: DoubleLiteral("1.0".to_string()),
        longitude: DoubleLiteral("2.0".to_string()),
    };
    assert_eq!(
        from_graph_value::<GeoPoint>(GraphValue::Point(point.clone())),
        Ok(point)
    );
    let map = GraphMap(vec![("a".to_string(), GraphValue::Integer(1))]);
    assert_eq!(
        from_graph_value::<GraphMap>(GraphValue::Mapping(map.clone())),
        Ok(map)
    );
    assert_eq!(
        from_graph_value::<Node>(GraphValue::Null),
        Err(GraphError::Mismatch {
            expected: TargetKind::Node,
            found: GraphValue::Null
        })
    );
    assert_eq!(
        from_graph_value::<GraphMap>(GraphValue::Null),
        Err(GraphError::Mismatch {
            expected: TargetKind::Mapping,
            found: GraphValue::Null
        })
    );
    assert_eq!(
        from_graph_value::<GraphPath>(GraphValue::Null),
        Err(GraphError::Mismatch {
            expected: TargetKind::Path,
            found: GraphValue::Null
        })
    );
    assert_eq!(
        from_graph_value::<GeoPoint>(GraphValue::Null),
        Err(GraphError::Mismatch {
            expected: TargetKind::Point,
            found: GraphValue::Null
        })
    );
    assert_eq!(
        from_graph_value::<Relationship>(GraphValue::Null),
        Err(GraphError::Mismatch {
            expected: TargetKind::Relation,
            found: GraphValue::Null
        })
    );
}

#[test]
fn map_lookups_convert_under_the_optional_rule() {
    let map = GraphMap(vec![
        ("a".to_string(), GraphValue::Integer(5)),
        ("n".to_string(), GraphValue::Null),
    ]);
    assert_eq!(map.get::<i32>("a"), Ok(Some(5)));
    assert_eq!(map.get::<i32>("missing"), Ok(None));
    assert_eq!(map.get::<i32>("n"), Ok(None));
    assert_eq!(
        map.get::<bool>("a"),
        Err(GraphError::Mismatch {
            expected: TargetKind::Boolean,
            found: GraphValue::Integer(5)
        })
    );
    assert_eq!(
        map.into_inner(),
        vec![
            ("a".to_string(), GraphValue::Integer(5)),
            ("n".to_string(), GraphValue::Null)
        ]
    );
}

#[test]
fn property_access_reads_by_id_index_and_order() {
    let mut props = PropertyMap::new();
    props.insert(10, GraphValue::Integer(1));
    props.insert(4, GraphValue::String("x".to_string()));
    let node = Node::new(5, vec![2], props);
    assert_eq!(node.get_property_by_label_id::<i32>(10), Ok(Some(1)));
    assert_eq!(node.get_property_by_label_id::<i32>(99), Ok(None));
    assert_eq!(node.get_property_by_index::<i32>(0), Ok(1));
    assert_eq!(
        node.get_property_by_index::<String>(1),
        Ok("x".to_string())
    );
    assert_eq!(
        node.property_values::<(i32, String)>(),
        Ok((1, "x".to_string()))
    );
    assert_eq!(
        node.into_property_values::<(i32, String)>(),
        Ok((1, "x".to_string()))
    );

    let mut rprops = PropertyMap::new();
    rprops.insert(1, GraphValue::Integer(3));
    let rel = Relationship::new(1, 2, 3, 4, rprops);
    assert_eq!(rel.get_property_by_index::<i32>(0), Ok(3));
    assert_eq!(rel.property_values::<(i32,)>(), Ok((3,)));
    assert_eq!(rel.into_property_values::<(i32,)>(), Ok((3,)));
}
