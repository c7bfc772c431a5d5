use redis_graph::{
    convert_to_graphvalue, parse_properties, DoubleLiteral, GeoPoint, GraphError, GraphMap,
    GraphPath, GraphValue, Node, PropertyMap, Relationship, WireKind, WireValue,
};

fn tagged(tag: i64, raw: WireValue) -> WireValue {
    WireValue::Bulk(vec![WireValue::Int(tag), raw])
}

fn props(entries: Vec<(i64, GraphValue)>) -> PropertyMap {
    let mut m = PropertyMap::new();
    for (k, v) in entries {
        m.insert(k, v);
    }
    m
}

#[test]
fn decoding_integer_tag() {
    assert_eq!(
        convert_to_graphvalue(3, &WireValue::Int(7)),
        Ok(GraphValue::Integer(7))
    );
    assert_eq!(
        convert_to_graphvalue(3, &WireValue::Data(b"42".to_vec())),
        Ok(GraphValue::Integer(42))
    );
    assert_eq!(
        convert_to_graphvalue(3, &WireValue::Data(b"-9223372036854775808".to_vec())),
        Ok(GraphValue::Integer(i64::MIN))
    );
    assert_eq!(
        convert_to_graphvalue(3, &WireValue::Data(b"9223372036854775808".to_vec())),
        Err(GraphError::Malformed {
            expected: WireKind::Integer,
            found: WireValue::Data(b"9223372036854775808".to_vec())
        })
    );
}

#[test]
fn integer_text_parses_exactly_as_the_standard_parse() {
    let samples = [
        "42", "-42", "+7", "", " 42", "4 2", "007", "-0",
        "99999999999999999999", "-99999999999999999999",
        "9223372036854775807", "9223372036854775808",
        "-9223372036854775808", "-9223372036854775809",
        "0x1", "1.5", "--1", "+-1", "+",
    ];
    for text in samples {
        let ours = convert_to_graphvalue(3, &WireValue::Data(text.as_bytes().to_vec()));
        match text.parse::<i64>() {
            Ok(v) => assert_eq!(ours, Ok(GraphValue::Integer(v)), "{}", text),
            Err(_) => assert!(ours.is_err(), "{}", text),
        }
    }
}

#[test]
fn decoding_null_and_string_tags() {
    assert_eq!(convert_to_graphvalue(1, &WireValue::Nil), Ok(GraphValue::Null));
    assert_eq!(
        convert_to_graphvalue(2, &WireValue::Data(b"test".to_vec())),
        Ok(GraphValue::String("test".to_string()))
    );
    assert_eq!(
        convert_to_graphvalue(2, &WireValue::Status("line".to_string())),
        Ok(GraphValue::String("line".to_string()))
    );
    assert_eq!(
        convert_to_graphvalue(2, &WireValue::Okay),
        Ok(GraphValue::String("OK".to_string()))
    );
    assert_eq!(
        convert_to_graphvalue(2, &WireValue::Int(-7)),
        Ok(GraphValue::String("-7".to_string()))
    );
    assert_eq!(
        convert_to_graphvalue(2, &WireValue::Data(vec![0xff])),
        Err(GraphError::Malformed {
            expected: WireKind::Text,
            found: WireValue::Data(vec![0xff])
        })
    );
}

#[test]
fn decoding_boolean_tag_matches_the_text_literally() {
    assert_eq!(
        convert_to_graphvalue(4, &WireValue::Data(b"true".to_vec())),
        Ok(GraphValue::Boolean(true))
    );
    assert_eq!(
        convert_to_graphvalue(4, &WireValue::Data(b"false".to_vec())),
        Ok(GraphValue::Boolean(false))
    );
    assert_eq!(
        convert_to_graphvalue(4, &WireValue::Data(b"yes".to_vec())),
        Err(GraphError::Malformed {
            expected: WireKind::BooleanText,
            found: WireValue::Data(b"yes".to_vec())
        })
    );
}

#[test]
fn decoding_double_tag_keeps_the_literal_text() {
    assert_eq!(
        convert_to_graphvalue(5, &WireValue::Data(b"4.67".to_vec())),
        Ok(GraphValue::Double(DoubleLiteral("4.67".to_string())))
    );
    assert_eq!(
        convert_to_graphvalue(5, &WireValue::Data(b"-1.5e10".to_vec())),
        Ok(GraphValue::Double(DoubleLiteral("-1.5e10".to_string())))
    );
    assert_eq!(
        convert_to_graphvalue(5, &WireValue::Data(b"inf".to_vec())),
        Ok(GraphValue::Double(DoubleLiteral("inf".to_string())))
    );
    assert_eq!(
        convert_to_graphvalue(5, &WireValue::Data(b"NaN".to_vec())),
        Ok(GraphValue::Double(DoubleLiteral("NaN".to_string())))
    );
    assert_eq!(
        convert_to_graphvalue(5, &WireValue::Data(b"abc".to_vec())),
        Err(GraphError::Malformed {
            expected: WireKind::DoubleText,
            found: WireValue::Data(b"abc".to_vec())
        })
    );
    // the accepted texts are exactly those the standard parse accepts
    for text in ["4.67", "-1.5e10", ".5", "5.", "+inf", "infinity", "1e", "e5", "--1", ""] {
        let ours = convert_to_graphvalue(5, &WireValue::Data(text.as_bytes().to_vec()));
        assert_eq!(ours.is_ok(), text.parse::<f64>().is_ok(), "{}", text);
    }
}

#[test]
fn decoding_array_tag_recurses_into_tagged_elements() {
    let raw = WireValue::Bulk(vec![
        tagged(3, WireValue::Int(1)),
        tagged(2, WireValue::Data(b"Hi".to_vec())),
    ]);
    assert_eq!(
        convert_to_graphvalue(6, &raw),
        Ok(GraphValue::Array(vec![
            GraphValue::Integer(1),
            GraphValue::String("Hi".to_string())
        ]))
    );
    // an untagged element is an error
    let bad = WireValue::Bulk(vec![WireValue::Int(1)]);
    assert_eq!(
        convert_to_graphvalue(6, &bad),
        Err(GraphError::Malformed {
            expected: WireKind::TaggedValue,
            found: WireValue::Int(1)
        })
    );
}

#[test]
fn decoding_node_tag() {
    // a node: id 5, label ids [1, 2], one property (10, tag 3, value 7)
    let raw = WireValue::Bulk(vec![
        WireValue::Int(5),
        WireValue::Bulk(vec![WireValue::Int(1), WireValue::Int(2)]),
        WireValue::Bulk(vec![WireValue::Bulk(vec![
            WireValue::Int(10),
            WireValue::Int(3),
            WireValue::Int(7),
        ])]),
    ]);
    assert_eq!(
        convert_to_graphvalue(8, &raw),
        Ok(GraphValue::Node(Node::new(
            5,
            vec![1, 2],
            props(vec![(10, GraphValue::Integer(7))])
        )))
    );
    // any other shape is an error
    let bad = WireValue::Bulk(vec![WireValue::Int(5)]);
    assert_eq!(
        convert_to_graphvalue(8, &bad),
        Err(GraphError::Malformed {
            expected: WireKind::NodeShape,
            found: bad.clone()
        })
    );
}

#[test]
fn decoding_relationship_tag() {
    let raw = WireValue::Bulk(vec![
        WireValue::Int(9),
        WireValue::Int(1),
        WireValue::Int(5),
        WireValue::Int(6),
        WireValue::Bulk(vec![]),
    ]);
    assert_eq!(
        convert_to_graphvalue(7, &raw),
        Ok(GraphValue::Relation(Relationship::new(
            9,
            1,
            5,
            6,
            PropertyMap::new()
        )))
    );
    let bad = WireValue::Bulk(vec![WireValue::Int(9)]);
    assert_eq!(
        convert_to_graphvalue(7, &bad),
        Err(GraphError::Malformed {
            expected: WireKind::RelationShape,
            found: bad.clone()
        })
    );
}

#[test]
fn decoding_path_tag() {
    let node_raw = WireValue::Bulk(vec![
        WireValue::Int(1),
        WireValue::Bulk(vec![]),
        WireValue::Bulk(vec![]),
    ]);
    let raw = WireValue::Bulk(vec![
        tagged(6, WireValue::Bulk(vec![tagged(8, node_raw)])),
        tagged(6, WireValue::Bulk(vec![])),
    ]);
    assert_eq!(
        convert_to_graphvalue(9, &raw),
        Ok(GraphValue::Path(GraphPath {
            nodes: vec![Node::new(1, vec![], PropertyMap::new())],
            relationships: vec![],
        }))
    );
}

#[test]
fn decoding_map_tag_pairs_keys_with_values() {
    let raw = WireValue::Bulk(vec![
        WireValue::Data(b"a".to_vec()),
        tagged(3, WireValue::Int(5)),
        WireValue::Data(b"b".to_vec()),
        tagged(2, WireValue::Data(b"x".to_vec())),
    ]);
    let mut expected = GraphMap(vec![]);
    expected.insert("a".to_string(), GraphValue::Integer(5));
    expected.insert("b".to_string(), GraphValue::String("x".to_string()));
    assert_eq!(convert_to_graphvalue(10, &raw), Ok(GraphValue::Mapping(expected)));
    // an odd-length alternation is an error
    let odd = WireValue::Bulk(vec![WireValue::Data(b"a".to_vec())]);
    assert_eq!(
        convert_to_graphvalue(10, &odd),
        Err(GraphError::Malformed {
            expected: WireKind::MapShape,
            found: odd.clone()
        })
    );
}

#[test]
fn decoding_map_tag_replaces_duplicate_keys_in_place() {
    let raw = WireValue::Bulk(vec![
        WireValue::Data(b"a".to_vec()),
        tagged(3, WireValue::Int(1)),
        WireValue::Data(b"b".to_vec()),
        tagged(3, WireValue::Int(2)),
        WireValue::Data(b"a".to_vec()),
        tagged(3, WireValue::Int(3)),
    ]);
    let decoded = convert_to_graphvalue(10, &raw).unwrap();
    let expected = GraphMap(vec![
        ("a".to_string(), GraphValue::Integer(3)),
        ("b".to_string(), GraphValue::Integer(2)),
    ]);
    assert_eq!(decoded, GraphValue::Mapping(expected));
}

#[test]
fn decoding_point_tag() {
    let raw = WireValue::Bulk(vec![
        WireValue::Data(b"32.070794860".to_vec()),
        WireValue::Data(b"34.820751118".to_vec()),
    ]);
    assert_eq!(
        convert_to_graphvalue(11, &raw),
        Ok(GraphValue::Point(GeoPoint {
            latitude: DoubleLiteral("32.070794860".to_string()),
            longitude: DoubleLiteral("34.820751118".to_string()),
        }))
    );
    let bad = WireValue::Bulk(vec![WireValue::Data(b"1.0".to_vec())]);
    assert_eq!(
        convert_to_graphvalue(11, &bad),
        Err(GraphError::Malformed {
            expected: WireKind::PointShape,
            found: bad.clone()
        })
    );
}

#[test]
fn decoding_array_tag_requires_a_list() {
    assert_eq!(
        convert_to_graphvalue(6, &WireValue::Int(1)),
        Err(GraphError::Malformed {
            expected: WireKind::List,
            found: WireValue::Int(1)
        })
    );
}

#[test]
fn decoding_path_tag_requires_two_arrays() {
    let bad = WireValue::Bulk(vec![tagged(6, WireValue::Bulk(vec![]))]);
    assert_eq!(
        convert_to_graphvalue(9, &bad),
        Err(GraphError::Malformed {
            expected: WireKind::PathShape,
            found: bad.clone()
        })
    );
    // both halves must convert to node and relationship arrays
    let ints = WireValue::Bulk(vec![
        tagged(6, WireValue::Bulk(vec![tagged(3, WireValue::Int(1))])),
        tagged(6, WireValue::Bulk(vec![])),
    ]);
    assert!(convert_to_graphvalue(9, &ints).is_err());
}

#[test]
fn unknown_tags_keep_the_raw_wire_value() {
    let raw = WireValue::Data(b"anything".to_vec());
    assert_eq!(
        convert_to_graphvalue(0, &raw),
        Ok(GraphValue::Unknown(raw.clone()))
    );
    assert_eq!(
        convert_to_graphvalue(12, &raw),
        Ok(GraphValue::Unknown(raw.clone()))
    );
    assert_eq!(
        convert_to_graphvalue(-3, &raw),
        Ok(GraphValue::Unknown(raw.clone()))
    );
}

#[test]
fn every_known_tag_decodes_to_its_own_kind() {
    let shaped: Vec<(i64, WireValue)> = vec![
        (0, WireValue::Int(9)),
        (1, WireValue::Nil),
        (2, WireValue::Data(b"s".to_vec())),
        (3, WireValue::Int(1)),
        (4, WireValue::Data(b"true".to_vec())),
        (5, WireValue::Data(b"1.0".to_vec())),
        (6, WireValue::Bulk(vec![])),
        (
            7,
            WireValue::Bulk(vec![
                WireValue::Int(1),
                WireValue::Int(2),
                WireValue::Int(3),
                WireValue::Int(4),
                WireValue::Bulk(vec![]),
            ]),
        ),
        (
            8,
            WireValue::Bulk(vec![
                WireValue::Int(1),
                WireValue::Bulk(vec![]),
                WireValue::Bulk(vec![]),
            ]),
        ),
        (
            9,
            WireValue::Bulk(vec![
                tagged(6, WireValue::Bulk(vec![])),
                tagged(6, WireValue::Bulk(vec![])),
            ]),
        ),
        (10, WireValue::Bulk(vec![])),
        (
            11,
            WireValue::Bulk(vec![
                WireValue::Data(b"1.0".to_vec()),
                WireValue::Data(b"2.0".to_vec()),
            ]),
        ),
    ];
    let mut kinds: Vec<u32> = vec![];
    for (tag, raw) in shaped {
        let decoded = convert_to_graphvalue(tag, &raw).unwrap();
        let kind = match decoded {
            GraphValue::Unknown(_) => 0,
            GraphValue::Null => 1,
            GraphValue::String(_) => 2,
            GraphValue::Integer(_) => 3,
            GraphValue::Boolean(_) => 4,
            GraphValue::Double(_) => 5,
            GraphValue::Array(_) => 6,
            GraphValue::Relation(_) => 7,
            GraphValue::Node(_) => 8,
            GraphValue::Path(_) => 9,
            GraphValue::Mapping(_) => 10,
            GraphValue::Point(_) => 11,
        };
        assert_eq!(kind, tag as u32);
        assert!(!kinds.contains(&kind));
        kinds.push(kind);
    }
    assert_eq!(kinds.len(), 12);
}

#[test]
fn property_lists_keep_definition_order_and_replace_duplicates() {
    let triple = |id: i64, tag: i64, v: i64| {
        WireValue::Bulk(vec![WireValue::Int(id), WireValue::Int(tag), WireValue::Int(v)])
    };
    let raw = WireValue::Bulk(vec![triple(7, 3, 1), triple(2, 3, 2), triple(7, 3, 3)]);
    let m = parse_properties(&raw).unwrap();
    assert_eq!(m.len(), 2);
    assert_eq!(m.key_at(0), 7);
    assert_eq!(m.key_at(1), 2);
    assert_eq!(m.get(7), Some(&GraphValue::Integer(3)));
    assert_eq!(m.get(2), Some(&GraphValue::Integer(2)));
    assert_eq!(m.get(4), None);
    // a malformed triple fails the whole list
    let bad = WireValue::Bulk(vec![WireValue::Int(1)]);
    assert_eq!(
        parse_properties(&WireValue::Bulk(vec![bad.clone()])),
        Err(GraphError::Malformed {
            expected: WireKind::PropertyShape,
            found: bad
        })
    );
}

#[test]
fn generic_wire_values_need_a_tag_and_a_payload() {
    let v = tagged(3, WireValue::Int(4));
    assert_eq!(GraphValue::from_wire_value(&v), Ok(GraphValue::Integer(4)));
    let bad = WireValue::Bulk(vec![WireValue::Data(b"3".to_vec()), WireValue::Int(4)]);
    assert_eq!(
        GraphValue::from_wire_value(&bad),
        Err(GraphError::Malformed {
            expected: WireKind::TaggedValue,
            found: bad.clone()
        })
    );
}
