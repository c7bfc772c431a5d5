use redis_graph::{
    create_rediserror, first_column, DoubleLiteral, GraphError, GraphResponse, GraphStatistic,
    GraphValue, WireKind, WireValue,
};

fn tagged(tag: i64, raw: WireValue) -> WireValue {
    WireValue::Bulk(vec![WireValue::Int(tag), raw])
}

fn data(text: &str) -> WireValue {
    WireValue::Data(text.as_bytes().to_vec())
}

#[test]
fn one_element_replies_hold_only_statistics() {
    let reply = WireValue::Bulk(vec![WireValue::Bulk(vec![data("Nodes created: 3")])]);
    let resp: GraphResponse<GraphValue> = GraphResponse::parse_response(&reply).unwrap();
    assert_eq!(resp.header, Vec::<String>::new());
    assert_eq!(resp.data, Vec::<GraphValue>::new());
    assert_eq!(resp.statistics, vec!["Nodes created: 3".to_string()]);
    let got = resp.get_statistic(GraphStatistic::NodesCreated).unwrap();
    assert_eq!(got, DoubleLiteral("3".to_string()));
    assert_eq!(got.0.parse::<f64>().unwrap(), 3.0);
}

#[test]
fn three_element_replies_hold_header_rows_and_statistics() {
    let header_entry = WireValue::Bulk(vec![WireValue::Int(1), data("n")]);
    let row = WireValue::Bulk(vec![tagged(3, WireValue::Int(4))]);
    let reply = WireValue::Bulk(vec![
        WireValue::Bulk(vec![header_entry]),
        WireValue::Bulk(vec![row]),
        WireValue::Bulk(vec![data("Cached execution: 1")]),
    ]);
    let resp: GraphResponse<(i32,)> = GraphResponse::parse_response(&reply).unwrap();
    assert_eq!(resp.header, vec!["n".to_string()]);
    assert_eq!(resp.data, vec![(4,)]);
    assert_eq!(resp.statistics, vec!["Cached execution: 1".to_string()]);
}

#[test]
fn rows_convert_one_tuple_per_row() {
    let header_entry = WireValue::Bulk(vec![WireValue::Int(1), data("n")]);
    let row = || WireValue::Bulk(vec![tagged(3, WireValue::Int(4))]);
    let reply = WireValue::Bulk(vec![
        WireValue::Bulk(vec![header_entry]),
        WireValue::Bulk(vec![row(), row(), row()]),
        WireValue::Bulk(vec![]),
    ]);
    let resp: GraphResponse<(i32,)> = GraphResponse::parse_response(&reply).unwrap();
    assert_eq!(resp.data, vec![(4,), (4,), (4,)]);
}

#[test]
fn other_reply_lengths_are_rejected() {
    let reply = WireValue::Bulk(vec![
        WireValue::Bulk(vec![]),
        WireValue::Bulk(vec![]),
        WireValue::Bulk(vec![]),
        WireValue::Bulk(vec![]),
        WireValue::Bulk(vec![]),
    ]);
    let got: Result<GraphResponse<GraphValue>, GraphError> = GraphResponse::parse_response(&reply);
    assert_eq!(got, Err(GraphError::BadReplyLength { found: 5 }));
    let not_a_list: Result<GraphResponse<GraphValue>, GraphError> =
        GraphResponse::parse_response(&WireValue::Int(1));
    assert_eq!(
        not_a_list,
        Err(GraphError::Malformed {
            expected: WireKind::List,
            found: WireValue::Int(1)
        })
    );
}

#[test]
fn malformed_headers_are_rejected() {
    let bad_entry = WireValue::Bulk(vec![WireValue::Int(1)]);
    let reply = WireValue::Bulk(vec![
        WireValue::Bulk(vec![bad_entry.clone()]),
        WireValue::Bulk(vec![]),
        WireValue::Bulk(vec![]),
    ]);
    let got: Result<GraphResponse<GraphValue>, GraphError> = GraphResponse::parse_response(&reply);
    assert_eq!(
        got,
        Err(GraphError::Malformed {
            expected: WireKind::HeaderShape,
            found: bad_entry
        })
    );
}

#[test]
fn the_first_offending_row_decides_the_conversion_error() {
    let header_entry = WireValue::Bulk(vec![WireValue::Int(1), data("n")]);
    let good_row = WireValue::Bulk(vec![tagged(3, WireValue::Int(4))]);
    let bad_row = WireValue::Bulk(vec![tagged(1, WireValue::Nil)]);
    let reply = WireValue::Bulk(vec![
        WireValue::Bulk(vec![header_entry]),
        WireValue::Bulk(vec![good_row, bad_row]),
        WireValue::Bulk(vec![]),
    ]);
    let got: Result<GraphResponse<(i32,)>, GraphError> = GraphResponse::parse_response(&reply);
    assert_eq!(
        got,
        Err(GraphError::Mismatch {
            expected: redis_graph::TargetKind::I32,
            found: GraphValue::Null
        })
    );
}

#[test]
fn statistics_lookup_scans_labels_and_drops_units() {
    let resp: GraphResponse<GraphValue> = GraphResponse {
        header: vec![],
        data: vec![],
        statistics: vec![
            "Labels added: 1".to_string(),
            "Nodes deleted: 2".to_string(),
            "Relationships deleted: 1".to_string(),
            "Properties set: 4".to_string(),
            "Query internal execution time: 0.5 milliseconds".to_string(),
        ],
    };
    assert_eq!(
        resp.get_statistic(GraphStatistic::LabelsAdded),
        Some(DoubleLiteral("1".to_string()))
    );
    assert_eq!(
        resp.get_statistic(GraphStatistic::NodesDeleted),
        Some(DoubleLiteral("2".to_string()))
    );
    assert_eq!(
        resp.get_statistic(GraphStatistic::RelationshipsDeleted),
        Some(DoubleLiteral("1".to_string()))
    );
    assert_eq!(
        resp.get_statistic(GraphStatistic::PropertiesSet),
        Some(DoubleLiteral("4".to_string()))
    );
    let time = resp.get_statistic(GraphStatistic::ExecutionTime).unwrap();
    assert_eq!(time, DoubleLiteral("0.5".to_string()));
    assert_eq!(time.0.parse::<f64>().unwrap(), 0.5);
    assert_eq!(resp.get_statistic(GraphStatistic::NodesCreated), None);
    assert_eq!(resp.get_statistic(GraphStatistic::IndicesCreated), None);
}

#[test]
fn statistics_lookup_requires_a_numeric_value() {
    let resp: GraphResponse<GraphValue> = GraphResponse {
        header: vec![],
        data: vec![],
        statistics: vec!["Indices created: maybe".to_string()],
    };
    assert_eq!(resp.get_statistic(GraphStatistic::IndicesCreated), None);
}

#[test]
fn catalog_replies_flatten_to_their_first_column() {
    let rows = vec![
        vec!["User".to_string()],
        vec!["Post".to_string(), "extra".to_string()],
    ];
    assert_eq!(
        first_column(rows),
        vec!["User".to_string(), "Post".to_string()]
    );
}

#[test]
fn error_bridge_builds_the_client_librarys_kind() {
    let err = create_rediserror("something went wrong");
    assert_eq!(err.kind(), redis::ErrorKind::UnexpectedReturnType);
}
