use resource_graph_db::gateway::{edge_query, init_db, res_query, QueryError};
use resource_graph_db::loader::{load_kind, normalize_object};
use resource_graph_db::resource::{ColumnType, Edge, Resource, ResourceError};
use resource_graph_db::store::StoreValue;

fn sample_resource(namespace: Option<&str>, name: &str) -> Resource {
    Resource {
        api: "apps/v1".to_string(),
        kind: "Deployment".to_string(),
        namespace: namespace.map(|s| s.to_string()),
        name: name.to_string(),
        obj: Some(serde_json::Value::String("payload".to_string())),
    }
}

fn cols_of(v: StoreValue) -> Vec<StoreValue> {
    match v {
        StoreValue::List(cols) => cols,
        _ => panic!("expected a list cell"),
    }
}

#[test]
fn full_row_round_trip_reconstructs_identity() {
    let r = sample_resource(Some("default"), "web");
    let row = cols_of(r.as_cozo_full());
    assert_eq!(row.len(), 5);
    let d = Resource::from_cozo(&row).unwrap();
    assert_eq!(d.api, "apps/v1");
    assert_eq!(d.kind, "Deployment");
    assert_eq!(d.namespace, Some("default".to_string()));
    assert_eq!(d.name, "web");
    assert!(d.obj.is_none());
}

#[test]
fn absent_namespace_round_trips_through_empty_string() {
    let r = Resource { obj: None, ..sample_resource(None, "node-reader") };
    let key = cols_of(r.as_cozo_key());
    assert_eq!(key.len(), 4);
    match &key[2] {
        StoreValue::Str(s) => assert_eq!(s, ""),
        _ => panic!("namespace column must be a string"),
    }
    let d = Resource::from_cozo(&key).unwrap();
    assert_eq!(d.namespace, None);
}

#[test]
fn present_namespace_decodes_exactly() {
    let r = sample_resource(Some("kube-system"), "coredns");
    let row = cols_of(r.as_cozo_full());
    let d = Resource::from_cozo(&row).unwrap();
    assert_eq!(d.namespace, Some("kube-system".to_string()));
}

#[test]
fn short_row_fails_with_column_count_regardless_of_content() {
    let empty: Vec<StoreValue> = Vec::new();
    assert_eq!(Resource::from_cozo(&empty), Err(ResourceError::ColumnCount(0)));

    let two_strings = vec![
        StoreValue::Str("a".to_string()),
        StoreValue::Str("b".to_string()),
    ];
    assert_eq!(Resource::from_cozo(&two_strings), Err(ResourceError::ColumnCount(2)));

    let three_junk = vec![StoreValue::Other, StoreValue::Other, StoreValue::Other];
    assert_eq!(Resource::from_cozo(&three_junk), Err(ResourceError::ColumnCount(3)));
}

#[test]
fn non_string_column_fails_with_column_type_referencing_it() {
    let row = vec![
        StoreValue::Other,
        StoreValue::Str("b".to_string()),
        StoreValue::Str("c".to_string()),
        StoreValue::Str("d".to_string()),
    ];
    assert_eq!(Resource::from_cozo(&row), Err(ResourceError::Type(0, ColumnType::String)));

    let row2 = vec![
        StoreValue::Str("a".to_string()),
        StoreValue::Str("b".to_string()),
        StoreValue::Json(serde_json::Value::Null),
        StoreValue::Str("d".to_string()),
    ];
    assert_eq!(Resource::from_cozo(&row2), Err(ResourceError::Type(2, ColumnType::String)));
}

#[test]
fn edge_decodes_from_nested_rows_and_label() {
    let from = cols_of(sample_resource(Some("default"), "a").as_cozo_key());
    let to = cols_of(sample_resource(Some("default"), "b").as_cozo_key());
    let row = vec![
        StoreValue::List(from),
        StoreValue::List(to),
        StoreValue::Str("owns".to_string()),
    ];
    let e = Edge::from_cozo(&row).unwrap();
    assert_eq!(e.from.name, "a");
    assert_eq!(e.to.name, "b");
    assert_eq!(e.label, "owns");
}

#[test]
fn edge_with_non_string_label_fails_with_column_type() {
    let from = cols_of(sample_resource(Some("default"), "a").as_cozo_key());
    let to = cols_of(sample_resource(Some("default"), "b").as_cozo_key());
    let row = vec![
        StoreValue::List(from),
        StoreValue::List(to),
        StoreValue::Other,
    ];
    assert_eq!(Edge::from_cozo(&row), Err(ResourceError::Type(2, ColumnType::String)));
}

#[test]
fn edge_with_missing_or_flat_endpoint_fails() {
    let empty: Vec<StoreValue> = Vec::new();
    assert_eq!(Edge::from_cozo(&empty), Err(ResourceError::ColumnCount(0)));

    let from = cols_of(sample_resource(Some("default"), "a").as_cozo_key());
    let row = vec![
        StoreValue::List(from),
        StoreValue::Str("not-a-row".to_string()),
        StoreValue::Str("owns".to_string()),
    ];
    assert_eq!(Edge::from_cozo(&row), Err(ResourceError::Type(1, ColumnType::String)));
}

#[test]
fn edge_propagates_nested_decode_error() {
    let short_nested = vec![StoreValue::Str("only-one".to_string())];
    let to = cols_of(sample_resource(Some("default"), "b").as_cozo_key());
    let row = vec![
        StoreValue::List(short_nested),
        StoreValue::List(to),
        StoreValue::Str("owns".to_string()),
    ];
    assert_eq!(Edge::from_cozo(&row), Err(ResourceError::ColumnCount(1)));
}

#[test]
fn normalize_joins_group_and_version_and_maps_empty_namespace() {
    let r = normalize_object(
        "apps",
        "v1",
        "Deployment",
        Some("".to_string()),
        "web".to_string(),
        None,
    );
    assert_eq!(r.api, "apps/v1");
    assert_eq!(r.kind, "Deployment");
    assert_eq!(r.namespace, None);
    assert_eq!(r.name, "web");
    assert!(r.obj.is_none());

    let core = normalize_object(
        "",
        "v1",
        "Pod",
        Some("default".to_string()),
        "a".to_string(),
        Some(serde_json::Value::Bool(true)),
    );
    assert_eq!(core.api, "/v1");
    assert_eq!(core.namespace, Some("default".to_string()));
    assert_eq!(core.obj, Some(serde_json::Value::Bool(true)));
}

fn mem_db_with_schema() -> cozo::DbInstance {
    let db = cozo::DbInstance::new("mem", "", Default::default()).unwrap();
    init_db(&db).unwrap();
    db
}

fn two_pods() -> Vec<Resource> {
    vec![
        normalize_object(
            "",
            "v1",
            "Pod",
            Some("default".to_string()),
            "a".to_string(),
            Some(serde_json::Value::String("pod-a".to_string())),
        ),
        normalize_object(
            "",
            "v1",
            "Pod",
            Some("default".to_string()),
            "b".to_string(),
            Some(serde_json::Value::String("pod-b".to_string())),
        ),
    ]
}

const POD_QUERY: &str =
    "?[api, kind, namespace, name] := *resource{api, kind, namespace, name}, kind = 'Pod'";

#[test]
fn sync_then_query_returns_loaded_pods() {
    let db = mem_db_with_schema();
    load_kind(&db, &two_pods()).unwrap();

    let mut resources = res_query(&db, POD_QUERY).unwrap();
    resources.sort_by(|x, y| x.name.cmp(&y.name));
    assert_eq!(resources.len(), 2);
    for (r, name) in resources.iter().zip(["a", "b"]) {
        assert_eq!(r.api, "/v1");
        assert_eq!(r.kind, "Pod");
        assert_eq!(r.namespace, Some("default".to_string()));
        assert_eq!(r.name, name);
        assert!(r.obj.is_none());
    }
}

#[test]
fn repeated_sync_is_idempotent() {
    let db = mem_db_with_schema();
    load_kind(&db, &two_pods()).unwrap();
    load_kind(&db, &two_pods()).unwrap();

    let resources = res_query(&db, POD_QUERY).unwrap();
    assert_eq!(resources.len(), 2);
}

#[test]
fn edge_query_decodes_nested_rows() {
    let db = mem_db_with_schema();
    load_kind(&db, &two_pods()).unwrap();

    let script = "?[f, t, l] := *resource{api, kind, namespace, name}, \
                  f = [api, kind, namespace, name], \
                  t = [api, kind, namespace, name], \
                  l = 'self'";
    let edges = edge_query(&db, script).unwrap();
    assert_eq!(edges.len(), 2);
    for e in &edges {
        assert_eq!(e.label, "self");
        assert_eq!(e.from.kind, "Pod");
        assert_eq!(e.from.name, e.to.name);
        assert!(e.from.obj.is_none());
    }
}

#[test]
fn malformed_script_is_an_execution_error() {
    let db = mem_db_with_schema();
    match res_query(&db, "this is not a query") {
        Err(QueryError::Execution(msg)) => assert!(!msg.is_empty()),
        other => panic!("expected an execution error, got {:?}", other.map(|v| v.len())),
    }
}

#[test]
fn undecodable_row_is_a_decode_error() {
    let db = mem_db_with_schema();
    match res_query(&db, "?[x] <- [[1]]") {
        Err(QueryError::Decode(e)) => assert_eq!(e, ResourceError::ColumnCount(1)),
        other => panic!("expected a decode error, got {:?}", other.map(|v| v.len())),
    }
}

#[test]
fn schema_creation_twice_is_rejected_by_the_store() {
    let db = mem_db_with_schema();
    assert!(init_db(&db).is_err());
}

#[test]
fn scripts_match_the_store_protocol() {
    assert_eq!(
        resource_graph_db::gateway::schema_script(),
        ":create resource {\n    api: String,\n    kind: String,\n    namespace: String,\n    name: String,\n    =>\n    obj: Json\n}"
    );
    assert_eq!(
        resource_graph_db::loader::put_script(),
        "\n?[api, kind, namespace, name, obj] <- $data\n:put resource {api, kind, namespace, name, obj}"
    );
    let params = resource_graph_db::loader::bind_put_batch(&two_pods());
    assert_eq!(params.len(), 1);
    assert_eq!(params[0].0, "data");
    match &params[0].1 {
        StoreValue::List(rows) => assert_eq!(rows.len(), 2),
        _ => panic!("the bound batch must be one list"),
    }
}
