use neo4j_client::client::ClientBuilder;
use neo4j_client::cypher::{transaction_id_from_url, CypherTransaction};
use neo4j_client::http::{expect_status, Method, Outcome};
use neo4j_client::json::JsonValue;
use neo4j_client::node::Node;
use neo4j_client::path::{Algorithm, PathBuilder};
use neo4j_client::relationship::{get_node_id_from_url, Relationship};
use neo4j_client::text::{find_first, find_last, parse_u64, push_decimal};
use neo4j_client::types::Error;

fn number(s: &str) -> JsonValue {
    JsonValue::Number(s.to_string())
}

fn obj(members: Vec<(&str, JsonValue)>) -> JsonValue {
    JsonValue::Object(members.into_iter().map(|(k, v)| (k.to_string(), v)).collect())
}

fn answer(status: u16, body: JsonValue) -> Outcome {
    Outcome::Answered { status, body: Some(body) }
}

fn empty_answer(status: u16) -> Outcome {
    Outcome::Answered { status, body: None }
}

fn node_doc(id: &str) -> JsonValue {
    obj(vec![
        ("metadata", obj(vec![("id", number(id)), ("labels", JsonValue::Array(vec![]))])),
        ("data", obj(vec![])),
    ])
}

fn results_doc(commit: Option<JsonValue>) -> JsonValue {
    let mut members = vec![("results", JsonValue::Array(vec![])), ("errors", JsonValue::Array(vec![]))];
    if let Some(c) = commit {
        members.push(("commit", c));
    }
    obj(members)
}

#[test]
fn node_id_is_read_after_the_last_node_marker() {
    assert_eq!(get_node_id_from_url("http://localhost:7474/db/data/node/42".to_string()), Ok(42));
    assert_eq!(get_node_id_from_url("node/node/7".to_string()), Ok(7));
    assert_eq!(get_node_id_from_url("http://localhost:7474/db/data/relationship/42".to_string()), Err(Error::DataError));
    assert_eq!(get_node_id_from_url("42".to_string()), Err(Error::DataError));
    assert_eq!(get_node_id_from_url("http://host/node/".to_string()), Err(Error::DataError));
    assert_eq!(get_node_id_from_url("http://host/node/4x".to_string()), Err(Error::DataError));
    assert_eq!(get_node_id_from_url("http://host/node/18446744073709551616".to_string()), Err(Error::DataError));
    assert_eq!(get_node_id_from_url("http://host/node/18446744073709551615".to_string()), Ok(u64::MAX));
}

#[test]
fn decimal_text_round_trips() {
    for n in [0u64, 7, 10, 42, 7474, u64::MAX] {
        let mut s = "x".to_string();
        push_decimal(&mut s, n);
        assert_eq!(s, format!("x{}", n));
        assert_eq!(parse_u64(&s[1..]), Some(n));
    }
    assert_eq!(parse_u64(""), None);
    assert_eq!(parse_u64("-1"), None);
}

#[test]
fn markers_are_found_first_and_last() {
    assert_eq!(find_last("a/b/a/b", "a/"), Some(4));
    assert_eq!(find_first("a/b/a/b", "/b"), Some(1));
    assert_eq!(find_last("abc", "abcd"), None);
    assert_eq!(find_first("abc", "x"), None);
}

#[test]
fn transaction_id_is_read_from_the_commit_url() {
    assert_eq!(transaction_id_from_url("http://localhost:7474/db/data/transaction/17/commit"), Some(17));
    assert_eq!(transaction_id_from_url("http://localhost:7474/db/data/transaction/17"), Some(17));
    assert_eq!(transaction_id_from_url("http://localhost:7474/db/data/commit"), None);
}

#[test]
fn status_gate_sorts_failures() {
    assert!(matches!(expect_status(Outcome::Unreachable, 200), Err(Error::NetworkError)));
    assert!(matches!(expect_status(empty_answer(500), 200), Err(Error::ResponseError)));
    assert!(matches!(expect_status(empty_answer(200), 200), Ok(None)));
    assert!(matches!(Node::get(answer(200, obj(vec![]))), Err(Error::DataError)));
    assert!(matches!(Node::get(empty_answer(200)), Err(Error::DataError)));
    assert!(matches!(Node::get(answer(200, node_doc("-3"))), Err(Error::DataError)));
    assert!(matches!(Node::get(answer(404, node_doc("3"))), Err(Error::ResponseError)));
}

#[test]
fn credential_is_basic_authentication() {
    let cli = ClientBuilder::new()
        .url("http://db.example".to_string())
        .port(8080)
        .credential("Aladdin".to_string(), "open sesame".to_string())
        .get();
    let req = cli.alive_request();
    assert_eq!(req.uri, "http://db.example:8080/db/data");
    assert_eq!(req.authorization, Some("Basic QWxhZGRpbjpvcGVuIHNlc2FtZQ==".to_string()));
    let anonymous = ClientBuilder::new().get();
    assert_eq!(anonymous.alive_request().authorization, None);
    assert_eq!(anonymous.build_uri("/x"), "http://localhost:7474/x");
}

#[test]
fn creating_a_node_twice_is_refused() {
    let cli = ClientBuilder::new().get();
    let mut node = Node::new();
    assert!(node.add_request(&cli).unwrap().body.is_none());
    assert!(node.add(answer(201, node_doc("5"))).is_ok());
    assert_eq!(node.get_id(), Some(5));
    assert!(matches!(node.add_request(&cli), Err(Error::IntegrityError)));
    assert_eq!(node.add(answer(201, node_doc("6"))), Err(Error::IntegrityError));
    assert_eq!(node.get_id(), Some(5));
}

#[test]
fn unidentified_node_is_refused_without_a_request() {
    let cli = ClientBuilder::new().get();
    let mut node = Node::new();
    assert!(matches!(node.add_labels_request(&cli, &vec!["a".to_string()]), Err(Error::IntegrityError)));
    assert_eq!(node.add_labels(vec!["a".to_string()], empty_answer(204)), Err(Error::IntegrityError));
    assert!(node.labels.is_empty());
    assert!(matches!(node.delete_request(&cli), Err(Error::IntegrityError)));
    assert_eq!(node.delete(empty_answer(204)), Err(Error::IntegrityError));
}

#[test]
fn failed_creation_leaves_the_node_as_it_was() {
    let mut node = Node::new();
    assert_eq!(node.add(Outcome::Unreachable), Err(Error::NetworkError));
    assert_eq!(node.add(empty_answer(400)), Err(Error::ResponseError));
    assert_eq!(node.add(answer(201, obj(vec![]))), Err(Error::DataError));
    assert_eq!(node.get_id(), None);
}

#[test]
fn labels_are_appended_in_order_once_confirmed() {
    let mut node = Node::new();
    assert!(node.add(answer(201, node_doc("8"))).is_ok());
    assert_eq!(node.add_labels(vec!["x".to_string()], empty_answer(500)), Err(Error::ResponseError));
    assert!(node.labels.is_empty());
    assert!(node.add_labels(vec!["b".to_string(), "a".to_string(), "b".to_string()], empty_answer(204)).is_ok());
    assert_eq!(node.labels, vec!["b".to_string(), "a".to_string(), "b".to_string()]);
}

#[test]
fn transaction_lifecycle() {
    let mut trans = CypherTransaction::new();
    assert!(!trans.is_active());
    assert_eq!(trans.commit(empty_answer(200)), Err(Error::IntegrityError));
    assert_eq!(trans.rollback(empty_answer(200)), Err(Error::IntegrityError));

    let commit = JsonValue::Str("http://localhost:7474/db/data/transaction/3/commit".to_string());
    assert!(trans.query(answer(201, results_doc(Some(commit)))).is_ok());
    assert!(trans.is_active());
    assert!(trans.query(answer(200, results_doc(None))).is_ok());
    assert!(trans.is_active());
    assert_eq!(trans.rollback(empty_answer(500)), Err(Error::ResponseError));
    assert!(trans.is_active());
    assert!(trans.rollback(empty_answer(200)).is_ok());
    assert!(!trans.is_active());
    assert_eq!(trans.commit(empty_answer(200)), Err(Error::IntegrityError));
}

#[test]
fn beginning_a_transaction_needs_a_commit_url() {
    let cli = ClientBuilder::new().get();
    let mut trans = CypherTransaction::new();
    assert!(matches!(trans.query(answer(201, results_doc(None))), Err(Error::DataError)));
    assert!(!trans.is_active());
    assert!(matches!(trans.query(answer(200, results_doc(None))), Err(Error::ResponseError)));
    assert!(!trans.is_active());
    let commit = JsonValue::Str("http://localhost:7474/db/data/transaction/12/commit".to_string());
    assert!(trans.query(answer(201, results_doc(Some(commit)))).is_ok());
    let req = trans.query_request(&cli, "RETURN 1", JsonValue::Null);
    assert_eq!(req.method, Method::Post);
    assert_eq!(req.uri, "http://localhost:7474/db/data/transaction/12");
    let req = trans.rollback_request(&cli).unwrap();
    assert_eq!(req.method, Method::Delete);
    assert_eq!(req.uri, "http://localhost:7474/db/data/transaction/12");
}

#[test]
fn path_query_body_lists_every_parameter() {
    let cli = ClientBuilder::new().get();
    let body = PathBuilder::new(&cli, 1, 2).path_with_depth(Algorithm::AllPaths, 5).get_one_request(&cli).body.unwrap();
    let expected = obj(vec![
        ("to", JsonValue::Str("http://localhost:7474/db/data/node/2".to_string())),
        ("cost_property", JsonValue::Null),
        ("default_cost", JsonValue::Null),
        ("max_depth", number("5")),
        ("relationships", JsonValue::Null),
        ("algorithm", JsonValue::Str("allPaths".to_string())),
    ]);
    assert_eq!(format!("{:?}", body), format!("{:?}", expected));
    let weighted = PathBuilder::new(&cli, 1, 2).path_with_weight("cost".to_string(), "2.5".to_string());
    let body = weighted.get_all_request(&cli).body.unwrap();
    assert!(matches!(body.get("default_cost"), Some(JsonValue::Number(c)) if c == "2.5"));
}

#[test]
fn relationship_with_a_malformed_end_is_a_data_error() {
    let doc = obj(vec![
        ("start", JsonValue::Str("http://localhost:7474/db/data/node/1".to_string())),
        ("end", JsonValue::Str("http://localhost:7474/db/data/elsewhere".to_string())),
        ("type", JsonValue::Str("Likes".to_string())),
        ("metadata", obj(vec![("id", number("9"))])),
        ("data", obj(vec![])),
    ]);
    assert!(matches!(Relationship::get(9, answer(200, doc)), Err(Error::DataError)));
}
