use neo4j_client::client::{Client, ClientBuilder};
use neo4j_client::cypher::{Cypher, CypherTransaction};
use neo4j_client::http::{Method, Outcome, Request};
use neo4j_client::index::Index;
use neo4j_client::json::JsonValue;
use neo4j_client::node::Node;
use neo4j_client::path::{Algorithm, PathBuilder};
use neo4j_client::relationship::{Relationship, RelationshipCollection};
use neo4j_client::types::Error;

fn get_client() -> Client {
    ClientBuilder::new().credential("neo4j".to_string(), "secret".to_string()).get()
}

fn text(s: &str) -> JsonValue {
    JsonValue::Str(s.to_string())
}

fn number(s: &str) -> JsonValue {
    JsonValue::Number(s.to_string())
}

fn obj(members: Vec<(&str, JsonValue)>) -> JsonValue {
    JsonValue::Object(members.into_iter().map(|(k, v)| (k.to_string(), v)).collect())
}

fn texts(items: &[&str]) -> JsonValue {
    JsonValue::Array(items.iter().map(|s| text(s)).collect())
}

fn answer(status: u16, body: JsonValue) -> Outcome {
    Outcome::Answered { status, body: Some(body) }
}

fn empty_answer(status: u16) -> Outcome {
    Outcome::Answered { status, body: None }
}

fn node_doc(id: u64, labels: &[&str], data: JsonValue) -> JsonValue {
    obj(vec![
        ("metadata", obj(vec![("id", number(&id.to_string())), ("labels", texts(labels))])),
        ("data", data),
    ])
}

fn node_uri(id: u64) -> String {
    format!("http://localhost:7474/db/data/node/{}", id)
}

fn rel_doc(id: u64, from: u64, to: u64, data: JsonValue) -> JsonValue {
    obj(vec![
        ("start", text(&node_uri(from))),
        ("end", text(&node_uri(to))),
        ("type", text("Likes")),
        ("metadata", obj(vec![("id", number(&id.to_string()))])),
        ("data", data),
    ])
}

/// Creates a node through the library, the server giving it `id` and
/// echoing the properties it was sent.
fn create_node(cli: &Client, node: &mut Node, id: u64) {
    let req = node.add_request(cli).unwrap();
    assert_eq!(req.method, Method::Post);
    assert_eq!(req.uri, "http://localhost:7474/db/data/node");
    let data = req.body.unwrap_or(obj(vec![]));
    assert!(node.add(answer(201, node_doc(id, &[], data))).is_ok());
}

fn delete_node(cli: &Client, node: Node) {
    let req: Request = node.delete_request(cli).unwrap();
    assert_eq!(req.method, Method::Delete);
    assert!(node.delete(empty_answer(204)).is_ok());
}

fn field_text(v: &JsonValue, key: &str) -> String {
    v.get(key).unwrap().as_text().unwrap().clone()
}

#[test]
fn test_connection_establish() {
    let neo4j_client = get_client();
    let req = neo4j_client.alive_request();
    assert_eq!(req.uri, "http://localhost:7474/db/data");
    assert_eq!(req.authorization, Some("Basic bmVvNGo6c2VjcmV0".to_string()));
    assert!(Client::is_alive(&empty_answer(200)));
}

#[test]
fn test_node_create_no_type() {
    let cli = get_client();
    let mut node = Node::new();
    create_node(&cli, &mut node, 11);
    assert!(node.get_id().is_some());

    let req = Node::get_request(&cli, node.get_id().unwrap());
    assert_eq!(req.uri, "http://localhost:7474/db/data/node/11");
    let node_reload = Node::get(answer(200, node_doc(11, &[], obj(vec![])))).unwrap();
    assert_eq!(node.get_id(), node_reload.get_id());
    assert_eq!(node_reload.labels.len(), 0);

    delete_node(&cli, node);
}

#[test]
fn test_node_create_with_type() {
    let node_data = obj(vec![("name", text("John Doe")), ("level", number("-42"))]);
    let cli = get_client();
    let mut node = Node::new();
    node.set_properties(node_data);
    create_node(&cli, &mut node, 12);
    assert!(node.get_id().is_some());

    let stored = node.properties.as_ref().unwrap().deep_copy();
    let node_reload = Node::get(answer(200, node_doc(12, &[], stored))).unwrap();
    assert_eq!(node.get_id(), node_reload.get_id());
    let props = node_reload.properties.as_ref().unwrap();
    assert_eq!(field_text(props, "name"), "John Doe");
    match props.get("level") {
        Some(JsonValue::Number(n)) => assert_eq!(n.parse::<i64>().unwrap(), -42),
        other => panic!("unexpected level {:?}", other),
    }
    assert_eq!(node_reload.labels.len(), 0);

    delete_node(&cli, node);
}

#[test]
fn test_node_labels() {
    let cli = get_client();
    let mut node = Node::new();
    create_node(&cli, &mut node, 13);
    assert!(node.id.is_some());

    let labels = vec!["foo".to_string(), "bar".to_string()];
    let req = node.add_labels_request(&cli, &labels).unwrap();
    assert_eq!(req.uri, "http://localhost:7474/db/data/node/13/labels");
    let sent = req.body.unwrap();
    assert_eq!(format!("{:?}", sent), format!("{:?}", texts(&["foo", "bar"])));
    assert!(node.add_labels(labels, empty_answer(204)).is_ok());

    let node_reload = Node::get(answer(200, node_doc(13, &["foo", "bar"], obj(vec![])))).unwrap();
    assert_eq!(node_reload.labels.len(), 2);
    assert!(node_reload.labels.iter().any(|label| label == "foo"));
    assert!(node_reload.labels.iter().any(|label| label == "bar"));

    delete_node(&cli, node);
}

fn two_nodes(cli: &Client) -> (Node, Node) {
    let mut node_parent = Node::new();
    create_node(cli, &mut node_parent, 21);
    let mut node_child = Node::new();
    create_node(cli, &mut node_child, 22);
    (node_parent, node_child)
}

fn steve() -> JsonValue {
    obj(vec![("name", text("Steve")), ("level", number("-6"))])
}

/// Connects the two nodes through the library, the server echoing the
/// properties it was sent.
fn connect(cli: &Client, from: u64, to: u64, props: Option<JsonValue>) -> Result<Relationship, Error> {
    let req = Relationship::connect_request(cli, from, to, "Likes", props);
    assert_eq!(req.uri, format!("http://localhost:7474/db/data/node/{}/relationships", from));
    let body = req.body.unwrap();
    assert_eq!(field_text(&body, "to"), node_uri(to));
    assert_eq!(field_text(&body, "type"), "Likes");
    let data = match body.get("data") {
        Some(d) => d.deep_copy(),
        None => obj(vec![]),
    };
    Relationship::connect(from, to, "Likes".to_string(), answer(201, rel_doc(31, from, to, data)))
}

fn delete_relationship(cli: &Client, rel: &Relationship) {
    let req = rel.delete_request(cli);
    assert_eq!(req.uri, format!("http://localhost:7474/db/data/relationship/{}", rel.id));
    assert!(rel.delete(empty_answer(204)).is_ok());
}

#[test]
fn test_connect_nodes_no_type() {
    let cli = get_client();
    let (node_parent, node_child) = two_nodes(&cli);

    let res = connect(&cli, node_parent.get_id().unwrap(), node_child.get_id().unwrap(), None);
    assert!(res.is_ok());

    let rel = res.unwrap();
    assert!(rel.id > 0);

    delete_relationship(&cli, &rel);
    delete_node(&cli, node_parent);
    delete_node(&cli, node_child);
}

#[test]
fn test_connect_nodes_with_type_and_load_by_id() {
    let cli = get_client();
    let (node_parent, node_child) = two_nodes(&cli);

    let res = connect(&cli, node_parent.get_id().unwrap(), node_child.get_id().unwrap(), Some(steve()));
    assert!(res.is_ok());

    let rel = res.unwrap();
    assert!(rel.id > 0);
    assert_eq!(field_text(rel.properties.as_ref().unwrap(), "name"), "Steve");
    match rel.properties.as_ref().unwrap().get("level") {
        Some(JsonValue::Number(n)) => assert_eq!(n.parse::<i64>().unwrap(), -6),
        other => panic!("unexpected level {:?}", other),
    }

    let stored = rel.properties.as_ref().unwrap().deep_copy();
    let res_reload = Relationship::get(rel.id, answer(200, rel_doc(rel.id, 21, 22, stored)));
    assert!(res_reload.is_ok());
    let reloaded = res_reload.unwrap();
    assert_eq!(field_text(reloaded.properties.as_ref().unwrap(), "name"), "Steve");
    assert_eq!((reloaded.from, reloaded.to), (21, 22));

    delete_relationship(&cli, &rel);
    delete_node(&cli, node_parent);
    delete_node(&cli, node_child);
}

#[test]
fn test_setting_property() {
    let cli = get_client();
    let (node_parent, node_child) = two_nodes(&cli);

    let res = connect(&cli, node_parent.get_id().unwrap(), node_child.get_id().unwrap(), Some(steve()));
    assert!(res.is_ok());

    let rel = res.unwrap();

    let req = rel.set_property_request(&cli, "name", text("Walter"));
    assert_eq!(req.method, Method::Put);
    assert_eq!(req.uri, "http://localhost:7474/db/data/relationship/31/properties/name");
    assert!(rel.set_property(empty_answer(204)).is_ok());
    assert_eq!(field_text(rel.properties.as_ref().unwrap(), "name"), "Steve");

    let updated = obj(vec![("name", req.body.unwrap()), ("level", number("-6"))]);
    let res_reload = Relationship::get(rel.id, answer(200, rel_doc(rel.id, 21, 22, updated)));
    assert!(res_reload.is_ok());
    assert_eq!(field_text(res_reload.unwrap().properties.as_ref().unwrap(), "name"), "Walter");

    delete_relationship(&cli, &rel);
    delete_node(&cli, node_parent);
    delete_node(&cli, node_child);
}

#[test]
fn test_node_all_relationship_load() {
    let cli = get_client();
    let (node_parent, node_child) = two_nodes(&cli);

    let res = connect(&cli, node_parent.get_id().unwrap(), node_child.get_id().unwrap(), Some(steve()));
    assert!(res.is_ok());

    let rel = res.unwrap();

    let req = RelationshipCollection::all_for_node_request(&cli, node_parent.get_id().unwrap());
    assert_eq!(req.uri, "http://localhost:7474/db/data/node/21/relationships/all");
    let listing = JsonValue::Array(vec![rel_doc(rel.id, 21, 22, steve())]);
    let rels = RelationshipCollection::all_for_node(answer(200, listing)).unwrap();
    assert_eq!(1, rels.len());
    assert_eq!(rels[0].id, 31);
    assert_eq!(rels[0].rel_type, "Likes");
    assert_eq!((rels[0].from, rels[0].to), (21, 22));
    assert!(rels[0].properties.is_none());

    delete_relationship(&cli, &rel);
    delete_node(&cli, node_parent);
    delete_node(&cli, node_child);
}

fn path_doc(from: u64, to: u64, hops: usize, weight: Option<&str>) -> JsonValue {
    let mut members = vec![
        ("directions", JsonValue::Array((0..hops).map(|_| text("->")).collect())),
        ("start", text(&node_uri(from))),
        ("end", text(&node_uri(to))),
        ("nodes", JsonValue::Array((0..=hops).map(|i| text(&node_uri(from + i as u64))).collect())),
        ("length", number(&hops.to_string())),
        ("relationships", JsonValue::Array((0..hops).map(|i| text(&format!("rel/{}", i))).collect())),
    ];
    if let Some(w) = weight {
        members.push(("weight", number(w)));
    }
    obj(members)
}

fn depth_builder(cli: &Client, from: u64, to: u64, algorithm: Algorithm) -> PathBuilder {
    PathBuilder::new(cli, from, to).path_with_depth(algorithm, 3)
}

fn check_depth_request(cli: &Client, builder: &PathBuilder, name: &str, plural: bool) {
    let req = if plural { builder.get_all_request(cli) } else { builder.get_one_request(cli) };
    let suffix = if plural { "paths" } else { "path" };
    assert_eq!(req.uri, format!("http://localhost:7474/db/data/node/1/{}", suffix));
    let body = req.body.unwrap();
    assert_eq!(field_text(&body, "algorithm"), name);
    assert_eq!(field_text(&body, "to"), node_uri(3));
    match body.get("max_depth") {
        Some(JsonValue::Number(n)) => assert_eq!(n, "3"),
        other => panic!("unexpected max_depth {:?}", other),
    }
}

#[test]
fn test_get_no_shortest_path() {
    let cli = get_client();
    let path_builder = depth_builder(&cli, 1, 4, Algorithm::ShortestPath);
    let req = path_builder.get_all_request(&cli);
    assert_eq!(req.uri, "http://localhost:7474/db/data/node/1/paths");
    assert_eq!(field_text(&req.body.unwrap(), "to"), node_uri(4));
    let paths = path_builder.get_all(answer(200, JsonValue::Array(vec![]))).unwrap();
    assert_eq!(0, paths.len());
}

#[test]
fn test_get_one_shortest_path() {
    let cli = get_client();
    let path_builder = depth_builder(&cli, 1, 3, Algorithm::ShortestPath);
    check_depth_request(&cli, &path_builder, "shortestPath", false);
    let p = path_builder.get_one(answer(200, path_doc(1, 3, 2, None)));
    assert!(p.is_ok());
}

#[test]
fn test_get_shortest_paths() {
    let cli = get_client();
    let path_builder = depth_builder(&cli, 1, 3, Algorithm::ShortestPath);
    let req = path_builder.get_all_request(&cli);
    assert_eq!(req.uri, "http://localhost:7474/db/data/node/1/paths");
    let paths = path_builder.get_all(answer(200, JsonValue::Array(vec![path_doc(1, 3, 2, None)]))).unwrap();
    assert_eq!(1, paths.len());
}

#[test]
fn test_get_one_all_simple_path() {
    let cli = get_client();
    let path_builder = depth_builder(&cli, 1, 3, Algorithm::AllSimplePaths);
    check_depth_request(&cli, &path_builder, "allSimplePaths", false);
    let p = path_builder.get_one(answer(200, path_doc(1, 3, 2, None)));
    assert!(p.is_ok());
}

#[test]
fn test_get_one_all_path() {
    let cli = get_client();
    let path_builder = depth_builder(&cli, 1, 3, Algorithm::AllPaths);
    check_depth_request(&cli, &path_builder, "allPaths", false);
    let p = path_builder.get_one(answer(200, path_doc(1, 3, 2, None)));
    assert!(p.is_ok());
}

#[test]
fn test_get_weighted_path() {
    let cli = get_client();
    let path_builder = PathBuilder::new(&cli, 1, 3).path_with_weight("weight".to_string(), 1.0f64.to_string());
    let body = path_builder.get_one_request(&cli).body.unwrap();
    assert_eq!(field_text(&body, "algorithm"), "dijkstra");
    assert_eq!(field_text(&body, "cost_property"), "weight");
    let p = path_builder.get_one(answer(200, path_doc(1, 3, 2, Some("3.7")))).unwrap();
    assert_eq!(3.7, p.weight.unwrap().parse::<f64>().unwrap());
    assert_eq!(2, p.directions.len());

    let path_builder = PathBuilder::new(&cli, 1, 3).path_with_weight("weight".to_string(), 1.0f64.to_string());
    let p = path_builder.get_one(answer(200, path_doc(1, 3, 1, Some("0.5")))).unwrap();
    assert_eq!(0.5, p.weight.unwrap().parse::<f64>().unwrap());
    assert_eq!(1, p.directions.len());
}

fn query_answer(status: u16, commit: Option<&str>) -> Outcome {
    let row = obj(vec![("row", texts(&["Steve"]))]);
    let result = obj(vec![("columns", texts(&["n.name"])), ("data", JsonValue::Array(vec![row]))]);
    let mut members = vec![("results", JsonValue::Array(vec![result])), ("errors", JsonValue::Array(vec![]))];
    if let Some(c) = commit {
        members.push(("commit", text(c)));
    }
    answer(status, obj(members))
}

fn first_row_value(res: &neo4j_client::cypher::CypherResultsResponse) -> String {
    match &res.results[0].data {
        JsonValue::Array(rows) => match rows[0].get("row") {
            Some(JsonValue::Array(cells)) => cells[0].as_text().unwrap().clone(),
            other => panic!("unexpected row {:?}", other),
        },
        other => panic!("unexpected data {:?}", other),
    }
}

#[test]
fn test_simple_query_with_immediate_commit() {
    let cli = get_client();

    let mut node = Node::new();
    node.set_properties(obj(vec![("name", text("Steve"))]));
    create_node(&cli, &mut node, 41);

    let params = obj(vec![("id", number(&node.get_id().unwrap().to_string()))]);
    let req = Cypher::query_request(&cli, "START n=node({id}) RETURN n.name", params);
    assert_eq!(req.uri, "http://localhost:7474/db/data/transaction/commit");
    let res = Cypher::query(query_answer(200, None));
    assert!(res.is_ok());

    assert_eq!(first_row_value(&res.unwrap()), "Steve");

    delete_node(&cli, node);
}

#[test]
fn test_simple_query_with_transaction() {
    let cli = get_client();

    let mut node = Node::new();
    node.set_properties(obj(vec![("name", text("Steve"))]));
    create_node(&cli, &mut node, 42);

    let params = obj(vec![("id", number(&node.get_id().unwrap().to_string()))]);

    let mut trans = CypherTransaction::new();
    assert!(trans.commit(empty_answer(200)).is_err());
    assert!(trans.rollback(empty_answer(200)).is_err());

    let req = trans.query_request(&cli, "START n=node({id}) RETURN n.name", params);
    assert_eq!(req.uri, "http://localhost:7474/db/data/transaction");
    let res = trans.query(query_answer(201, Some("http://localhost:7474/db/data/transaction/9/commit")));
    assert!(res.is_ok());
    assert_eq!(first_row_value(&res.unwrap()), "Steve");
    let req = trans.commit_request(&cli).unwrap();
    assert_eq!(req.uri, "http://localhost:7474/db/data/transaction/9/commit");
    assert!(trans.commit(empty_answer(200)).is_ok());

    delete_node(&cli, node);
}

#[test]
fn test_index_add_and_remove() {
    let cli = get_client();
    let idx_name = "LabelXkq2Zr7mPa0".to_string();
    let prop_name = "propBn5Tc8Uy1Hd4".to_string();
    let idx = Index::new(idx_name, prop_name);
    let req = idx.create_request(&cli);
    assert_eq!(req.uri, "http://localhost:7474/db/data/schema/index/LabelXkq2Zr7mPa0");
    let res_create = idx.create(empty_answer(200));
    assert!(res_create.is_ok());

    let req = idx.delete_request(&cli);
    assert_eq!(req.uri, "http://localhost:7474/db/data/schema/index/LabelXkq2Zr7mPa0/propBn5Tc8Uy1Hd4");
    let res_del = idx.delete(empty_answer(204));
    assert!(res_del.is_ok());
}
