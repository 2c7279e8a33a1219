//! Path finding between two nodes.
use vstd::prelude::*;
use crate::client::{text_option, uri_of, Client};
use crate::http::{expect_status, status_gate, Method, Outcome, Request, OK};
use crate::json::{model_option, text_field, text_list_field, texts, unsigned_field, JsonModel, JsonValue};
use crate::node::node_path;
use crate::text::{decimal, push_decimal};
use crate::types::Error;

verus! {

/// The traversal algorithms the server offers.
#[derive(Debug, Clone, Copy, PartialEq, Eq, Structural)]
pub enum Algorithm {
    ShortestPath,
    AllSimplePaths,
    AllPaths,
    /// The cheapest path by a cost property; chosen by
    /// `PathBuilder::path_with_weight`.
    Dijkstra,
}

/// Which end of a relationship a node is.
#[derive(Debug, Clone, Copy, PartialEq, Eq, Structural)]
pub enum RelationshipType {
    From,
    To,
}

/// The direction in which a relationship is followed.
#[derive(Debug, Clone, Copy, PartialEq, Eq, Structural)]
pub enum RelationshipDirection {
    In,
    Out,
}

/// The name the server knows an algorithm by.
pub open spec fn algorithm_name(a: Algorithm) -> Seq<char> {
    match a {
        Algorithm::ShortestPath => "shortestPath"@,
        Algorithm::AllSimplePaths => "allSimplePaths"@,
        Algorithm::AllPaths => "allPaths"@,
        Algorithm::Dijkstra => "dijkstra"@,
    }
}

fn algorithm_text(a: Algorithm) -> (r: String)
    ensures
        r@ == algorithm_name(a),
{
    match a {
        Algorithm::ShortestPath => String::from_str("shortestPath"),
        Algorithm::AllSimplePaths => String::from_str("allSimplePaths"),
        Algorithm::AllPaths => String::from_str("allPaths"),
        Algorithm::Dijkstra => String::from_str("dijkstra"),
    }
}

/// A path as the server describes it.
pub struct PathRecord {
    pub directions: Seq<Seq<char>>,
    pub weight: Option<Seq<char>>,
    pub start: Seq<char>,
    pub end: Seq<char>,
    pub nodes: Seq<Seq<char>>,
    pub length: u64,
    pub relationships: Seq<Seq<char>>,
}

/// The `weight` member of a path document: absent or `null` when the
/// algorithm has no costs, else a number.
pub open spec fn weight_of(m: JsonModel) -> Option<Option<Seq<char>>> {
    match m.field("weight"@) {
        None => Some(None),
        Some(JsonModel::Null) => Some(None),
        Some(JsonModel::Number(t)) => Some(Some(t)),
        _ => None,
    }
}

/// The path described by a document.
pub open spec fn path_record(m: JsonModel) -> Option<PathRecord> {
    match (
        text_list_field(m, "directions"@),
        weight_of(m),
        text_field(m, "start"@),
        text_field(m, "end"@),
        text_list_field(m, "nodes"@),
        unsigned_field(m, "length"@),
        text_list_field(m, "relationships"@),
    ) {
        (Some(directions), Some(weight), Some(start), Some(end), Some(nodes), Some(length), Some(relationships)) => Some(
            PathRecord { directions, weight, start, end, nodes, length, relationships },
        ),
        _ => None,
    }
}

/// The paths described by a JSON array.
pub open spec fn path_list(m: JsonModel) -> Option<Seq<PathRecord>> {
    match m {
        JsonModel::Array(items) => if forall|i: int| 0 <= i < items.len() ==> #[trigger] path_record(items[i]) is Some {
            Some(items.map_values(|x: JsonModel| path_record(x)->0))
        } else {
            None
        },
        _ => None,
    }
}

/// A path found by the server. `weight` is the total cost, written as a
/// JSON number, and is present only for cost-based algorithms.
#[derive(Debug)]
pub struct Path {
    pub directions: Vec<String>,
    pub weight: Option<String>,
    pub start: String,
    pub end: String,
    pub nodes: Vec<String>,
    pub length: u64,
    pub relationships: Vec<String>,
}

impl Path {
    pub open spec fn describes(&self, rec: PathRecord) -> bool {
        &&& texts(self.directions@) == rec.directions
        &&& match self.weight {
            Some(w) => rec.weight == Some(w@),
            None => rec.weight is None,
        }
        &&& self.start@ == rec.start
        &&& self.end@ == rec.end
        &&& texts(self.nodes@) == rec.nodes
        &&& self.length == rec.length
        &&& texts(self.relationships@) == rec.relationships
    }

    fn decode(v: &JsonValue) -> (r: Option<Path>)
        ensures
            match path_record(v.model()) {
                Some(rec) => r matches Some(p) && p.describes(rec),
                None => r is None,
            },
    {
        let weight = match v.get("weight") {
            None => None,
            Some(JsonValue::Null) => None,
            Some(JsonValue::Number(t)) => Some(t.clone()),
            Some(_) => return None,
        };
        let directions = match v.get("directions") {
            Some(x) => match x.to_text_list() {
                Some(l) => l,
                None => return None,
            },
            None => return None,
        };
        let start = match v.get("start") {
            Some(x) => match x.as_text() {
                Some(t) => t.clone(),
                None => return None,
            },
            None => return None,
        };
        let end = match v.get("end") {
            Some(x) => match x.as_text() {
                Some(t) => t.clone(),
                None => return None,
            },
            None => return None,
        };
        let nodes = match v.get("nodes") {
            Some(x) => match x.to_text_list() {
                Some(l) => l,
                None => return None,
            },
            None => return None,
        };
        let length = match v.get("length") {
            Some(x) => match x.as_u64() {
                Some(n) => n,
                None => return None,
            },
            None => return None,
        };
        let relationships = match v.get("relationships") {
            Some(x) => match x.to_text_list() {
                Some(l) => l,
                None => return None,
            },
            None => return None,
        };
        Some(Path { directions, weight, start, end, nodes, length, relationships })
    }
}

/// The parameters of a path query.
pub struct PathQuery {
    pub from: u64,
    pub to: Seq<char>,
    pub cost_property: Option<Seq<char>>,
    pub default_cost: Option<Seq<char>>,
    pub max_depth: Option<u64>,
    pub algorithm: Seq<char>,
}

/// A JSON string, or `null` when there is none.
pub open spec fn text_or_null(t: Option<Seq<char>>) -> JsonModel {
    match t {
        Some(s) => JsonModel::Str(s),
        None => JsonModel::Null,
    }
}

/// The body of a path query.
pub open spec fn path_body(q: PathQuery) -> JsonModel {
    JsonModel::Object(
        seq![
            ("to"@, JsonModel::Str(q.to)),
            ("cost_property"@, text_or_null(q.cost_property)),
            ("default_cost"@, match q.default_cost {
                Some(c) => JsonModel::Number(c),
                None => JsonModel::Null,
            }),
            ("max_depth"@, match q.max_depth {
                Some(d) => JsonModel::Number(decimal(d as nat)),
                None => JsonModel::Null,
            }),
            ("relationships"@, JsonModel::Null),
            ("algorithm"@, JsonModel::Str(q.algorithm)),
        ],
    )
}

/// Builds a query for the paths from one node to another.
pub struct PathBuilder {
    from: u64,
    to: String,
    cost_property: Option<String>,
    default_cost: Option<String>,
    max_depth: Option<u64>,
    algorithm: String,
}

impl View for PathBuilder {
    type V = PathQuery;

    closed spec fn view(&self) -> PathQuery {
        PathQuery {
            from: self.from,
            to: self.to@,
            cost_property: text_option(self.cost_property),
            default_cost: text_option(self.default_cost),
            max_depth: self.max_depth,
            algorithm: self.algorithm@,
        }
    }
}

fn string_or_null(s: &Option<String>) -> (r: JsonValue)
    ensures
        r.model() == text_or_null(text_option(*s)),
{
    match s {
        Some(t) => JsonValue::Str(t.clone()),
        None => JsonValue::Null,
    }
}

impl PathBuilder {
    /// A query for paths from node `from` to node `to`, whose URI is fixed
    /// here; it still needs an algorithm.
    pub fn new(client: &Client, from: u64, to: u64) -> (r: PathBuilder)
        ensures
            r@ == (PathQuery {
                from,
                to: uri_of(client@, node_path(to)),
                cost_property: None,
                default_cost: None,
                max_depth: None,
                algorithm: Seq::empty(),
            }),
    {
        let mut path = String::from_str("/db/data/node/");
        push_decimal(&mut path, to);
        PathBuilder {
            from,
            to: client.build_uri(path.as_str()),
            cost_property: None,
            default_cost: None,
            max_depth: None,
            algorithm: String::new(),
        }
    }

    /// Chooses an algorithm that is bounded by depth; Dijkstra is chosen
    /// with `path_with_weight` instead.
    pub fn path_with_depth(self, algorithm: Algorithm, max_depth: u64) -> (r: PathBuilder)
        requires
            algorithm != Algorithm::Dijkstra,
        ensures
            r@ == (PathQuery { algorithm: algorithm_name(algorithm), max_depth: Some(max_depth), ..self@ }),
    {
        PathBuilder { algorithm: algorithm_text(algorithm), max_depth: Some(max_depth), ..self }
    }

    /// Chooses the cheapest path by the relationship property
    /// `cost_property`; `default_cost`, a JSON number, is the cost of a
    /// relationship that lacks the property.
    pub fn path_with_weight(self, cost_property: String, default_cost: String) -> (r: PathBuilder)
        ensures
            r@ == (PathQuery {
                algorithm: algorithm_name(Algorithm::Dijkstra),
                cost_property: Some(cost_property@),
                default_cost: Some(default_cost@),
                ..self@
            }),
    {
        PathBuilder {
            algorithm: algorithm_text(Algorithm::Dijkstra),
            cost_property: Some(cost_property),
            default_cost: Some(default_cost),
            ..self
        }
    }

    fn body(&self) -> (r: JsonValue)
        ensures
            r.model() == path_body(self@),
    {
        let default_cost = match &self.default_cost {
            Some(c) => JsonValue::Number(c.clone()),
            None => JsonValue::Null,
        };
        let max_depth = match self.max_depth {
            Some(d) => {
                let mut t = String::new();
                push_decimal(&mut t, d);
                JsonValue::Number(t)
            },
            None => JsonValue::Null,
        };
        let mut members: Vec<(String, JsonValue)> = Vec::new();
        members.push((String::from_str("to"), JsonValue::Str(self.to.clone())));
        members.push((String::from_str("cost_property"), string_or_null(&self.cost_property)));
        members.push((String::from_str("default_cost"), default_cost));
        members.push((String::from_str("max_depth"), max_depth));
        members.push((String::from_str("relationships"), JsonValue::Null));
        members.push((String::from_str("algorithm"), JsonValue::Str(self.algorithm.clone())));
        let body = JsonValue::Object(members);
        proof {
            let want = path_body(self@)->Object_0;
            let got = body.model()->Object_0;
            assert(got.len() == want.len());
            assert forall|j: int| 0 <= j < got.len() implies got[j] == want[j] by {
                assert(got[j] == (members@[j].0@, members@[j].1.model()));
            }
            assert(got =~= want);
        }
        body
    }

    /// The request for the one path the algorithm selects.
    pub fn get_one_request(&self, client: &Client) -> (r: Request)
        ensures
            r.method == Method::Post,
            r.uri@ == uri_of(client@, node_path(self@.from) + "/path"@),
            model_option(r.body) == Some(path_body(self@)),
    {
        let mut path = String::from_str("/db/data/node/");
        push_decimal(&mut path, self.from);
        path.append("/path");
        client.request(Method::Post, path.as_str(), Some(self.body()))
    }

    /// The request for all the paths the algorithm finds.
    pub fn get_all_request(&self, client: &Client) -> (r: Request)
        ensures
            r.method == Method::Post,
            r.uri@ == uri_of(client@, node_path(self@.from) + "/paths"@),
            model_option(r.body) == Some(path_body(self@)),
    {
        let mut path = String::from_str("/db/data/node/");
        push_decimal(&mut path, self.from);
        path.append("/paths");
        client.request(Method::Post, path.as_str(), Some(self.body()))
    }

    /// The path in the answer to `get_one_request`.
    pub fn get_one(&self, outcome: Outcome) -> (r: Result<Path, Error>)
        ensures
            match status_gate(outcome, OK) {
                Err(e) => r == Err::<Path, Error>(e),
                Ok(body) => match model_option(body) {
                    Some(m) => match path_record(m) {
                        Some(rec) => r matches Ok(p) && p.describes(rec),
                        None => r == Err::<Path, Error>(Error::DataError),
                    },
                    None => r == Err::<Path, Error>(Error::DataError),
                },
            },
    {
        match expect_status(outcome, OK) {
            Err(e) => Err(e),
            Ok(None) => Err(Error::DataError),
            Ok(Some(v)) => match Path::decode(&v) {
                Some(p) => Ok(p),
                None => Err(Error::DataError),
            },
        }
    }

    /// The paths in the answer to `get_all_request`, in the server's order;
    /// none at all is a success.
    pub fn get_all(&self, outcome: Outcome) -> (r: Result<Vec<Path>, Error>)
        ensures
            match status_gate(outcome, OK) {
                Err(e) => r == Err::<Vec<Path>, Error>(e),
                Ok(body) => match model_option(body) {
                    Some(m) => match path_list(m) {
                        Some(recs) => r matches Ok(paths) && paths.len() == recs.len() && forall|i: int|
                            0 <= i < recs.len() ==> (#[trigger] paths@[i]).describes(recs[i]),
                        None => r == Err::<Vec<Path>, Error>(Error::DataError),
                    },
                    None => r == Err::<Vec<Path>, Error>(Error::DataError),
                },
            },
    {
        let v = match expect_status(outcome, OK) {
            Err(e) => return Err(e),
            Ok(None) => return Err(Error::DataError),
            Ok(Some(v)) => v,
        };
        let items = match &v {
            JsonValue::Array(items) => items,
            _ => return Err(Error::DataError),
        };
        let ghost m = v.model()->Array_0;
        assert(forall|j: int| 0 <= j < m.len() ==> #[trigger] m[j] == items@[j].model());
        let mut out: Vec<Path> = Vec::new();
        let mut i: usize = 0;
        while i < items.len()
            invariant
                status_gate(outcome, OK) == Ok::<Option<JsonValue>, Error>(Some(v)),
                v is Array,
                *items == v->Array_0,
                m == v.model()->Array_0,
                m.len() == items.len(),
                forall|j: int| 0 <= j < m.len() ==> #[trigger] m[j] == items@[j].model(),
                0 <= i <= items.len(),
                out.len() == i,
                forall|j: int|
                    0 <= j < i ==> path_record(#[trigger] m[j]) is Some && out@[j].describes(
                        path_record(m[j])->0,
                    ),
            decreases items.len() - i,
        {
            match Path::decode(&items[i]) {
                Some(p) => out.push(p),
                None => {
                    assert(path_record(m[i as int]) is None);
                    assert(v.model() == JsonModel::Array(m));
                    assert(path_list(v.model()) is None);
                    return Err(Error::DataError);
                },
            }
            i = i + 1;
        }
        assert(path_list(v.model()) is Some);
        Ok(out)
    }
}

} // verus!
