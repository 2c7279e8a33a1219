//! Relationships between nodes: connect, read, update a property, delete,
//! and list those of a node.
use vstd::prelude::*;
use crate::client::{uri_of, Client};
use crate::http::{done, expect_done, expect_status, status_gate, Method, Outcome, Request, CREATED, NO_CONTENT, OK};
use crate::json::{model_option, text_field, unsigned_field, JsonModel, JsonValue};
use crate::node::node_path;
use crate::text::{
    decimal, find_last, is_decimal, is_digit, last_at_or_before, last_occurrence, lemma_decimal_round_trip,
    occurs_at, parse_u64, parse_u64_spec, push_decimal,
};
use crate::types::Error;

verus! {

/// The id of the node that `url` names: the text after the last `node/` in
/// it, read as a decimal number.
pub open spec fn node_id_of(url: Seq<char>) -> Option<u64> {
    match last_occurrence(url, "node/"@) {
        Some(i) => parse_u64_spec(url.subrange(i + "node/"@.len(), url.len() as int)),
        None => None,
    }
}

/// The id of the node that `url` names; a `DataError` when `url` holds no
/// `node/` or what follows the last one is not a number.
pub fn get_node_id_from_url(url: String) -> (r: Result<u64, Error>)
    ensures
        r == match node_id_of(url@) {
            Some(id) => Ok::<u64, Error>(id),
            None => Err(Error::DataError),
        },
{
    let marker = "node/";
    proof {
        reveal_strlit("node/");
    }
    let s = url.as_str();
    match find_last(s, marker) {
        Some(i) => {
            let n = s.unicode_len();
            match parse_u64(s.substring_char(i + 5, n)) {
                Some(id) => Ok(id),
                None => Err(Error::DataError),
            }
        },
        None => Err(Error::DataError),
    }
}

proof fn lemma_last_marker(s: Seq<char>, p: Seq<char>, d: Seq<char>, i: int)
    requires
        s == p + "node/"@ + d,
        is_decimal(d),
        p.len() <= i <= s.len() - 5,
        "node/"@ == seq!['n', 'o', 'd', 'e', '/'],
    ensures
        last_at_or_before(s, "node/"@, i) == Some(p.len() as int),
    decreases i,
{
    let m = "node/"@;
    if i == p.len() {
        assert(s.subrange(i, i + 5) =~= m);
    } else {
        assert(s[i + 4] == d[i + 4 - p.len() - 5]);
        assert(is_digit(d[i + 4 - p.len() - 5]));
        assert(s.subrange(i, i + 5)[4] != m[4]);
        assert(!occurs_at(s, m, i));
        lemma_last_marker(s, p, d, i - 1);
    }
}

/// The id read from a URI that ends in `node/` and a number written in
/// decimal is that number, whatever precedes it.
pub proof fn lemma_node_id_of_node_uri(prefix: Seq<char>, id: u64)
    ensures
        node_id_of(prefix + "node/"@ + decimal(id as nat)) == Some(id),
{
    reveal_strlit("node/");
    assert("node/"@ =~= seq!['n', 'o', 'd', 'e', '/']);
    let d = decimal(id as nat);
    let s = prefix + "node/"@ + d;
    lemma_decimal_round_trip(id as nat);
    lemma_last_marker(s, prefix, d, s.len() - 5);
    assert(s.subrange(prefix.len() + 5int, s.len() as int) =~= d);
}

/// A relationship as the server describes it.
pub struct RelationshipRecord {
    pub id: u64,
    pub rel_type: Seq<char>,
    pub from: u64,
    pub to: u64,
    pub data: Option<JsonModel>,
}

/// The answer to a connection: a document with `start` and `end` URIs, a
/// `metadata.id` and `data`.
pub open spec fn connected_record(m: JsonModel) -> Option<(u64, JsonModel)> {
    match (text_field(m, "start"@), text_field(m, "end"@), m.field("metadata"@), m.field("data"@)) {
        (Some(_), Some(_), Some(meta), Some(data)) => match unsigned_field(meta, "id"@) {
            Some(id) => Some((id, data)),
            None => None,
        },
        _ => None,
    }
}

/// The type, start and end node ids of a relationship document.
pub open spec fn ends_record(m: JsonModel) -> Option<(Seq<char>, u64, u64)> {
    match (text_field(m, "type"@), text_field(m, "start"@), text_field(m, "end"@)) {
        (Some(t), Some(start), Some(end)) => match (node_id_of(start), node_id_of(end)) {
            (Some(from), Some(to)) => Some((t, from, to)),
            _ => None,
        },
        _ => None,
    }
}

/// A full relationship document, read as the relationship with id `id`.
pub open spec fn relationship_record(m: JsonModel, id: u64) -> Option<RelationshipRecord> {
    match (connected_record(m), ends_record(m)) {
        (Some((_, data)), Some((t, from, to))) => Some(
            RelationshipRecord { id, rel_type: t, from, to, data: Some(data) },
        ),
        _ => None,
    }
}

/// An element of the list of a node's relationships, without properties.
pub open spec fn listed_record(m: JsonModel) -> Option<RelationshipRecord> {
    match (m.field("metadata"@), ends_record(m)) {
        (Some(meta), Some((t, from, to))) => match unsigned_field(meta, "id"@) {
            Some(id) => Some(RelationshipRecord { id, rel_type: t, from, to, data: None }),
            None => None,
        },
        _ => None,
    }
}

/// The path of the relationship with id `id`.
pub open spec fn relationship_path(id: u64) -> Seq<char> {
    "/db/data/relationship/"@ + decimal(id as nat)
}

/// The body that connects to node `to`, with type `rel_type` and, when
/// there are any, properties.
pub open spec fn connect_body(to_uri: Seq<char>, rel_type: Seq<char>, data: Option<JsonModel>) -> JsonModel {
    let base = seq![("to"@, JsonModel::Str(to_uri)), ("type"@, JsonModel::Str(rel_type))];
    JsonModel::Object(
        match data {
            Some(d) => base.push(("data"@, d)),
            None => base,
        },
    )
}

/// A relationship between two nodes, with a type and properties.
#[derive(Debug)]
pub struct Relationship {
    pub id: u64,
    pub rel_type: String,
    pub from: u64,
    pub to: u64,
    pub properties: Option<JsonValue>,
}

impl Relationship {
    /// `self` is the relationship that `rec` describes.
    pub open spec fn describes(&self, rec: RelationshipRecord) -> bool {
        &&& self.id == rec.id
        &&& self.rel_type@ == rec.rel_type
        &&& self.from == rec.from
        &&& self.to == rec.to
        &&& model_option(self.properties) == rec.data
    }

    /// The request that connects node `id_from` to node `id_to` with a
    /// relationship of type `rel_type`; `data` is sent only when there are
    /// properties.
    pub fn connect_request(
        client: &Client,
        id_from: u64,
        id_to: u64,
        rel_type: &str,
        properties: Option<JsonValue>,
    ) -> (r: Request)
        ensures
            r.method == Method::Post,
            r.uri@ == uri_of(client@, node_path(id_from) + "/relationships"@),
            model_option(r.body) == Some(
                connect_body(uri_of(client@, node_path(id_to)), rel_type@, model_option(properties)),
            ),
    {
        let mut to_path = String::from_str("/db/data/node/");
        push_decimal(&mut to_path, id_to);
        let to_uri = client.build_uri(to_path.as_str());
        let mut members: Vec<(String, JsonValue)> = Vec::new();
        members.push((String::from_str("to"), JsonValue::Str(to_uri)));
        members.push((String::from_str("type"), JsonValue::from_text(rel_type)));
        let ghost props = model_option(properties);
        match properties {
            Some(p) => members.push((String::from_str("data"), p)),
            None => {},
        }
        let body = JsonValue::Object(members);
        proof {
            let want = connect_body(uri_of(client@, node_path(id_to)), rel_type@, props)->Object_0;
            let got = body.model()->Object_0;
            assert(got.len() == want.len());
            assert forall|j: int| 0 <= j < got.len() implies got[j] == want[j] by {
                assert(got[j] == (members@[j].0@, members@[j].1.model()));
            }
            assert(got =~= want);
        }
        let mut path = String::from_str("/db/data/node/");
        push_decimal(&mut path, id_from);
        path.append("/relationships");
        client.request(Method::Post, path.as_str(), Some(body))
    }

    /// The relationship created by `connect_request`, from the answer to
    /// it; its ends are the ids the caller gave.
    pub fn connect(id_from: u64, id_to: u64, rel_type: String, outcome: Outcome) -> (r: Result<Relationship, Error>)
        ensures
            match status_gate(outcome, CREATED) {
                Err(e) => r == Err::<Relationship, Error>(e),
                Ok(body) => match model_option(body) {
                    Some(m) => match connected_record(m) {
                        Some((id, data)) => r is Ok && r->Ok_0.describes(
                            RelationshipRecord { id, rel_type: rel_type@, from: id_from, to: id_to, data: Some(data) },
                        ),
                        None => r == Err::<Relationship, Error>(Error::DataError),
                    },
                    None => r == Err::<Relationship, Error>(Error::DataError),
                },
            },
    {
        let v = match expect_status(outcome, CREATED) {
            Err(e) => return Err(e),
            Ok(None) => return Err(Error::DataError),
            Ok(Some(v)) => v,
        };
        match Relationship::decode_connected(&v) {
            Some((id, data)) => Ok(Relationship { id, rel_type, from: id_from, to: id_to, properties: Some(data) }),
            None => Err(Error::DataError),
        }
    }

    fn decode_connected(v: &JsonValue) -> (r: Option<(u64, JsonValue)>)
        ensures
            match connected_record(v.model()) {
                Some((id, data)) => r matches Some((rid, rdata)) && rid == id && rdata.model() == data,
                None => r is None,
            },
    {
        match (v.get("start"), v.get("end"), v.get("metadata"), v.get("data")) {
            (Some(start), Some(end), Some(meta), Some(data)) => {
                if start.as_text().is_none() || end.as_text().is_none() {
                    return None;
                }
                match meta.get("id") {
                    Some(x) => match x.as_u64() {
                        Some(id) => Some((id, data.deep_copy())),
                        None => None,
                    },
                    None => None,
                }
            },
            _ => None,
        }
    }

    fn decode_ends(v: &JsonValue) -> (r: Option<(String, u64, u64)>)
        ensures
            match ends_record(v.model()) {
                Some((t, from, to)) => r matches Some((rt, rfrom, rto)) && rt@ == t && rfrom == from && rto == to,
                None => r is None,
            },
    {
        let (t, start, end) = match (v.get("type"), v.get("start"), v.get("end")) {
            (Some(t), Some(start), Some(end)) => match (t.as_text(), start.as_text(), end.as_text()) {
                (Some(t), Some(start), Some(end)) => (t, start, end),
                _ => return None,
            },
            _ => return None,
        };
        match (get_node_id_from_url(start.clone()), get_node_id_from_url(end.clone())) {
            (Ok(from), Ok(to)) => Some((t.clone(), from, to)),
            _ => None,
        }
    }

    fn decode_listed(v: &JsonValue) -> (r: Option<Relationship>)
        ensures
            match listed_record(v.model()) {
                Some(rec) => r matches Some(rel) && rel.describes(rec),
                None => r is None,
            },
    {
        let id = match v.get("metadata") {
            Some(meta) => match meta.get("id") {
                Some(x) => match x.as_u64() {
                    Some(id) => id,
                    None => return None,
                },
                None => return None,
            },
            None => return None,
        };
        match Relationship::decode_ends(v) {
            Some((rel_type, from, to)) => Some(Relationship { id, rel_type, from, to, properties: None }),
            None => None,
        }
    }

    /// The request that reads the relationship with id `id`.
    pub fn get_request(client: &Client, id: u64) -> (r: Request)
        ensures
            r.method == Method::Get,
            r.uri@ == uri_of(client@, relationship_path(id)),
            r.body is None,
    {
        let mut path = String::from_str("/db/data/relationship/");
        push_decimal(&mut path, id);
        client.request(Method::Get, path.as_str(), None)
    }

    /// The relationship with id `id`, from the answer to `get_request`; its
    /// ends are read from the `start` and `end` URIs.
    pub fn get(id: u64, outcome: Outcome) -> (r: Result<Relationship, Error>)
        ensures
            match status_gate(outcome, OK) {
                Err(e) => r == Err::<Relationship, Error>(e),
                Ok(body) => match model_option(body) {
                    Some(m) => match relationship_record(m, id) {
                        Some(rec) => r is Ok && r->Ok_0.describes(rec),
                        None => r == Err::<Relationship, Error>(Error::DataError),
                    },
                    None => r == Err::<Relationship, Error>(Error::DataError),
                },
            },
    {
        let v = match expect_status(outcome, OK) {
            Err(e) => return Err(e),
            Ok(None) => return Err(Error::DataError),
            Ok(Some(v)) => v,
        };
        match (Relationship::decode_connected(&v), Relationship::decode_ends(&v)) {
            (Some((_, data)), Some((rel_type, from, to))) => Ok(
                Relationship { id, rel_type, from, to, properties: Some(data) },
            ),
            _ => Err(Error::DataError),
        }
    }

    /// The request that sets the property `prop` of this relationship to
    /// `value` on the server.
    pub fn set_property_request(&self, client: &Client, prop: &str, value: JsonValue) -> (r: Request)
        ensures
            r.method == Method::Put,
            r.uri@ == uri_of(client@, relationship_path(self.id) + "/properties/"@ + prop@),
            r.body == Some(value),
    {
        let mut path = String::from_str("/db/data/relationship/");
        push_decimal(&mut path, self.id);
        path.append("/properties/");
        path.append(prop);
        client.request(Method::Put, path.as_str(), Some(value))
    }

    /// Whether the server took the request of `set_property_request`. This
    /// value is left as it was: read the relationship again to see the
    /// change.
    pub fn set_property(&self, outcome: Outcome) -> (r: Result<(), Error>)
        ensures
            r == done(outcome, NO_CONTENT),
    {
        expect_done(outcome, NO_CONTENT)
    }

    /// The request that deletes this relationship.
    pub fn delete_request(&self, client: &Client) -> (r: Request)
        ensures
            r.method == Method::Delete,
            r.uri@ == uri_of(client@, relationship_path(self.id)),
            r.body is None,
    {
        Relationship::get_request(client, self.id).with_method(Method::Delete)
    }

    /// Whether the server took the request of `delete_request`.
    pub fn delete(&self, outcome: Outcome) -> (r: Result<(), Error>)
        ensures
            r == done(outcome, NO_CONTENT),
    {
        expect_done(outcome, NO_CONTENT)
    }
}

/// The relationships of a node, read in one request.
pub struct RelationshipCollection;

/// The list of relationships in a JSON array, each without properties.
pub open spec fn relationship_list(m: JsonModel) -> Option<Seq<RelationshipRecord>> {
    match m {
        JsonModel::Array(items) => if forall|i: int| 0 <= i < items.len() ==> #[trigger] listed_record(items[i]) is Some {
            Some(items.map_values(|x: JsonModel| listed_record(x)->0))
        } else {
            None
        },
        _ => None,
    }
}

impl RelationshipCollection {
    /// The request that lists all relationships of node `id`.
    pub fn all_for_node_request(client: &Client, id: u64) -> (r: Request)
        ensures
            r.method == Method::Get,
            r.uri@ == uri_of(client@, node_path(id) + "/relationships/all"@),
            r.body is None,
    {
        let mut path = String::from_str("/db/data/node/");
        push_decimal(&mut path, id);
        path.append("/relationships/all");
        client.request(Method::Get, path.as_str(), None)
    }

    /// The relationships in the answer to `all_for_node_request`, in the
    /// server's order.
    pub fn all_for_node(outcome: Outcome) -> (r: Result<Vec<Relationship>, Error>)
        ensures
            match status_gate(outcome, OK) {
                Err(e) => r == Err::<Vec<Relationship>, Error>(e),
                Ok(body) => match model_option(body) {
                    Some(m) => match relationship_list(m) {
                        Some(recs) => r is Ok && r->Ok_0.len() == recs.len() && forall|i: int|
                            0 <= i < recs.len() ==> (#[trigger] r->Ok_0@[i]).describes(recs[i]),
                        None => r == Err::<Vec<Relationship>, Error>(Error::DataError),
                    },
                    None => r == Err::<Vec<Relationship>, Error>(Error::DataError),
                },
            },
    {
        let v = match expect_status(outcome, OK) {
            Err(e) => return Err(e),
            Ok(None) => return Err(Error::DataError),
            Ok(Some(v)) => v,
        };
        let items = match &v {
            JsonValue::Array(items) => items,
            _ => return Err(Error::DataError),
        };
        let ghost m = v.model()->Array_0;
        assert(forall|j: int| 0 <= j < m.len() ==> #[trigger] m[j] == items@[j].model());
        let mut out: Vec<Relationship> = Vec::new();
        let mut i: usize = 0;
        while i < items.len()
            invariant
                status_gate(outcome, OK) == Ok::<Option<JsonValue>, Error>(Some(v)),
                v is Array,
                *items == v->Array_0,
                m == v.model()->Array_0,
                m.len() == items.len(),
                forall|j: int| 0 <= j < m.len() ==> #[trigger] m[j] == items@[j].model(),
                0 <= i <= items.len(),
                out.len() == i,
                forall|j: int|
                    0 <= j < i ==> listed_record(#[trigger] m[j]) is Some && out@[j].describes(
                        listed_record(m[j])->0,
                    ),
            decreases items.len() - i,
        {
            match Relationship::decode_listed(&items[i]) {
                Some(rel) => out.push(rel),
                None => {
                    assert(listed_record(m[i as int]) is None);
                    assert(v.model() == JsonModel::Array(m));
                    assert(relationship_list(v.model()) is None);
                    return Err(Error::DataError);
                },
            }
            i = i + 1;
        }
        assert(relationship_list(v.model()) is Some);
        Ok(out)
    }
}

} // verus!
