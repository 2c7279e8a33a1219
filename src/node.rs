//! Graph nodes: create, read, label and delete.
use vstd::prelude::*;
use crate::client::{uri_of, Client};
use crate::http::{done, expect_done, expect_status, status_gate, Method, Outcome, Request, CREATED, NO_CONTENT, OK};
use crate::json::{model_option, text_array, text_list_field, texts, unsigned_field, JsonModel, JsonValue};
use crate::text::{decimal, push_decimal};
use crate::types::Error;

verus! {

/// A node as the server describes it: its id, its labels in server order
/// and its properties.
pub struct NodeRecord {
    pub id: u64,
    pub labels: Seq<Seq<char>>,
    pub data: JsonModel,
}

/// The node described by a document of the form
/// `{"metadata": {"id": .., "labels": [..]}, "data": ..}`.
pub open spec fn node_record(m: JsonModel) -> Option<NodeRecord> {
    match (m.field("metadata"@), m.field("data"@)) {
        (Some(meta), Some(data)) => match (unsigned_field(meta, "id"@), text_list_field(meta, "labels"@)) {
            (Some(id), Some(labels)) => Some(NodeRecord { id, labels, data }),
            _ => None,
        },
        _ => None,
    }
}

/// What an answer with status `expected` says of a node.
pub open spec fn node_answer(outcome: Outcome, expected: u16) -> Result<NodeRecord, Error> {
    match status_gate(outcome, expected) {
        Err(e) => Err(e),
        Ok(None) => Err(Error::DataError),
        Ok(Some(v)) => match node_record(v.model()) {
            Some(rec) => Ok(rec),
            None => Err(Error::DataError),
        },
    }
}

/// The outcome of creating a node whose id is `id`: a node that already
/// exists on the server is not created again.
pub open spec fn add_result(id: Option<u64>, outcome: Outcome) -> Result<NodeRecord, Error> {
    if id is Some {
        Err(Error::IntegrityError)
    } else {
        node_answer(outcome, CREATED)
    }
}

/// The path of the node with id `id`.
pub open spec fn node_path(id: u64) -> Seq<char> {
    "/db/data/node/"@ + decimal(id as nat)
}

/// A graph node. It has no id until it is created on the server; its
/// properties are any JSON document (by default, none).
#[derive(Debug)]
pub struct Node {
    pub id: Option<u64>,
    pub labels: Vec<String>,
    pub properties: Option<JsonValue>,
}

impl Node {
    /// `self` is the node that `rec` describes.
    pub open spec fn describes(&self, rec: NodeRecord) -> bool {
        &&& self.id == Some(rec.id)
        &&& texts(self.labels@) == rec.labels
        &&& model_option(self.properties) == Some(rec.data)
    }

    /// A node that does not exist on the server yet.
    pub fn new() -> (r: Node)
        ensures
            r.id is None,
            r.labels@.len() == 0,
            r.properties is None,
    {
        Node { id: None, labels: Vec::new(), properties: None }
    }

    pub fn get_id(&self) -> (r: Option<u64>)
        ensures
            r == self.id,
    {
        self.id
    }

    pub fn set_properties(&mut self, props: JsonValue)
        ensures
            final(self).properties == Some(props),
            final(self).id == old(self).id,
            final(self).labels == old(self).labels,
    {
        self.properties = Some(props);
    }

    /// The node that a document describes.
    fn decode(v: &JsonValue) -> (r: Result<Node, Error>)
        ensures
            match node_record(v.model()) {
                Some(rec) => r is Ok && r->Ok_0.describes(rec),
                None => r == Err::<Node, Error>(Error::DataError),
            },
    {
        let (meta, data) = match (v.get("metadata"), v.get("data")) {
            (Some(meta), Some(data)) => (meta, data),
            _ => return Err(Error::DataError),
        };
        let id = match meta.get("id") {
            Some(x) => match x.as_u64() {
                Some(id) => id,
                None => return Err(Error::DataError),
            },
            None => return Err(Error::DataError),
        };
        let labels = match meta.get("labels") {
            Some(x) => match x.to_text_list() {
                Some(labels) => labels,
                None => return Err(Error::DataError),
            },
            None => return Err(Error::DataError),
        };
        Ok(Node { id: Some(id), labels, properties: Some(data.deep_copy()) })
    }

    /// Decodes the node in an answer expected with status `expected`.
    fn from_answer(outcome: Outcome, expected: u16) -> (r: Result<Node, Error>)
        ensures
            match node_answer(outcome, expected) {
                Ok(rec) => r is Ok && r->Ok_0.describes(rec),
                Err(e) => r == Err::<Node, Error>(e),
            },
    {
        match expect_status(outcome, expected) {
            Err(e) => Err(e),
            Ok(None) => Err(Error::DataError),
            Ok(Some(v)) => Node::decode(&v),
        }
    }

    /// The request that reads the node with id `id`.
    pub fn get_request(client: &Client, id: u64) -> (r: Request)
        ensures
            r.method == Method::Get,
            r.uri@ == uri_of(client@, node_path(id)),
            r.body is None,
    {
        let mut path = String::from_str("/db/data/node/");
        push_decimal(&mut path, id);
        client.request(Method::Get, path.as_str(), None)
    }

    /// The node read by `get_request`, from the answer to it.
    pub fn get(outcome: Outcome) -> (r: Result<Node, Error>)
        ensures
            match node_answer(outcome, OK) {
                Ok(rec) => r is Ok && r->Ok_0.describes(rec),
                Err(e) => r == Err::<Node, Error>(e),
            },
    {
        Node::from_answer(outcome, OK)
    }

    /// The request that creates this node with its properties; the body is
    /// empty, not `null`, when it has none. A node that already has an id
    /// is not created again.
    pub fn add_request(&self, client: &Client) -> (r: Result<Request, Error>)
        ensures
            self.id is Some ==> r == Err::<Request, Error>(Error::IntegrityError),
            self.id is None ==> r is Ok && r->Ok_0.method == Method::Post && r->Ok_0.uri@
                == uri_of(client@, "/db/data/node"@) && model_option(r->Ok_0.body)
                == model_option(self.properties),
    {
        if self.id.is_some() {
            return Err(Error::IntegrityError);
        }
        let body = match &self.properties {
            Some(props) => Some(props.deep_copy()),
            None => None,
        };
        Ok(client.request(Method::Post, "/db/data/node", body))
    }

    /// Takes the id, labels and properties that the server gave the node in
    /// its answer to `add_request`.
    pub fn add(&mut self, outcome: Outcome) -> (r: Result<(), Error>)
        ensures
            match add_result(old(self).id, outcome) {
                Ok(rec) => r is Ok && final(self).describes(rec),
                Err(e) => r == Err::<(), Error>(e) && *final(self) == *old(self),
            },
    {
        if self.id.is_some() {
            return Err(Error::IntegrityError);
        }
        match Node::from_answer(outcome, CREATED) {
            Ok(node) => {
                *self = node;
                Ok(())
            },
            Err(e) => Err(e),
        }
    }

    /// The request that adds `labels` to this node, which must exist on the
    /// server.
    pub fn add_labels_request(&self, client: &Client, labels: &Vec<String>) -> (r: Result<Request, Error>)
        ensures
            self.id is None ==> r == Err::<Request, Error>(Error::IntegrityError),
            self.id is Some ==> r is Ok && r->Ok_0.method == Method::Post && r->Ok_0.uri@
                == uri_of(client@, node_path(self.id->0) + "/labels"@) && model_option(r->Ok_0.body)
                == Some(text_array(texts(labels@))),
    {
        let id = match self.id {
            Some(id) => id,
            None => return Err(Error::IntegrityError),
        };
        let mut path = String::from_str("/db/data/node/");
        push_decimal(&mut path, id);
        path.append("/labels");
        Ok(client.request(Method::Post, path.as_str(), Some(JsonValue::from_texts(labels))))
    }

    /// Appends `labels`, in order and as given, once the server has
    /// confirmed the request of `add_labels_request`.
    pub fn add_labels(&mut self, labels: Vec<String>, outcome: Outcome) -> (r: Result<(), Error>)
        ensures
            old(self).id is None ==> r == Err::<(), Error>(Error::IntegrityError),
            old(self).id is Some ==> r == done(outcome, NO_CONTENT),
            final(self).id == old(self).id,
            final(self).properties == old(self).properties,
            r is Ok ==> final(self).labels@ == old(self).labels@ + labels@,
            r is Err ==> final(self).labels == old(self).labels,
    {
        if self.id.is_none() {
            return Err(Error::IntegrityError);
        }
        let r = expect_done(outcome, NO_CONTENT);
        if r.is_ok() {
            let mut added = labels;
            self.labels.append(&mut added);
        }
        r
    }

    /// The request that deletes this node, which must exist on the server.
    pub fn delete_request(&self, client: &Client) -> (r: Result<Request, Error>)
        ensures
            self.id is None ==> r == Err::<Request, Error>(Error::IntegrityError),
            self.id is Some ==> r is Ok && r->Ok_0.method == Method::Delete && r->Ok_0.uri@
                == uri_of(client@, node_path(self.id->0)) && r->Ok_0.body is None,
    {
        match self.id {
            Some(id) => Ok(Node::get_request(client, id).with_method(Method::Delete)),
            None => Err(Error::IntegrityError),
        }
    }

    /// Ends the life of this node with the answer to `delete_request`.
    pub fn delete(self, outcome: Outcome) -> (r: Result<(), Error>)
        ensures
            self.id is None ==> r == Err::<(), Error>(Error::IntegrityError),
            self.id is Some ==> r == done(outcome, NO_CONTENT),
    {
        if self.id.is_none() {
            return Err(Error::IntegrityError);
        }
        expect_done(outcome, NO_CONTENT)
    }
}

/// Creating a node a second time is refused, whatever the server would
/// answer: the first creation gave it an id.
pub proof fn law_create_twice(first: Outcome, second: Outcome)
    requires
        add_result(None, first) is Ok,
    ensures
        add_result(Some(add_result(None, first)->Ok_0.id), second) == Err::<NodeRecord, Error>(
            Error::IntegrityError,
        ),
{
}

/// Properties survive a round trip: when the server reports the created
/// node with the properties it was sent, and reports the same record when
/// the node is read back by its id, the node read back has the id of the
/// created node and the properties it was created with.
pub proof fn law_create_then_get(
    before: Node,
    created: Node,
    reloaded: Node,
    create_answer: Outcome,
    get_answer: Outcome,
)
    requires
        before.id is None,
        before.properties is Some,
        add_result(before.id, create_answer) matches Ok(rec) && Some(rec.data) == model_option(before.properties)
            && created.describes(rec),
        node_answer(get_answer, OK) == add_result(before.id, create_answer),
        reloaded.describes(node_answer(get_answer, OK)->Ok_0),
    ensures
        reloaded.id == created.id,
        model_option(reloaded.properties) == model_option(before.properties),
        model_option(created.properties) == model_option(before.properties),
{
}

} // verus!
