//! Schema indexes on a label and a property.
use vstd::prelude::*;
use crate::client::{uri_of, Client};
use crate::http::{done, expect_done, Method, Outcome, Request, NO_CONTENT, OK};
use crate::json::{model_option, text_array, JsonModel, JsonValue};
use crate::types::Error;

verus! {

/// An index on the property `property_key` of the nodes labelled `label`.
#[derive(Debug)]
pub struct Index {
    pub property_key: String,
    pub label: String,
}

/// The path of the indexes of `label`.
pub open spec fn index_path(label: Seq<char>) -> Seq<char> {
    "/db/data/schema/index/"@ + label
}

impl Index {
    pub fn new(label: String, property_key: String) -> (r: Index)
        ensures
            r.label == label,
            r.property_key == property_key,
    {
        Index { property_key, label }
    }

    /// The request that creates the index.
    pub fn create_request(&self, client: &Client) -> (r: Request)
        ensures
            r.method == Method::Post,
            r.uri@ == uri_of(client@, index_path(self.label@)),
            model_option(r.body) == Some(
                JsonModel::Object(seq![("property_keys"@, text_array(seq![self.property_key@]))]),
            ),
    {
        let mut path = String::from_str("/db/data/schema/index/");
        path.append(self.label.as_str());
        let mut keys: Vec<String> = Vec::new();
        keys.push(self.property_key.clone());
        let mut members: Vec<(String, JsonValue)> = Vec::new();
        members.push((String::from_str("property_keys"), JsonValue::from_texts(&keys)));
        let body = JsonValue::Object(members);
        proof {
            let got = body.model()->Object_0;
            assert(got[0] == (members@[0].0@, members@[0].1.model()));
            assert(crate::json::texts(keys@) =~= seq![self.property_key@]);
            assert(got =~= seq![("property_keys"@, text_array(seq![self.property_key@]))]);
        }
        client.request(Method::Post, path.as_str(), Some(body))
    }

    /// Whether the server took the request of `create_request`.
    pub fn create(&self, outcome: Outcome) -> (r: Result<(), Error>)
        ensures
            r == done(outcome, OK),
    {
        expect_done(outcome, OK)
    }

    /// The request that deletes the index.
    pub fn delete_request(&self, client: &Client) -> (r: Request)
        ensures
            r.method == Method::Delete,
            r.uri@ == uri_of(client@, index_path(self.label@) + "/"@ + self.property_key@),
            r.body is None,
    {
        let mut path = String::from_str("/db/data/schema/index/");
        path.append(self.label.as_str());
        path.append("/");
        path.append(self.property_key.as_str());
        client.request(Method::Delete, path.as_str(), None)
    }

    /// Whether the server took the request of `delete_request`.
    pub fn delete(&self, outcome: Outcome) -> (r: Result<(), Error>)
        ensures
            r == done(outcome, NO_CONTENT),
    {
        expect_done(outcome, NO_CONTENT)
    }
}

} // verus!
