//! Cypher statements, run at once or inside a transaction that spans
//! several calls.
use vstd::prelude::*;
use crate::client::{uri_of, Client};
use crate::http::{done, expect_done, expect_status, status_gate, Method, Outcome, Request, CREATED, OK};
use crate::json::{model_option, text_list_field, texts, JsonModel, JsonValue};
use crate::text::{decimal, find_first, find_last, first_occurrence, last_occurrence, parse_u64, parse_u64_spec, push_decimal};
use crate::types::Error;

verus! {

/// The id of the transaction that a commit URL names: the text between the
/// last `transaction/` and the first `/commit` after it (or the end of the
/// URL), read as a decimal number.
pub open spec fn transaction_id_of(url: Seq<char>) -> Option<u64> {
    match last_occurrence(url, "transaction/"@) {
        Some(i) => {
            let rest = url.subrange(i + "transaction/"@.len(), url.len() as int);
            let segment = match first_occurrence(rest, "/commit"@) {
                Some(j) => rest.subrange(0, j),
                None => rest,
            };
            parse_u64_spec(segment)
        },
        None => None,
    }
}

/// The id of the transaction that the commit URL `url` names.
pub fn transaction_id_from_url(url: &str) -> (r: Option<u64>)
    ensures
        r == transaction_id_of(url@),
{
    proof {
        reveal_strlit("transaction/");
    }
    match find_last(url, "transaction/") {
        Some(i) => {
            let n = url.unicode_len();
            let rest = url.substring_char(i + 12, n);
            let segment = match find_first(rest, "/commit") {
                Some(j) => rest.substring_char(0, j),
                None => rest,
            };
            parse_u64(segment)
        },
        None => None,
    }
}

/// The body that sends one statement with its parameters.
pub open spec fn statements_body(statement: Seq<char>, parameters: JsonModel) -> JsonModel {
    JsonModel::Object(
        seq![
            ("statements"@, JsonModel::Array(
                seq![JsonModel::Object(seq![("statement"@, JsonModel::Str(statement)), ("parameters"@, parameters)])],
            )),
        ],
    )
}

fn statements_body_value(statement: &str, parameters: JsonValue) -> (r: JsonValue)
    ensures
        r.model() == statements_body(statement@, parameters.model()),
{
    let ghost p = parameters.model();
    let mut one: Vec<(String, JsonValue)> = Vec::new();
    one.push((String::from_str("statement"), JsonValue::from_text(statement)));
    one.push((String::from_str("parameters"), parameters));
    let inner = JsonValue::Object(one);
    proof {
        let want = seq![("statement"@, JsonModel::Str(statement@)), ("parameters"@, p)];
        let got = inner.model()->Object_0;
        assert(got[0] == (one@[0].0@, one@[0].1.model()));
        assert(got[1] == (one@[1].0@, one@[1].1.model()));
        assert(got =~= want);
    }
    let mut list: Vec<JsonValue> = Vec::new();
    list.push(inner);
    let array = JsonValue::Array(list);
    assert(array.model()->Array_0 =~= seq![inner.model()]);
    let mut outer: Vec<(String, JsonValue)> = Vec::new();
    outer.push((String::from_str("statements"), array));
    let body = JsonValue::Object(outer);
    assert(body.model()->Object_0 =~= statements_body(statement@, p)->Object_0);
    body
}

/// The outcome of one statement: the names of its columns and its rows.
#[derive(Debug)]
pub struct CypherResult {
    pub columns: Vec<String>,
    pub data: JsonValue,
}

/// What the server answers to statements.
#[derive(Debug)]
pub struct CypherResultsResponse {
    pub results: Vec<CypherResult>,
    pub errors: Vec<String>,
    /// The URL that commits the transaction the statements opened, present
    /// only when they opened one.
    pub commit: Option<String>,
}

pub struct StatementRecord {
    pub columns: Seq<Seq<char>>,
    pub data: JsonModel,
}

pub struct ResultsRecord {
    pub results: Seq<StatementRecord>,
    pub errors: Seq<Seq<char>>,
    pub commit: Option<Seq<char>>,
}

pub open spec fn statement_record(m: JsonModel) -> Option<StatementRecord> {
    match (text_list_field(m, "columns"@), m.field("data"@)) {
        (Some(columns), Some(data)) => Some(StatementRecord { columns, data }),
        _ => None,
    }
}

/// The `commit` member: absent or `null`, or a string.
pub open spec fn commit_of(m: JsonModel) -> Option<Option<Seq<char>>> {
    match m.field("commit"@) {
        None => Some(None),
        Some(JsonModel::Null) => Some(None),
        Some(JsonModel::Str(s)) => Some(Some(s)),
        _ => None,
    }
}

/// The results of a list of statement results.
pub open spec fn statement_list(m: JsonModel) -> Option<Seq<StatementRecord>> {
    match m {
        JsonModel::Array(items) => if forall|i: int| 0 <= i < items.len() ==> #[trigger] statement_record(items[i]) is Some {
            Some(items.map_values(|x: JsonModel| statement_record(x)->0))
        } else {
            None
        },
        _ => None,
    }
}

/// The answer described by a document with `results`, `errors` and an
/// optional `commit`.
pub open spec fn results_record(m: JsonModel) -> Option<ResultsRecord> {
    match (m.field("results"@), text_list_field(m, "errors"@), commit_of(m)) {
        (Some(rs), Some(errors), Some(commit)) => match statement_list(rs) {
            Some(results) => Some(ResultsRecord { results, errors, commit }),
            None => None,
        },
        _ => None,
    }
}

/// What an answer with status `expected` to statements says.
pub open spec fn results_answer(outcome: Outcome, expected: u16) -> Result<ResultsRecord, Error> {
    match status_gate(outcome, expected) {
        Err(e) => Err(e),
        Ok(None) => Err(Error::DataError),
        Ok(Some(v)) => match results_record(v.model()) {
            Some(rec) => Ok(rec),
            None => Err(Error::DataError),
        },
    }
}

impl CypherResult {
    pub open spec fn describes(&self, rec: StatementRecord) -> bool {
        texts(self.columns@) == rec.columns && self.data.model() == rec.data
    }

    fn decode(v: &JsonValue) -> (r: Option<CypherResult>)
        ensures
            match statement_record(v.model()) {
                Some(rec) => r matches Some(x) && x.describes(rec),
                None => r is None,
            },
    {
        match (v.get("columns"), v.get("data")) {
            (Some(c), Some(data)) => match c.to_text_list() {
                Some(columns) => Some(CypherResult { columns, data: data.deep_copy() }),
                None => None,
            },
            _ => None,
        }
    }
}

impl CypherResultsResponse {
    pub open spec fn describes(&self, rec: ResultsRecord) -> bool {
        &&& self.results.len() == rec.results.len()
        &&& forall|i: int| 0 <= i < rec.results.len() ==> (#[trigger] self.results@[i]).describes(rec.results[i])
        &&& texts(self.errors@) == rec.errors
        &&& crate::client::text_option(self.commit) == rec.commit
    }

    /// The id of the transaction named by the commit URL, if there is one.
    pub fn get_id(&self) -> (r: Option<u64>)
        ensures
            r == match self.commit {
                Some(c) => transaction_id_of(c@),
                None => None,
            },
    {
        match &self.commit {
            Some(c) => transaction_id_from_url(c.as_str()),
            None => None,
        }
    }

    fn decode_results(v: &JsonValue) -> (r: Option<Vec<CypherResult>>)
        ensures
            match statement_list(v.model()) {
                Some(recs) => r matches Some(out) && out.len() == recs.len() && forall|i: int|
                    0 <= i < recs.len() ==> (#[trigger] out@[i]).describes(recs[i]),
                None => r is None,
            },
    {
        let items = match v {
            JsonValue::Array(items) => items,
            _ => return None,
        };
        let ghost m = v.model()->Array_0;
        assert(forall|j: int| 0 <= j < m.len() ==> #[trigger] m[j] == items@[j].model());
        let mut out: Vec<CypherResult> = Vec::new();
        let mut i: usize = 0;
        while i < items.len()
            invariant
                *v is Array,
                *items == v->Array_0,
                m == v.model()->Array_0,
                m.len() == items.len(),
                forall|j: int| 0 <= j < m.len() ==> #[trigger] m[j] == items@[j].model(),
                0 <= i <= items.len(),
                out.len() == i,
                forall|j: int|
                    0 <= j < i ==> statement_record(#[trigger] m[j]) is Some && out@[j].describes(
                        statement_record(m[j])->0,
                    ),
            decreases items.len() - i,
        {
            match CypherResult::decode(&items[i]) {
                Some(x) => out.push(x),
                None => {
                    assert(statement_record(m[i as int]) is None);
                    assert(v.model() == JsonModel::Array(m));
                    return None;
                },
            }
            i = i + 1;
        }
        assert(statement_list(v.model()) is Some);
        Some(out)
    }

    fn decode(v: &JsonValue) -> (r: Option<CypherResultsResponse>)
        ensures
            match results_record(v.model()) {
                Some(rec) => r matches Some(x) && x.describes(rec),
                None => r is None,
            },
    {
        let commit = match v.get("commit") {
            None => None,
            Some(JsonValue::Null) => None,
            Some(JsonValue::Str(s)) => Some(s.clone()),
            Some(_) => return None,
        };
        let errors = match v.get("errors") {
            Some(x) => match x.to_text_list() {
                Some(l) => l,
                None => return None,
            },
            None => return None,
        };
        let results = match v.get("results") {
            Some(x) => match CypherResultsResponse::decode_results(x) {
                Some(l) => l,
                None => return None,
            },
            None => return None,
        };
        Some(CypherResultsResponse { results, errors, commit })
    }

    /// Decodes the answer expected with status `expected`.
    fn from_answer(outcome: Outcome, expected: u16) -> (r: Result<CypherResultsResponse, Error>)
        ensures
            match results_answer(outcome, expected) {
                Ok(rec) => r matches Ok(x) && x.describes(rec),
                Err(e) => r == Err::<CypherResultsResponse, Error>(e),
            },
    {
        match expect_status(outcome, expected) {
            Err(e) => Err(e),
            Ok(None) => Err(Error::DataError),
            Ok(Some(v)) => match CypherResultsResponse::decode(&v) {
                Some(x) => Ok(x),
                None => Err(Error::DataError),
            },
        }
    }
}

/// Statements run and committed at once.
pub struct Cypher;

impl Cypher {
    /// The request that runs `statement` with `parameters` and commits it.
    pub fn query_request(client: &Client, statement: &str, parameters: JsonValue) -> (r: Request)
        ensures
            r.method == Method::Post,
            r.uri@ == uri_of(client@, "/db/data/transaction/commit"@),
            model_option(r.body) == Some(statements_body(statement@, parameters.model())),
    {
        client.request(Method::Post, "/db/data/transaction/commit", Some(statements_body_value(statement, parameters)))
    }

    /// The results in the answer to `query_request`.
    pub fn query(outcome: Outcome) -> (r: Result<CypherResultsResponse, Error>)
        ensures
            match results_answer(outcome, OK) {
                Ok(rec) => r matches Ok(x) && x.describes(rec),
                Err(e) => r == Err::<CypherResultsResponse, Error>(e),
            },
    {
        CypherResultsResponse::from_answer(outcome, OK)
    }
}

/// The state and result after the answer to a query in a transaction in
/// state `state` (`None`: not begun). A query that begins a transaction
/// must be answered with a commit URL that names it.
pub open spec fn after_query(state: Option<u64>, outcome: Outcome) -> (Option<u64>, Result<ResultsRecord, Error>) {
    let expected = if state is Some {
        OK
    } else {
        CREATED
    };
    match results_answer(outcome, expected) {
        Err(e) => (state, Err(e)),
        Ok(rec) => match state {
            Some(id) => (Some(id), Ok(rec)),
            None => match rec.commit {
                Some(url) => match transaction_id_of(url) {
                    Some(id) => (Some(id), Ok(rec)),
                    None => (None, Err(Error::DataError)),
                },
                None => (None, Err(Error::DataError)),
            },
        },
    }
}

/// The state and result after the answer to a commit, or to a rollback,
/// of a transaction in state `state`.
pub open spec fn after_end(state: Option<u64>, outcome: Outcome) -> (Option<u64>, Result<(), Error>) {
    match state {
        None => (None, Err(Error::IntegrityError)),
        Some(id) => match done(outcome, OK) {
            Ok(()) => (None, Ok(())),
            Err(e) => (Some(id), Err(e)),
        },
    }
}

/// A transaction that has not begun refuses to commit and to roll back,
/// whatever the server would answer.
pub proof fn law_inactive_transaction_cannot_end(outcome: Outcome)
    ensures
        after_end(None, outcome) == (None::<u64>, Err::<(), Error>(Error::IntegrityError)),
{
}

/// A query that succeeds on a transaction not yet begun makes it active,
/// and further queries keep it under the same id. Once a commit or a
/// rollback of it succeeds, it is inactive again and the other one is
/// refused.
pub proof fn law_transaction_lifecycle(begin: Outcome, next: Outcome, end: Outcome, other: Outcome)
    requires
        after_query(None, begin).1 is Ok,
    ensures
        after_query(None, begin).0 is Some,
        after_query(after_query(None, begin).0, next).0 == after_query(None, begin).0,
        after_end(after_query(None, begin).0, end).1 is Ok ==> {
            let ended = after_end(after_query(None, begin).0, end).0;
            ended is None && after_end(ended, other).1 == Err::<(), Error>(Error::IntegrityError)
        },
{
}

/// A transaction that spans several queries. It begins with its first
/// query and ends with a commit or a rollback, after which it can begin
/// again.
#[derive(Debug)]
pub struct CypherTransaction {
    id: Option<u64>,
}

impl View for CypherTransaction {
    type V = Option<u64>;

    /// The id of the transaction on the server; `None` while it is not
    /// active.
    closed spec fn view(&self) -> Option<u64> {
        self.id
    }
}

impl CypherTransaction {
    pub fn new() -> (r: CypherTransaction)
        ensures
            r@ is None,
    {
        CypherTransaction { id: None }
    }

    pub fn is_active(&self) -> (r: bool)
        ensures
            r == self@ is Some,
    {
        self.id.is_some()
    }

    /// The request that runs `statement` with `parameters`, in this
    /// transaction when it is active, else in a new one.
    pub fn query_request(&self, client: &Client, statement: &str, parameters: JsonValue) -> (r: Request)
        ensures
            r.method == Method::Post,
            r.uri@ == uri_of(
                client@,
                match self@ {
                    Some(id) => "/db/data/transaction/"@ + decimal(id as nat),
                    None => "/db/data/transaction"@,
                },
            ),
            model_option(r.body) == Some(statements_body(statement@, parameters.model())),
    {
        let body = Some(statements_body_value(statement, parameters));
        match self.id {
            Some(id) => {
                let mut path = String::from_str("/db/data/transaction/");
                push_decimal(&mut path, id);
                client.request(Method::Post, path.as_str(), body)
            },
            None => client.request(Method::Post, "/db/data/transaction", body),
        }
    }

    /// The results in the answer to `query_request`; a query that begins
    /// the transaction makes it active.
    pub fn query(&mut self, outcome: Outcome) -> (r: Result<CypherResultsResponse, Error>)
        ensures
            final(self)@ == after_query(old(self)@, outcome).0,
            match after_query(old(self)@, outcome).1 {
                Ok(rec) => r matches Ok(x) && x.describes(rec),
                Err(e) => r == Err::<CypherResultsResponse, Error>(e),
            },
    {
        let expected = if self.id.is_some() {
            OK
        } else {
            CREATED
        };
        let res = match CypherResultsResponse::from_answer(outcome, expected) {
            Ok(res) => res,
            Err(e) => return Err(e),
        };
        if self.id.is_none() {
            match res.get_id() {
                Some(id) => self.id = Some(id),
                None => return Err(Error::DataError),
            }
        }
        Ok(res)
    }

    /// The request that commits this transaction, which must be active.
    pub fn commit_request(&self, client: &Client) -> (r: Result<Request, Error>)
        ensures
            self@ is None ==> r == Err::<Request, Error>(Error::IntegrityError),
            self@ matches Some(id) ==> r matches Ok(req) && req.method == Method::Post && req.uri@
                == uri_of(client@, "/db/data/transaction/"@ + decimal(id as nat) + "/commit"@)
                && req.body is None,
    {
        match self.id {
            Some(id) => {
                let mut path = String::from_str("/db/data/transaction/");
                push_decimal(&mut path, id);
                path.append("/commit");
                Ok(client.request(Method::Post, path.as_str(), None))
            },
            None => Err(Error::IntegrityError),
        }
    }

    /// Ends the transaction with the answer to `commit_request`.
    pub fn commit(&mut self, outcome: Outcome) -> (r: Result<(), Error>)
        ensures
            (final(self)@, r) == after_end(old(self)@, outcome),
    {
        if self.id.is_none() {
            return Err(Error::IntegrityError);
        }
        let r = expect_done(outcome, OK);
        if r.is_ok() {
            self.id = None;
        }
        r
    }

    /// The request that rolls this transaction back, which must be active.
    pub fn rollback_request(&self, client: &Client) -> (r: Result<Request, Error>)
        ensures
            self@ is None ==> r == Err::<Request, Error>(Error::IntegrityError),
            self@ matches Some(id) ==> r matches Ok(req) && req.method == Method::Delete && req.uri@
                == uri_of(client@, "/db/data/transaction/"@ + decimal(id as nat)) && req.body is None,
    {
        match self.id {
            Some(id) => {
                let mut path = String::from_str("/db/data/transaction/");
                push_decimal(&mut path, id);
                Ok(client.request(Method::Delete, path.as_str(), None))
            },
            None => Err(Error::IntegrityError),
        }
    }

    /// Ends the transaction with the answer to `rollback_request`.
    pub fn rollback(&mut self, outcome: Outcome) -> (r: Result<(), Error>)
        ensures
            (final(self)@, r) == after_end(old(self)@, outcome),
    {
        if self.id.is_none() {
            return Err(Error::IntegrityError);
        }
        let r = expect_done(outcome, OK);
        if r.is_ok() {
            self.id = None;
        }
        r
    }
}

} // verus!
