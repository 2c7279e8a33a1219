//! Where the server is and how to authenticate to it.
use vstd::prelude::*;
use rustc_serialize::base64::ToBase64;
use crate::http::{Method, Outcome, Request, OK};
use crate::json::JsonValue;
use crate::text::{decimal, push_decimal};

verus! {

/// The encoding of a text's UTF-8 bytes in standard, padded base64.
pub uninterp spec fn base64_of(s: Seq<char>) -> Seq<char>;

/// Relies on rustc_serialize's `ToBase64::to_base64` with the `STANDARD`
/// configuration (standard alphabet, padding, no line breaks) to encode the
/// UTF-8 bytes of `s`.
#[verifier::external_body]
fn base64_standard(s: &str) -> (r: String)
    ensures
        r@ == base64_of(s@),
{
    s.as_bytes().to_base64(rustc_serialize::base64::STANDARD)
}

/// The value of the `Authorization` header for basic authentication.
pub open spec fn basic_credential(username: Seq<char>, password: Seq<char>) -> Seq<char> {
    "Basic "@ + base64_of(username + ":"@ + password)
}

/// The view of an optional text.
pub open spec fn text_option(o: Option<String>) -> Option<Seq<char>> {
    match o {
        Some(s) => Some(s@),
        None => None,
    }
}

pub struct ClientView {
    pub url: Seq<char>,
    pub port: u32,
    pub authorization: Option<Seq<char>>,
}

/// The absolute URI of `path` on the server that `c` describes.
pub open spec fn uri_of(c: ClientView, path: Seq<char>) -> Seq<char> {
    c.url + ":"@ + decimal(c.port as nat) + path
}

/// Where the server is and how to authenticate to it. Its fields are fixed
/// once built, so one client can be shared by reference by every operation.
#[derive(Debug)]
pub struct Client {
    url: String,
    port: u32,
    authorization: Option<String>,
}

fn copy_text_option(s: &Option<String>) -> (r: Option<String>)
    ensures
        r == *s,
{
    match s {
        Some(t) => Some(t.clone()),
        None => None,
    }
}

impl View for Client {
    type V = ClientView;

    closed spec fn view(&self) -> ClientView {
        ClientView {
            url: self.url@,
            port: self.port,
            authorization: text_option(self.authorization),
        }
    }
}

impl Client {
    /// The absolute URI of `path` on this server.
    pub fn build_uri(&self, path: &str) -> (r: String)
        ensures
            r@ == uri_of(self@, path@),
    {
        let mut uri = self.url.clone();
        uri.append(":");
        push_decimal(&mut uri, self.port as u64);
        uri.append(path);
        uri
    }

    /// The request to `path` with `method` and `body`, with this client's
    /// credential.
    pub fn request(&self, method: Method, path: &str, body: Option<JsonValue>) -> (r: Request)
        ensures
            r.method == method,
            r.uri@ == uri_of(self@, path@),
            text_option(r.authorization) == self@.authorization,
            r.body == body,
    {
        Request {
            method,
            uri: self.build_uri(path),
            authorization: copy_text_option(&self.authorization),
            body,
        }
    }

    /// The request that checks whether the server is up.
    pub fn alive_request(&self) -> (r: Request)
        ensures
            r.method == Method::Get,
            r.uri@ == uri_of(self@, "/db/data"@),
            r.body is None,
    {
        self.request(Method::Get, "/db/data", None)
    }

    /// Whether the answer to `alive_request` shows a live server.
    pub fn is_alive(outcome: &Outcome) -> (r: bool)
        ensures
            r == (*outcome matches Outcome::Answered { status, .. } && status == OK),
    {
        match outcome {
            Outcome::Answered { status, .. } => *status == OK,
            Outcome::Unreachable => false,
        }
    }
}

/// Builds a `Client`, by default for `http://localhost` on port 7474
/// without credential.
pub struct ClientBuilder {
    client: Client,
}

impl View for ClientBuilder {
    type V = ClientView;

    closed spec fn view(&self) -> ClientView {
        self.client@
    }
}

impl ClientBuilder {
    pub fn new() -> (r: ClientBuilder)
        ensures
            r@.url == "http://localhost"@,
            r@.port == 7474,
            r@.authorization is None,
    {
        ClientBuilder {
            client: Client { url: String::from_str("http://localhost"), port: 7474, authorization: None },
        }
    }

    /// Sets the base URL, scheme and host without port.
    pub fn url(self, url: String) -> (r: ClientBuilder)
        ensures
            r@ == (ClientView { url: url@, ..self@ }),
    {
        let ClientBuilder { client } = self;
        ClientBuilder { client: Client { url, ..client } }
    }

    pub fn port(self, port: u32) -> (r: ClientBuilder)
        ensures
            r@ == (ClientView { port, ..self@ }),
    {
        let ClientBuilder { client } = self;
        ClientBuilder { client: Client { port, ..client } }
    }

    /// Sets the credential for basic authentication.
    pub fn credential(self, username: String, password: String) -> (r: ClientBuilder)
        ensures
            r@ == (ClientView { authorization: Some(basic_credential(username@, password@)), ..self@ }),
    {
        let mut pair = username;
        pair.append(":");
        pair.append(password.as_str());
        let mut header = String::from_str("Basic ");
        header.append(base64_standard(pair.as_str()).as_str());
        let ClientBuilder { client } = self;
        ClientBuilder { client: Client { authorization: Some(header), ..client } }
    }

    pub fn get(self) -> (r: Client)
        ensures
            r@ == self@,
    {
        self.client
    }
}

} // verus!
