//! The client side of a node's local web interface: where it is and the
//! addresses of its requests.
use vstd::prelude::*;
use crate::text::{decimal, push_decimal, string_push_str};

verus! {

/// Where the web interface of the local node listens.
#[derive(Debug, Clone, Default)]
pub struct DtnClient {
    pub localhost: String,
    pub port: u16,
}

/// `http://host:port` followed by `rest`.
pub open spec fn request_url(host: Seq<char>, port: u16, rest: Seq<char>) -> Seq<char> {
    "http://"@ + host + seq![':'] + decimal(port as nat) + rest
}

impl DtnClient {
    /// The client of a node on 127.0.0.1, port 3000.
    pub fn new() -> (r: DtnClient)
        ensures
            r.localhost@ == "127.0.0.1"@,
            r.port == 3000,
    {
        DtnClient { localhost: "127.0.0.1".to_owned(), port: 3000 }
    }

    /// The client of a node on `localhost`, port `port`.
    pub fn with_host_and_port(localhost: String, port: u16) -> (r: DtnClient)
        ensures
            r.localhost@ == localhost@,
            r.port == port,
    {
        DtnClient { localhost, port }
    }

    fn url(&self, rest: &str) -> (r: String)
        ensures
            r@ == request_url(self.localhost@, self.port, rest@),
    {
        let mut u = "http://".to_owned();
        string_push_str(&mut u, self.localhost.as_str());
        string_push_str(&mut u, ":");
        push_decimal(&mut u, self.port as u64);
        string_push_str(&mut u, rest);
        proof {
            reveal_strlit(":");
        }
        assert(u@ =~= request_url(self.localhost@, self.port, rest@));
        u
    }

    /// The address that answers with the node's identifier.
    pub fn local_node_id_url(&self) -> (r: String)
        ensures
            r@ == request_url(self.localhost@, self.port, "/status/nodeid"@),
    {
        self.url("/status/nodeid")
    }

    /// The address that answers with a fresh creation timestamp.
    pub fn creation_timestamp_url(&self) -> (r: String)
        ensures
            r@ == request_url(self.localhost@, self.port, "/cts"@),
    {
        self.url("/cts")
    }

    /// The address that registers the application endpoint `path`.
    pub fn register_application_endpoint_url(&self, path: &str) -> (r: String)
        ensures
            r@ == request_url(self.localhost@, self.port, "/register?"@ + path@),
    {
        let mut rest = "/register?".to_owned();
        string_push_str(&mut rest, path);
        self.url(rest.as_str())
    }

    /// The address that unregisters the application endpoint `path`.
    pub fn unregister_application_endpoint_url(&self, path: &str) -> (r: String)
        ensures
            r@ == request_url(self.localhost@, self.port, "/unregister?"@ + path@),
    {
        let mut rest = "/unregister?".to_owned();
        string_push_str(&mut rest, path);
        self.url(rest.as_str())
    }
}

} // verus!
