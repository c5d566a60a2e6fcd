//! The request and response that the handler exchanges for an HTTP-shaped
//! event, and the configuration that the host delivers for an actor.

use vstd::prelude::*;

verus! {

/// A list of name and value pairs, in the order in which they are held.
pub type Pairs = Vec<(String, String)>;

/// The characters of each pair of a list.
pub open spec fn pairs_text(pairs: Seq<(String, String)>) -> Seq<(Seq<char>, Seq<char>)> {
    pairs.map_values(|p: (String, String)| (p.0@, p.1@))
}

/// The value of the first pair with the given name.
pub open spec fn lookup(pairs: Seq<(Seq<char>, Seq<char>)>, name: Seq<char>) -> Option<Seq<char>>
    decreases pairs.len(),
{
    if pairs.len() == 0 {
        None
    } else if pairs[0].0 == name {
        Some(pairs[0].1)
    } else {
        lookup(pairs.drop_first(), name)
    }
}

/// The map that a list of pairs stands for: each name with the value that
/// is found under it.
pub open spec fn pairs_map(pairs: Seq<(Seq<char>, Seq<char>)>) -> Map<Seq<char>, Seq<char>> {
    Map::new(
        |name: Seq<char>| lookup(pairs, name) is Some,
        |name: Seq<char>| lookup(pairs, name)->0,
    )
}

/// What an HTTP request holds.
pub struct HttpRequestView {
    pub method: Seq<char>,
    pub path: Seq<char>,
    pub query_string: Seq<char>,
    pub header: Seq<(Seq<char>, Seq<char>)>,
    pub body: Seq<u8>,
}

/// Describes an HTTP request as it is handed to the handler.
#[derive(Debug)]
pub struct HttpRequest {
    /// The HTTP method (e.g. GET, PUT, DELETE).
    pub method: String,
    /// The path of the request.
    pub path: String,
    /// The query string portion of the URL.
    pub query_string: String,
    /// The request headers.
    pub header: Pairs,
    /// The raw bytes of the request body.
    pub body: Vec<u8>,
}

impl View for HttpRequest {
    type V = HttpRequestView;

    open spec fn view(&self) -> HttpRequestView {
        HttpRequestView {
            method: self.method@,
            path: self.path@,
            query_string: self.query_string@,
            header: pairs_text(self.header@),
            body: self.body@,
        }
    }
}

/// Represents an HTTP response as the handler returns it.
#[derive(Debug)]
pub struct HttpResponse {
    /// The response's numerical status code (e.g. 200).
    pub status_code: u32,
    /// The string version of the status (e.g. 'OK').
    pub status: String,
    /// The response headers.
    pub header: Pairs,
    /// The raw bytes of the body.
    pub body: Vec<u8>,
}

/// The configuration that the host delivers for one actor.
#[derive(Debug)]
pub struct ActorConfiguration {
    /// The key that distinguishes the actor.
    pub module: String,
    /// Raw configuration values.
    pub values: Pairs,
}

} // verus!
